//! The decisions of the attachment lifecycle.
//!
//! Attaching takes four steps, in order: remove any clsact queueing
//! discipline left on the interface, add a fresh one, attach the ingress
//! classifier, attach the egress classifier. The caller performs each step
//! that [`AttachSession::next_action`] names and reports how it went with
//! [`AttachSession::record`].
use vstd::prelude::*;

verus! {

/// Where an attach attempt stands.
#[derive(Debug, Clone, Copy, PartialEq, Eq, Structural)]
pub enum AttachPhase {
    /// Nothing done yet: stale infrastructure may be present.
    Unprepared,
    /// Any stale queueing discipline has been removed.
    NoQdisc,
    /// The clsact queueing discipline exists.
    QdiscPresent,
    /// The ingress classifier is attached.
    IngressAttached,
    /// Both classifiers are attached.
    EgressAttached,
    /// A step failed; the attempt is over and must be restarted from scratch.
    Failed(AttachStage),
}

/// The step at which an attach attempt failed.
#[derive(Debug, Clone, Copy, PartialEq, Eq, Structural)]
pub enum AttachStage {
    Qdisc,
    Ingress,
    Egress,
}

/// What the caller is asked to do next.
#[derive(Debug, Clone, Copy, PartialEq, Eq, Structural)]
pub enum AttachAction {
    /// Delete the clsact queueing discipline; failure is ignored.
    ResetQdisc,
    /// Create the clsact queueing discipline.
    AddQdisc,
    /// Load the ingress classifier and attach it.
    AttachIngress,
    /// Load the egress classifier and attach it.
    AttachEgress,
    /// Nothing is left to do.
    Finish,
}

/// How a step went.
#[derive(Debug, Clone, Copy, PartialEq, Eq, Structural)]
pub enum StepOutcome {
    Succeeded,
    /// The object to create was already there.
    AlreadyExists,
    Failed,
}

/// The phase is one after which nothing is left to do.
pub open spec fn is_terminal(ph: AttachPhase) -> bool {
    ph is EgressAttached || ph is Failed
}

/// The step asked for in phase `ph`.
pub open spec fn action_of(ph: AttachPhase) -> AttachAction {
    match ph {
        AttachPhase::Unprepared => AttachAction::ResetQdisc,
        AttachPhase::NoQdisc => AttachAction::AddQdisc,
        AttachPhase::QdiscPresent => AttachAction::AttachIngress,
        AttachPhase::IngressAttached => AttachAction::AttachEgress,
        _ => AttachAction::Finish,
    }
}

/// The phase after the step of phase `ph` went as `o` says. A failed reset
/// is ignored; an existing queueing discipline counts as created; any other
/// failure ends the attempt.
pub open spec fn advance(ph: AttachPhase, o: StepOutcome) -> AttachPhase {
    match ph {
        AttachPhase::Unprepared => AttachPhase::NoQdisc,
        AttachPhase::NoQdisc => if o is Failed {
            AttachPhase::Failed(AttachStage::Qdisc)
        } else {
            AttachPhase::QdiscPresent
        },
        AttachPhase::QdiscPresent => if o is Succeeded {
            AttachPhase::IngressAttached
        } else {
            AttachPhase::Failed(AttachStage::Ingress)
        },
        AttachPhase::IngressAttached => if o is Succeeded {
            AttachPhase::EgressAttached
        } else {
            AttachPhase::Failed(AttachStage::Egress)
        },
        _ => ph,
    }
}

/// The attach lifecycle of one agent on one interface.
pub struct AttachSession {
    interface: String,
    phase: AttachPhase,
}

impl AttachSession {
    pub closed spec fn interface_view(&self) -> Seq<char> {
        self.interface@
    }

    pub closed spec fn phase_view(&self) -> AttachPhase {
        self.phase
    }

    /// A session for `interface` with no attempt made yet.
    pub fn new(interface: &str) -> (r: AttachSession)
        ensures
            r.interface_view() == interface@,
            r.phase_view() == AttachPhase::Unprepared,
    {
        AttachSession { interface: interface.to_string(), phase: AttachPhase::Unprepared }
    }

    /// The interface that this session attaches to.
    pub fn interface(&self) -> (r: &str)
        ensures
            r@ == self.interface_view(),
    {
        self.interface.as_str()
    }

    /// Where the current attempt stands.
    pub fn phase(&self) -> (r: AttachPhase)
        ensures
            r == self.phase_view(),
    {
        self.phase
    }

    /// Starts a new attempt from scratch.
    pub fn begin(&mut self)
        ensures
            final(self).interface_view() == old(self).interface_view(),
            final(self).phase_view() == AttachPhase::Unprepared,
    {
        self.phase = AttachPhase::Unprepared;
    }

    /// The step the caller is to perform next.
    pub fn next_action(&self) -> (r: AttachAction)
        ensures
            r == action_of(self.phase_view()),
            r is Finish <==> is_terminal(self.phase_view()),
    {
        match self.phase {
            AttachPhase::Unprepared => AttachAction::ResetQdisc,
            AttachPhase::NoQdisc => AttachAction::AddQdisc,
            AttachPhase::QdiscPresent => AttachAction::AttachIngress,
            AttachPhase::IngressAttached => AttachAction::AttachEgress,
            _ => AttachAction::Finish,
        }
    }

    /// Records how the step of [`next_action`](Self::next_action) went.
    pub fn record(&mut self, outcome: StepOutcome)
        ensures
            final(self).interface_view() == old(self).interface_view(),
            final(self).phase_view() == advance(old(self).phase_view(), outcome),
    {
        let next = match self.phase {
            AttachPhase::Unprepared => AttachPhase::NoQdisc,
            AttachPhase::NoQdisc => match outcome {
                StepOutcome::Failed => AttachPhase::Failed(AttachStage::Qdisc),
                _ => AttachPhase::QdiscPresent,
            },
            AttachPhase::QdiscPresent => match outcome {
                StepOutcome::Succeeded => AttachPhase::IngressAttached,
                _ => AttachPhase::Failed(AttachStage::Ingress),
            },
            AttachPhase::IngressAttached => match outcome {
                StepOutcome::Succeeded => AttachPhase::EgressAttached,
                _ => AttachPhase::Failed(AttachStage::Egress),
            },
            other => other,
        };
        self.phase = next;
    }

    /// Both classifiers are attached, so draining the log relay is
    /// meaningful.
    pub fn can_poll(&self) -> (r: bool)
        ensures
            r <==> self.phase_view() is EgressAttached,
    {
        match self.phase {
            AttachPhase::EgressAttached => true,
            _ => false,
        }
    }

    /// The stage at which the attempt failed, if it did.
    pub fn failure(&self) -> (r: Option<AttachStage>)
        ensures
            match self.phase_view() {
                AttachPhase::Failed(s) => r == Some(s),
                _ => r is None,
            },
    {
        match self.phase {
            AttachPhase::Failed(s) => Some(s),
            _ => None,
        }
    }
}

/// The attachment infrastructure that the kernel holds on one interface:
/// whether the clsact queueing discipline exists, and how many classifier
/// instances hang on each of its hooks.
pub struct TcState {
    pub qdisc: bool,
    pub ingress: nat,
    pub egress: nat,
}

/// Classifiers hang only on an existing queueing discipline: deleting it
/// removes them.
pub open spec fn tc_wf(k: TcState) -> bool {
    !k.qdisc ==> k.ingress == 0 && k.egress == 0
}

/// What performing `a` does to the kernel state `k` of an interface, and
/// how the step goes; every step fails on an interface that does not exist.
pub open spec fn perform(k: TcState, exists: bool, a: AttachAction) -> (TcState, StepOutcome) {
    if !exists {
        (k, StepOutcome::Failed)
    } else {
        match a {
            AttachAction::ResetQdisc => if k.qdisc {
                (TcState { qdisc: false, ingress: 0, egress: 0 }, StepOutcome::Succeeded)
            } else {
                (k, StepOutcome::Failed)
            },
            AttachAction::AddQdisc => if k.qdisc {
                (k, StepOutcome::AlreadyExists)
            } else {
                (TcState { qdisc: true, ..k }, StepOutcome::Succeeded)
            },
            AttachAction::AttachIngress => if k.qdisc {
                (TcState { ingress: k.ingress + 1, ..k }, StepOutcome::Succeeded)
            } else {
                (k, StepOutcome::Failed)
            },
            AttachAction::AttachEgress => if k.qdisc {
                (TcState { egress: k.egress + 1, ..k }, StepOutcome::Succeeded)
            } else {
                (k, StepOutcome::Failed)
            },
            AttachAction::Finish => (k, StepOutcome::Succeeded),
        }
    }
}

/// Runs at most `n` steps of an attempt in phase `ph` against kernel state
/// `k`, each decided by [`action_of`] and [`advance`].
pub open spec fn drive(k: TcState, exists: bool, ph: AttachPhase, n: nat) -> (TcState, AttachPhase)
    decreases n,
{
    if n == 0 || is_terminal(ph) {
        (k, ph)
    } else {
        let (k2, o) = perform(k, exists, action_of(ph));
        drive(k2, exists, advance(ph, o), (n - 1) as nat)
    }
}

/// A whole attach attempt against kernel state `k`: its four steps.
pub open spec fn attach_run(k: TcState, exists: bool) -> (TcState, AttachPhase) {
    drive(k, exists, AttachPhase::Unprepared, 4)
}

/// On an existing interface, an attach attempt succeeds from any state and
/// leaves exactly one classifier on each hook; a second attempt right after
/// succeeds too and leaves the same state, with no second instance.
pub proof fn lemma_attach_idempotent(k: TcState)
    requires
        tc_wf(k),
    ensures
        attach_run(k, true) == (TcState { qdisc: true, ingress: 1, egress: 1 }, AttachPhase::EgressAttached),
        attach_run(attach_run(k, true).0, true) == attach_run(k, true),
{
    reveal_with_fuel(drive, 5);
}

/// On an interface that does not exist, an attach attempt fails at the
/// queueing discipline, changes nothing, and leaves no session state in
/// which draining the log relay is meaningful.
pub proof fn lemma_missing_interface_fails(k: TcState)
    ensures
        attach_run(k, false) == (k, AttachPhase::Failed(AttachStage::Qdisc)),
        !(attach_run(k, false).1 is EgressAttached),
{
    reveal_with_fuel(drive, 5);
}

} // verus!
