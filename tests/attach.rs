use krait::attach::{AttachAction, AttachPhase, AttachSession, AttachStage, StepOutcome};

/// A kernel stand-in: clsact presence and classifier counts on one interface.
struct Kernel {
    exists: bool,
    qdisc: bool,
    ingress: u32,
    egress: u32,
}

impl Kernel {
    fn perform(&mut self, a: AttachAction) -> StepOutcome {
        if !self.exists {
            return StepOutcome::Failed;
        }
        match a {
            AttachAction::ResetQdisc => {
                if !self.qdisc {
                    return StepOutcome::Failed;
                }
                self.qdisc = false;
                self.ingress = 0;
                self.egress = 0;
                StepOutcome::Succeeded
            }
            AttachAction::AddQdisc => {
                if self.qdisc {
                    StepOutcome::AlreadyExists
                } else {
                    self.qdisc = true;
                    StepOutcome::Succeeded
                }
            }
            AttachAction::AttachIngress if self.qdisc => {
                self.ingress += 1;
                StepOutcome::Succeeded
            }
            AttachAction::AttachEgress if self.qdisc => {
                self.egress += 1;
                StepOutcome::Succeeded
            }
            AttachAction::Finish => StepOutcome::Succeeded,
            _ => StepOutcome::Failed,
        }
    }
}

fn run(session: &mut AttachSession, kernel: &mut Kernel) -> Vec<AttachAction> {
    session.begin();
    let mut done = Vec::new();
    loop {
        let a = session.next_action();
        if a == AttachAction::Finish {
            return done;
        }
        done.push(a);
        let o = kernel.perform(a);
        session.record(o);
    }
}

#[test]
fn attach_runs_the_four_steps_in_order() {
    let mut s = AttachSession::new("eth0");
    assert_eq!(s.interface(), "eth0");
    assert_eq!(s.phase(), AttachPhase::Unprepared);
    let mut k = Kernel { exists: true, qdisc: false, ingress: 0, egress: 0 };
    let steps = run(&mut s, &mut k);
    assert_eq!(
        steps,
        vec![
            AttachAction::ResetQdisc,
            AttachAction::AddQdisc,
            AttachAction::AttachIngress,
            AttachAction::AttachEgress
        ]
    );
    assert_eq!(s.phase(), AttachPhase::EgressAttached);
    assert!(s.can_poll());
    assert_eq!(s.failure(), None);
    assert_eq!((k.qdisc, k.ingress, k.egress), (true, 1, 1));
}

#[test]
fn attach_twice_succeeds_without_duplicates() {
    let mut s = AttachSession::new("wg0");
    let mut k = Kernel { exists: true, qdisc: true, ingress: 1, egress: 0 };
    run(&mut s, &mut k);
    assert_eq!(s.phase(), AttachPhase::EgressAttached);
    run(&mut s, &mut k);
    assert_eq!(s.phase(), AttachPhase::EgressAttached);
    assert_eq!((k.qdisc, k.ingress, k.egress), (true, 1, 1));
}

#[test]
fn existing_qdisc_counts_as_created() {
    let mut s = AttachSession::new("wg0");
    s.record(StepOutcome::Failed);
    assert_eq!(s.phase(), AttachPhase::NoQdisc);
    s.record(StepOutcome::AlreadyExists);
    assert_eq!(s.phase(), AttachPhase::QdiscPresent);
}

#[test]
fn missing_interface_fails_at_the_qdisc() {
    let mut s = AttachSession::new("does-not-exist0");
    let mut k = Kernel { exists: false, qdisc: false, ingress: 0, egress: 0 };
    let steps = run(&mut s, &mut k);
    assert_eq!(steps, vec![AttachAction::ResetQdisc, AttachAction::AddQdisc]);
    assert_eq!(s.phase(), AttachPhase::Failed(AttachStage::Qdisc));
    assert_eq!(s.failure(), Some(AttachStage::Qdisc));
    assert!(!s.can_poll());
}

#[test]
fn partial_attachment_is_fatal() {
    let mut s = AttachSession::new("eth0");
    s.record(StepOutcome::Succeeded);
    s.record(StepOutcome::Succeeded);
    s.record(StepOutcome::Succeeded);
    assert_eq!(s.phase(), AttachPhase::IngressAttached);
    assert!(!s.can_poll());
    s.record(StepOutcome::Failed);
    assert_eq!(s.failure(), Some(AttachStage::Egress));
    assert_eq!(s.next_action(), AttachAction::Finish);
    s.record(StepOutcome::Succeeded);
    assert_eq!(s.phase(), AttachPhase::Failed(AttachStage::Egress));
}

#[test]
fn duplicate_ingress_is_not_tolerated() {
    let mut s = AttachSession::new("eth0");
    s.record(StepOutcome::Succeeded);
    s.record(StepOutcome::Succeeded);
    s.record(StepOutcome::AlreadyExists);
    assert_eq!(s.failure(), Some(AttachStage::Ingress));
}
