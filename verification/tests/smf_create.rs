use nextgcore::smf_create::{
    sm_create_step, GsmCause, NsacResult, PolicyResult, SmCreateAction, SmCreateEvent, SmCreateReject, SmCreateState,
};

fn run(events: &[SmCreateEvent]) -> (SmCreateState, Vec<SmCreateAction>) {
    let mut st = SmCreateState::Start;
    let mut actions = Vec::new();
    for ev in events {
        let (next, a) = sm_create_step(st, *ev);
        st = next;
        actions.push(a);
    }
    (st, actions)
}

#[test]
fn sm_create_happy_path_accepts() {
    let (st, actions) = run(&[
        SmCreateEvent::Begin,
        SmCreateEvent::IpAllocated(true),
        SmCreateEvent::Nsac(NsacResult::Admitted),
        SmCreateEvent::Policy(PolicyResult::Created),
        SmCreateEvent::Pfcp(true),
        SmCreateEvent::N2Encoded(true),
    ]);
    assert_eq!(st, SmCreateState::Done);
    assert_eq!(
        actions,
        vec![
            SmCreateAction::AllocateIp,
            SmCreateAction::AskNsac,
            SmCreateAction::AskPolicy,
            SmCreateAction::EstablishPfcp,
            SmCreateAction::EncodeN2,
            SmCreateAction::Accept,
        ]
    );
}

#[test]
fn sm_create_pool_exhausted_is_500() {
    let (st, actions) = run(&[SmCreateEvent::Begin, SmCreateEvent::IpAllocated(false)]);
    assert_eq!(st, SmCreateState::Done);
    assert_eq!(
        actions[1],
        SmCreateAction::Reject(SmCreateReject {
            status: 500,
            cause: "INSUFFICIENT_RESOURCES",
            gsm_cause: GsmCause::InsufficientResources,
            release_ip: false,
            rollback_nsac: false,
            delete_policy: false,
        })
    );
}

#[test]
fn sm_create_nsac_rejection_releases_ip() {
    let (_, actions) = run(&[SmCreateEvent::Begin, SmCreateEvent::IpAllocated(true), SmCreateEvent::Nsac(NsacResult::Rejected)]);
    assert_eq!(
        actions[2],
        SmCreateAction::Reject(SmCreateReject {
            status: 403,
            cause: "NSAC_PDU_SESSION_REJECTED",
            gsm_cause: GsmCause::InsufficientResourcesForSpecificSlice,
            release_ip: true,
            rollback_nsac: false,
            delete_policy: false,
        })
    );
}

#[test]
fn sm_create_policy_rejection_rolls_back_admission() {
    let (_, actions) = run(&[
        SmCreateEvent::Begin,
        SmCreateEvent::IpAllocated(true),
        SmCreateEvent::Nsac(NsacResult::Admitted),
        SmCreateEvent::Policy(PolicyResult::Rejected),
    ]);
    assert_eq!(
        actions[3],
        SmCreateAction::Reject(SmCreateReject {
            status: 403,
            cause: "POLICY_REJECTED",
            gsm_cause: GsmCause::UserAuthenticationOrAuthorizationFailed,
            release_ip: true,
            rollback_nsac: true,
            delete_policy: false,
        })
    );
}

#[test]
fn sm_create_pcf_unreachable_is_504_without_admission() {
    let (_, actions) = run(&[
        SmCreateEvent::Begin,
        SmCreateEvent::IpAllocated(true),
        SmCreateEvent::Nsac(NsacResult::Unavailable),
        SmCreateEvent::Policy(PolicyResult::Unreachable),
    ]);
    assert_eq!(
        actions[3],
        SmCreateAction::Reject(SmCreateReject {
            status: 504,
            cause: "PCF_NOT_RESPONDING",
            gsm_cause: GsmCause::NetworkFailure,
            release_ip: true,
            rollback_nsac: false,
            delete_policy: false,
        })
    );
}

#[test]
fn sm_create_pfcp_failure_undoes_policy_and_admission() {
    let (_, actions) = run(&[
        SmCreateEvent::Begin,
        SmCreateEvent::IpAllocated(true),
        SmCreateEvent::Nsac(NsacResult::Admitted),
        SmCreateEvent::Policy(PolicyResult::Created),
        SmCreateEvent::Pfcp(false),
    ]);
    assert_eq!(
        actions[4],
        SmCreateAction::Reject(SmCreateReject {
            status: 504,
            cause: "UPF_NOT_RESPONDING",
            gsm_cause: GsmCause::InsufficientResources,
            release_ip: true,
            rollback_nsac: true,
            delete_policy: true,
        })
    );
}

#[test]
fn sm_create_pfcp_failure_with_default_policy_deletes_nothing_at_pcf() {
    let (_, actions) = run(&[
        SmCreateEvent::Begin,
        SmCreateEvent::IpAllocated(true),
        SmCreateEvent::Nsac(NsacResult::NotConfigured),
        SmCreateEvent::Policy(PolicyResult::NoPcf),
        SmCreateEvent::Pfcp(false),
    ]);
    assert_eq!(
        actions[4],
        SmCreateAction::Reject(SmCreateReject {
            status: 504,
            cause: "UPF_NOT_RESPONDING",
            gsm_cause: GsmCause::InsufficientResources,
            release_ip: true,
            rollback_nsac: false,
            delete_policy: false,
        })
    );
}

#[test]
fn sm_create_n2_failure_is_500() {
    let (st, actions) = run(&[
        SmCreateEvent::Begin,
        SmCreateEvent::IpAllocated(true),
        SmCreateEvent::Nsac(NsacResult::Admitted),
        SmCreateEvent::Policy(PolicyResult::Created),
        SmCreateEvent::Pfcp(true),
        SmCreateEvent::N2Encoded(false),
    ]);
    assert_eq!(st, SmCreateState::Done);
    assert_eq!(
        actions[5],
        SmCreateAction::Reject(SmCreateReject {
            status: 500,
            cause: "SYSTEM_FAILURE",
            gsm_cause: GsmCause::NetworkFailure,
            release_ip: true,
            rollback_nsac: true,
            delete_policy: false,
        })
    );
}

#[test]
fn sm_create_out_of_order_event_is_ignored() {
    let (st, a) = sm_create_step(SmCreateState::WaitNsac, SmCreateEvent::Pfcp(true));
    assert_eq!(st, SmCreateState::WaitNsac);
    assert_eq!(a, SmCreateAction::Ignore);
}
