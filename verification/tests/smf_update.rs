use nextgcore::smf_create::GsmCause;
use nextgcore::smf_sbi::SmContextUpdateAction;
use nextgcore::smf_update::{sm_update_step, ReauthResult, SmUpdateAction, SmUpdateEvent, SmUpdateReply, SmUpdateState};

fn run(a: SmContextUpdateAction, events: &[SmUpdateEvent]) -> (SmUpdateState, Vec<SmUpdateAction>) {
    let mut st = SmUpdateState::Start(a);
    let mut out = Vec::new();
    for ev in [SmUpdateEvent::Begin].iter().chain(events.iter()) {
        let (next, act) = sm_update_step(st, *ev);
        st = next;
        out.push(act);
    }
    (st, out)
}

fn reply(status: u16, problem: Option<&'static str>, up: Option<&'static str>, n2: Option<&'static str>) -> SmUpdateAction {
    SmUpdateAction::Reply(SmUpdateReply {
        status,
        problem,
        up_cnx_state: up,
        n2_sm_info_type: n2,
        gsm_reject: None,
        with_n1_n2: false,
    })
}

#[test]
fn sm_update_setup_response_activates() {
    let (st, out) = run(
        SmContextUpdateAction::ActivateDownlink { path_switch: false },
        &[SmUpdateEvent::Endpoint(true), SmUpdateEvent::Session(true), SmUpdateEvent::Pfcp(true)],
    );
    assert_eq!(st, SmUpdateState::Done);
    assert_eq!(
        out,
        vec![
            SmUpdateAction::ReadEndpoint,
            SmUpdateAction::FindSession,
            SmUpdateAction::ActivateDownlink,
            reply(200, None, Some("ACTIVATED"), None),
        ]
    );
}

#[test]
fn sm_update_path_switch_acknowledged() {
    let (_, out) = run(
        SmContextUpdateAction::ActivateDownlink { path_switch: true },
        &[SmUpdateEvent::Endpoint(true), SmUpdateEvent::Session(true), SmUpdateEvent::Pfcp(true)],
    );
    assert_eq!(out[3], reply(200, None, Some("ACTIVATED"), Some("PATH_SWITCH_REQ_ACK")));
}

#[test]
fn sm_update_activation_failures() {
    let (_, out) = run(SmContextUpdateAction::ActivateDownlink { path_switch: false }, &[SmUpdateEvent::Endpoint(false)]);
    assert_eq!(out[1], reply(400, Some("N2_SM_ERROR"), None, None));
    let (_, out) = run(
        SmContextUpdateAction::ActivateDownlink { path_switch: false },
        &[SmUpdateEvent::Endpoint(true), SmUpdateEvent::Session(false)],
    );
    assert_eq!(out[2], reply(404, None, None, None));
    let (_, out) = run(
        SmContextUpdateAction::ActivateDownlink { path_switch: false },
        &[SmUpdateEvent::Endpoint(true), SmUpdateEvent::Session(true), SmUpdateEvent::Pfcp(false)],
    );
    assert_eq!(out[3], reply(504, None, None, None));
}

#[test]
fn sm_update_an_failure_never_refused() {
    let (_, out) = run(SmContextUpdateAction::AnResourceFailure, &[SmUpdateEvent::Session(true), SmUpdateEvent::Pfcp(false)]);
    assert_eq!(out[2], reply(200, None, Some("DEACTIVATED"), None));
    let (_, out) = run(SmContextUpdateAction::AnResourceFailure, &[SmUpdateEvent::Session(false)]);
    assert_eq!(out[1], reply(200, None, Some("DEACTIVATED"), None));
}

#[test]
fn sm_update_idle_failure_is_504() {
    let (_, out) = run(SmContextUpdateAction::DeactivateUpConnection, &[SmUpdateEvent::Session(true), SmUpdateEvent::Pfcp(false)]);
    assert_eq!(out[2], reply(504, None, None, None));
    let (_, out) = run(SmContextUpdateAction::DeactivateUpConnection, &[SmUpdateEvent::Session(true), SmUpdateEvent::Pfcp(true)]);
    assert_eq!(out[2], reply(200, None, Some("DEACTIVATED"), None));
}

#[test]
fn sm_update_ue_modification_paths() {
    let (_, out) = run(
        SmContextUpdateAction::UeModification,
        &[
            SmUpdateEvent::N1(true),
            SmUpdateEvent::Reauth(ReauthResult::Authorized),
            SmUpdateEvent::Session(true),
            SmUpdateEvent::Pfcp(true),
            SmUpdateEvent::N2Encoded(true),
        ],
    );
    assert_eq!(
        out[5],
        SmUpdateAction::Reply(SmUpdateReply {
            status: 200,
            problem: None,
            up_cnx_state: None,
            n2_sm_info_type: Some("PDU_RES_MOD_REQ"),
            gsm_reject: None,
            with_n1_n2: true,
        })
    );
    let (_, out) = run(SmContextUpdateAction::UeModification, &[SmUpdateEvent::N1(false)]);
    assert_eq!(out[1], reply(400, Some("N1_SM_ERROR"), None, None));
    let (_, out) = run(
        SmContextUpdateAction::UeModification,
        &[SmUpdateEvent::N1(true), SmUpdateEvent::Reauth(ReauthResult::Rejected)],
    );
    assert_eq!(
        out[2],
        SmUpdateAction::Reply(SmUpdateReply {
            status: 403,
            problem: Some("POLICY_REJECTED"),
            up_cnx_state: None,
            n2_sm_info_type: None,
            gsm_reject: Some(GsmCause::UserAuthenticationOrAuthorizationFailed),
            with_n1_n2: false,
        })
    );
    let (_, out) = run(
        SmContextUpdateAction::UeModification,
        &[
            SmUpdateEvent::N1(true),
            SmUpdateEvent::Reauth(ReauthResult::Authorized),
            SmUpdateEvent::Session(false),
            SmUpdateEvent::N2Encoded(false),
        ],
    );
    assert_eq!(out[3], SmUpdateAction::EncodeModTransfer);
    assert_eq!(out[4], reply(500, None, None, None));
}

#[test]
fn sm_update_simple_kinds() {
    let (_, out) = run(SmContextUpdateAction::Acknowledge, &[]);
    assert_eq!(out[0], reply(200, None, None, None));
    let (_, out) = run(SmContextUpdateAction::ConfirmActivation, &[]);
    assert_eq!(out[0], reply(200, None, Some("ACTIVATED"), None));
    let (_, out) = run(SmContextUpdateAction::Unsupported, &[]);
    assert_eq!(out[0], reply(400, Some("N2_SM_ERROR"), None, None));
}
