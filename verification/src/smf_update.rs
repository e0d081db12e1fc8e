//! The decisions of an SM Context Update (TS 29.502 5.2.2.3) once its kind
//! is known (`classify_sm_context_update`): the steps the SMF takes in turn
//! (reading the N2 or N1 container, finding the N4 session, changing it,
//! asking the PCF, encoding the N2 transfer) and the answer it gives. The
//! caller performs each action and hands back what came of it.

use vstd::prelude::*;
use crate::smf_sbi::SmContextUpdateAction;
use crate::smf_create::GsmCause;

verus! {

/// The answer to an SM Context Update: the HTTP status, the ProblemDetails
/// cause of a refusal, the `upCnxState` and `n2SmInfoType` of the JSON
/// body, the 5GSM cause of an N1 reject carried with a refusal, and whether
/// the N1 modification command and N2 modify transfer go with it.
#[derive(Debug, Clone, Copy, PartialEq, Eq)]
pub struct SmUpdateReply {
    pub status: u16,
    pub problem: Option<&'static str>,
    pub up_cnx_state: Option<&'static str>,
    pub n2_sm_info_type: Option<&'static str>,
    pub gsm_reject: Option<GsmCause>,
    pub with_n1_n2: bool,
}

/// What the PCF made of a re-authorization (trigger RES_MO_RE).
#[derive(Debug, Clone, Copy, PartialEq, Eq)]
pub enum ReauthResult {
    /// A new decision, or the current one kept (no association, no PCF, or
    /// an update that failed otherwise than by a rejection).
    Authorized,
    Rejected,
}

/// Where an SM Context Update stands.
#[derive(Debug, Clone, Copy, PartialEq, Eq)]
pub enum SmUpdateState {
    Start(SmContextUpdateAction),
    /// Activation: waiting for the gNB tunnel out of the N2 transfer.
    WaitEndpoint { path_switch: bool },
    /// Activation: waiting for the N4 session of the context.
    WaitSession { path_switch: bool },
    /// Activation: waiting for the downlink FAR change.
    WaitActivate { path_switch: bool },
    /// Downlink back to buffering (`strict`: a failure is refused).
    WaitSessionForDeactivation { strict: bool },
    WaitDeactivate { strict: bool },
    /// UE modification: waiting for the N1 container, the PCF, the N4
    /// session, its QER change, the N2 modify transfer.
    WaitN1,
    WaitReauth,
    WaitSessionForQos,
    WaitQos,
    WaitModTransfer,
    Done,
}

/// What came of the last action.
#[derive(Debug, Clone, Copy, PartialEq, Eq)]
pub enum SmUpdateEvent {
    Begin,
    /// The gNB tunnel was read out of the N2 transfer (`false`: the
    /// transfer is missing or could not be decoded).
    Endpoint(bool),
    /// The context has an N4 session (`false`: it has none).
    Session(bool),
    /// The N4 session change was accepted (`false`: it failed).
    Pfcp(bool),
    /// The N1 container is a 5GSM message (`false`: missing or not one).
    N1(bool),
    Reauth(ReauthResult),
    /// The N2 modify transfer was encoded (`false`: it could not be).
    N2Encoded(bool),
}

/// What the SMF does next.
#[derive(Debug, Clone, Copy, PartialEq, Eq)]
pub enum SmUpdateAction {
    ReadEndpoint,
    FindSession,
    ActivateDownlink,
    DeactivateDownlink,
    ReadN1,
    Reauthorize,
    UpdateQos,
    EncodeModTransfer,
    Reply(SmUpdateReply),
    /// The event does not belong to this state: nothing happens.
    Ignore,
}

/// An answer.
pub open spec fn reply(
    status: u16,
    problem: Option<&'static str>,
    up: Option<&'static str>,
    n2: Option<&'static str>,
    gsm_reject: Option<GsmCause>,
    with_n1_n2: bool,
) -> SmUpdateAction {
    SmUpdateAction::Reply(
        SmUpdateReply { status, problem, up_cnx_state: up, n2_sm_info_type: n2, gsm_reject, with_n1_n2 },
    )
}

/// One step of an SM Context Update:
/// - activation (setup response or path switch): the gNB tunnel is read
///   (else 400 N2_SM_ERROR), the N4 session found (else 404), its downlink
///   FAR pointed at the tunnel (else 504); then 200 with upCnxState
///   ACTIVATED, and n2SmInfoType PATH_SWITCH_REQ_ACK for a path switch;
/// - access network failure: the downlink FAR goes back to buffering when
///   there is an N4 session, a failure only noted; 200 DEACTIVATED;
/// - the UE going idle: the same, but a failure is 504;
/// - UE modification: the N1 container must be a 5GSM message (else 400
///   N1_SM_ERROR); the PCF re-authorizes (a rejection is 403
///   POLICY_REJECTED with an N1 reject, cause: user authentication or
///   authorization failed); the session QER takes the authorized QoS when
///   there is an N4 session (a failure is 504); the N2 modify transfer is
///   encoded (else 500); then 200 with n2SmInfoType PDU_RES_MOD_REQ and the
///   N1 command and N2 transfer;
/// - an acknowledgement is 200; an activation confirmation 200 ACTIVATED;
///   another N2 information type 400 N2_SM_ERROR.
/// Any other event leaves the state as it is.
pub open spec fn sm_update_next(st: SmUpdateState, ev: SmUpdateEvent) -> (SmUpdateState, SmUpdateAction) {
    match (st, ev) {
        (SmUpdateState::Start(a), SmUpdateEvent::Begin) => match a {
            SmContextUpdateAction::ActivateDownlink { path_switch } => (
                SmUpdateState::WaitEndpoint { path_switch },
                SmUpdateAction::ReadEndpoint,
            ),
            SmContextUpdateAction::AnResourceFailure => (
                SmUpdateState::WaitSessionForDeactivation { strict: false },
                SmUpdateAction::FindSession,
            ),
            SmContextUpdateAction::DeactivateUpConnection => (
                SmUpdateState::WaitSessionForDeactivation { strict: true },
                SmUpdateAction::FindSession,
            ),
            SmContextUpdateAction::UeModification => (SmUpdateState::WaitN1, SmUpdateAction::ReadN1),
            SmContextUpdateAction::Acknowledge => (SmUpdateState::Done, reply(200, None, None, None, None, false)),
            SmContextUpdateAction::ConfirmActivation => (
                SmUpdateState::Done,
                reply(200, None, Some("ACTIVATED"), None, None, false),
            ),
            SmContextUpdateAction::Unsupported => (
                SmUpdateState::Done,
                reply(400, Some("N2_SM_ERROR"), None, None, None, false),
            ),
        },
        (SmUpdateState::WaitEndpoint { path_switch }, SmUpdateEvent::Endpoint(ok)) => if ok {
            (SmUpdateState::WaitSession { path_switch }, SmUpdateAction::FindSession)
        } else {
            (SmUpdateState::Done, reply(400, Some("N2_SM_ERROR"), None, None, None, false))
        },
        (SmUpdateState::WaitSession { path_switch }, SmUpdateEvent::Session(found)) => if found {
            (SmUpdateState::WaitActivate { path_switch }, SmUpdateAction::ActivateDownlink)
        } else {
            (SmUpdateState::Done, reply(404, None, None, None, None, false))
        },
        (SmUpdateState::WaitActivate { path_switch }, SmUpdateEvent::Pfcp(ok)) => if ok {
            (
                SmUpdateState::Done,
                reply(
                    200,
                    None,
                    Some("ACTIVATED"),
                    if path_switch {
                        Some("PATH_SWITCH_REQ_ACK")
                    } else {
                        None
                    },
                    None,
                    false,
                ),
            )
        } else {
            (SmUpdateState::Done, reply(504, None, None, None, None, false))
        },
        (SmUpdateState::WaitSessionForDeactivation { strict }, SmUpdateEvent::Session(found)) => if found {
            (SmUpdateState::WaitDeactivate { strict }, SmUpdateAction::DeactivateDownlink)
        } else {
            (SmUpdateState::Done, reply(200, None, Some("DEACTIVATED"), None, None, false))
        },
        (SmUpdateState::WaitDeactivate { strict }, SmUpdateEvent::Pfcp(ok)) => if ok || !strict {
            (SmUpdateState::Done, reply(200, None, Some("DEACTIVATED"), None, None, false))
        } else {
            (SmUpdateState::Done, reply(504, None, None, None, None, false))
        },
        (SmUpdateState::WaitN1, SmUpdateEvent::N1(ok)) => if ok {
            (SmUpdateState::WaitReauth, SmUpdateAction::Reauthorize)
        } else {
            (SmUpdateState::Done, reply(400, Some("N1_SM_ERROR"), None, None, None, false))
        },
        (SmUpdateState::WaitReauth, SmUpdateEvent::Reauth(r)) => match r {
            ReauthResult::Authorized => (SmUpdateState::WaitSessionForQos, SmUpdateAction::FindSession),
            ReauthResult::Rejected => (
                SmUpdateState::Done,
                reply(
                    403,
                    Some("POLICY_REJECTED"),
                    None,
                    None,
                    Some(GsmCause::UserAuthenticationOrAuthorizationFailed),
                    false,
                ),
            ),
        },
        (SmUpdateState::WaitSessionForQos, SmUpdateEvent::Session(found)) => if found {
            (SmUpdateState::WaitQos, SmUpdateAction::UpdateQos)
        } else {
            (SmUpdateState::WaitModTransfer, SmUpdateAction::EncodeModTransfer)
        },
        (SmUpdateState::WaitQos, SmUpdateEvent::Pfcp(ok)) => if ok {
            (SmUpdateState::WaitModTransfer, SmUpdateAction::EncodeModTransfer)
        } else {
            (SmUpdateState::Done, reply(504, None, None, None, None, false))
        },
        (SmUpdateState::WaitModTransfer, SmUpdateEvent::N2Encoded(ok)) => if ok {
            (SmUpdateState::Done, reply(200, None, None, Some("PDU_RES_MOD_REQ"), None, true))
        } else {
            (SmUpdateState::Done, reply(500, None, None, None, None, false))
        },
        _ => (st, SmUpdateAction::Ignore),
    }
}

fn answer(
    status: u16,
    problem: Option<&'static str>,
    up: Option<&'static str>,
    n2: Option<&'static str>,
    gsm_reject: Option<GsmCause>,
    with_n1_n2: bool,
) -> (a: SmUpdateAction)
    ensures
        a == reply(status, problem, up, n2, gsm_reject, with_n1_n2),
{
    SmUpdateAction::Reply(
        SmUpdateReply { status, problem, up_cnx_state: up, n2_sm_info_type: n2, gsm_reject, with_n1_n2 },
    )
}

/// Takes one step of an SM Context Update (see `sm_update_next`).
pub fn sm_update_step(st: SmUpdateState, ev: SmUpdateEvent) -> (r: (SmUpdateState, SmUpdateAction))
    ensures
        r == sm_update_next(st, ev),
{
    match (st, ev) {
        (SmUpdateState::Start(a), SmUpdateEvent::Begin) => match a {
            SmContextUpdateAction::ActivateDownlink { path_switch } => (
                SmUpdateState::WaitEndpoint { path_switch },
                SmUpdateAction::ReadEndpoint,
            ),
            SmContextUpdateAction::AnResourceFailure => (
                SmUpdateState::WaitSessionForDeactivation { strict: false },
                SmUpdateAction::FindSession,
            ),
            SmContextUpdateAction::DeactivateUpConnection => (
                SmUpdateState::WaitSessionForDeactivation { strict: true },
                SmUpdateAction::FindSession,
            ),
            SmContextUpdateAction::UeModification => (SmUpdateState::WaitN1, SmUpdateAction::ReadN1),
            SmContextUpdateAction::Acknowledge => (SmUpdateState::Done, answer(200, None, None, None, None, false)),
            SmContextUpdateAction::ConfirmActivation => (
                SmUpdateState::Done,
                answer(200, None, Some("ACTIVATED"), None, None, false),
            ),
            SmContextUpdateAction::Unsupported => (
                SmUpdateState::Done,
                answer(400, Some("N2_SM_ERROR"), None, None, None, false),
            ),
        },
        (SmUpdateState::WaitEndpoint { path_switch }, SmUpdateEvent::Endpoint(ok)) => if ok {
            (SmUpdateState::WaitSession { path_switch }, SmUpdateAction::FindSession)
        } else {
            (SmUpdateState::Done, answer(400, Some("N2_SM_ERROR"), None, None, None, false))
        },
        (SmUpdateState::WaitSession { path_switch }, SmUpdateEvent::Session(found)) => if found {
            (SmUpdateState::WaitActivate { path_switch }, SmUpdateAction::ActivateDownlink)
        } else {
            (SmUpdateState::Done, answer(404, None, None, None, None, false))
        },
        (SmUpdateState::WaitActivate { path_switch }, SmUpdateEvent::Pfcp(ok)) => if ok {
            let n2 = if path_switch {
                Some("PATH_SWITCH_REQ_ACK")
            } else {
                None
            };
            (SmUpdateState::Done, answer(200, None, Some("ACTIVATED"), n2, None, false))
        } else {
            (SmUpdateState::Done, answer(504, None, None, None, None, false))
        },
        (SmUpdateState::WaitSessionForDeactivation { strict }, SmUpdateEvent::Session(found)) => if found {
            (SmUpdateState::WaitDeactivate { strict }, SmUpdateAction::DeactivateDownlink)
        } else {
            (SmUpdateState::Done, answer(200, None, Some("DEACTIVATED"), None, None, false))
        },
        (SmUpdateState::WaitDeactivate { strict }, SmUpdateEvent::Pfcp(ok)) => if ok || !strict {
            (SmUpdateState::Done, answer(200, None, Some("DEACTIVATED"), None, None, false))
        } else {
            (SmUpdateState::Done, answer(504, None, None, None, None, false))
        },
        (SmUpdateState::WaitN1, SmUpdateEvent::N1(ok)) => if ok {
            (SmUpdateState::WaitReauth, SmUpdateAction::Reauthorize)
        } else {
            (SmUpdateState::Done, answer(400, Some("N1_SM_ERROR"), None, None, None, false))
        },
        (SmUpdateState::WaitReauth, SmUpdateEvent::Reauth(r)) => match r {
            ReauthResult::Authorized => (SmUpdateState::WaitSessionForQos, SmUpdateAction::FindSession),
            ReauthResult::Rejected => (
                SmUpdateState::Done,
                answer(
                    403,
                    Some("POLICY_REJECTED"),
                    None,
                    None,
                    Some(GsmCause::UserAuthenticationOrAuthorizationFailed),
                    false,
                ),
            ),
        },
        (SmUpdateState::WaitSessionForQos, SmUpdateEvent::Session(found)) => if found {
            (SmUpdateState::WaitQos, SmUpdateAction::UpdateQos)
        } else {
            (SmUpdateState::WaitModTransfer, SmUpdateAction::EncodeModTransfer)
        },
        (SmUpdateState::WaitQos, SmUpdateEvent::Pfcp(ok)) => if ok {
            (SmUpdateState::WaitModTransfer, SmUpdateAction::EncodeModTransfer)
        } else {
            (SmUpdateState::Done, answer(504, None, None, None, None, false))
        },
        (SmUpdateState::WaitModTransfer, SmUpdateEvent::N2Encoded(ok)) => if ok {
            (SmUpdateState::Done, answer(200, None, None, Some("PDU_RES_MOD_REQ"), None, true))
        } else {
            (SmUpdateState::Done, answer(500, None, None, None, None, false))
        },
        _ => (st, SmUpdateAction::Ignore),
    }
}

/// Whether a state is one of the UE modification's.
pub open spec fn modifying(st: SmUpdateState) -> bool {
    st is WaitN1 || st is WaitReauth || st is WaitSessionForQos || st is WaitQos || st is WaitModTransfer
}

/// Every SM Context Update ends with one answer, and only the UE
/// modification's success carries the N1 command and N2 transfer; an
/// answer ends the procedure; the loss of the access network is never
/// refused; an event that does not belong to the state changes nothing.
pub proof fn lemma_update_answers(st: SmUpdateState, ev: SmUpdateEvent)
    ensures
        ({
            let (next, a) = sm_update_next(st, ev);
            &&& (a is Reply ==> next == SmUpdateState::Done)
            &&& (a is Reply && a->Reply_0.with_n1_n2 ==> modifying(st) && a->Reply_0.status == 200)
            &&& (st == SmUpdateState::WaitDeactivate { strict: false } && a is Reply ==> a->Reply_0.status == 200)
            &&& (a is Ignore ==> next == st)
        }),
{
}

} // verus!
