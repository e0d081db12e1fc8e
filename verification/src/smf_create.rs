//! The decisions of an SM Context Create (TS 29.502 5.2.2.2) once the
//! request is checked and the PDU session type selected: the steps the SMF
//! takes in turn (UE address, slice admission, SM policy, N4 session, N2
//! transfer), and, when one fails, the answer it gives and what it undoes.
//! The caller performs each action and hands back what came of it.

use vstd::prelude::*;

verus! {

/// The 5GSM cause of a PDU Session Establishment Reject (TS 24.501 9.11.4.2).
#[derive(Debug, Clone, Copy, PartialEq, Eq)]
pub enum GsmCause {
    InsufficientResources,
    InsufficientResourcesForSpecificSlice,
    UserAuthenticationOrAuthorizationFailed,
    NetworkFailure,
}

/// What the slice admission (NSACF) answered.
#[derive(Debug, Clone, Copy, PartialEq, Eq)]
pub enum NsacResult {
    /// No NSACF is configured or found: admission is skipped.
    NotConfigured,
    Admitted,
    Rejected,
    /// The NSACF could not be reached: the session goes on (fail-open).
    Unavailable,
}

/// What the SM policy creation (PCF) gave.
#[derive(Debug, Clone, Copy, PartialEq, Eq)]
pub enum PolicyResult {
    /// No PCF is configured: the configured default policy applies.
    NoPcf,
    Created,
    Rejected,
    Unreachable,
}

/// Where an SM Context Create stands.
#[derive(Debug, Clone, Copy, PartialEq, Eq)]
pub enum SmCreateState {
    Start,
    WaitIp,
    WaitNsac,
    WaitPolicy { nsac_admitted: bool },
    WaitPfcp { nsac_admitted: bool, policy_created: bool },
    WaitN2 { nsac_admitted: bool, policy_created: bool },
    Done,
}

/// What came of the last action.
#[derive(Debug, Clone, Copy, PartialEq, Eq)]
pub enum SmCreateEvent {
    Begin,
    /// A UE address was allocated (`false`: the pool is exhausted).
    IpAllocated(bool),
    Nsac(NsacResult),
    Policy(PolicyResult),
    /// The N4 session was established (`false`: it was not).
    Pfcp(bool),
    /// The N2 setup transfer was encoded (`false`: it could not be).
    N2Encoded(bool),
}

/// A refusal: the HTTP status, the ProblemDetails cause, the 5GSM cause of
/// the N1 reject, and what is undone: the UE address released, the slice
/// admission given back, the SM policy association deleted.
#[derive(Debug, Clone, Copy, PartialEq, Eq)]
pub struct SmCreateReject {
    pub status: u16,
    pub cause: &'static str,
    pub gsm_cause: GsmCause,
    pub release_ip: bool,
    pub rollback_nsac: bool,
    pub delete_policy: bool,
}

/// What the SMF does next.
#[derive(Debug, Clone, Copy, PartialEq, Eq)]
pub enum SmCreateAction {
    AllocateIp,
    AskNsac,
    AskPolicy,
    EstablishPfcp,
    EncodeN2,
    Reject(SmCreateReject),
    /// Answer 201 Created with the N1 accept and the N2 transfer.
    Accept,
    /// The event does not belong to this state: nothing happens.
    Ignore,
}

/// A refusal with its undo flags.
pub open spec fn reject(
    status: u16,
    cause: &'static str,
    gsm_cause: GsmCause,
    release_ip: bool,
    rollback_nsac: bool,
    delete_policy: bool,
) -> SmCreateAction {
    SmCreateAction::Reject(SmCreateReject { status, cause, gsm_cause, release_ip, rollback_nsac, delete_policy })
}

/// One step of an SM Context Create:
/// - a UE address first; an exhausted pool is 500 INSUFFICIENT_RESOURCES;
/// - then slice admission; a rejection is 403 NSAC_PDU_SESSION_REJECTED
///   (cause: insufficient resources for the slice), the address released;
///   no NSACF or an unreachable one lets the session go on;
/// - then the SM policy; a PCF rejection is 403 POLICY_REJECTED (cause:
///   user authentication or authorization failed), an unreachable PCF 504
///   PCF_NOT_RESPONDING (cause: network failure), each releasing the address
///   and giving back an admitted slice; without a PCF the default applies;
/// - then the N4 session; a failure is 504 UPF_NOT_RESPONDING (cause:
///   insufficient resources), releasing the address, giving back an
///   admitted slice and deleting a created policy association;
/// - then the N2 transfer; a failure is 500 SYSTEM_FAILURE (cause: network
///   failure), releasing the address and giving back an admitted slice;
/// - then 201 Created.
/// Any other event leaves the state as it is.
pub open spec fn sm_create_next(st: SmCreateState, ev: SmCreateEvent) -> (SmCreateState, SmCreateAction) {
    match (st, ev) {
        (SmCreateState::Start, SmCreateEvent::Begin) => (SmCreateState::WaitIp, SmCreateAction::AllocateIp),
        (SmCreateState::WaitIp, SmCreateEvent::IpAllocated(ok)) => if ok {
            (SmCreateState::WaitNsac, SmCreateAction::AskNsac)
        } else {
            (
                SmCreateState::Done,
                reject(500, "INSUFFICIENT_RESOURCES", GsmCause::InsufficientResources, false, false, false),
            )
        },
        (SmCreateState::WaitNsac, SmCreateEvent::Nsac(n)) => match n {
            NsacResult::Rejected => (
                SmCreateState::Done,
                reject(
                    403,
                    "NSAC_PDU_SESSION_REJECTED",
                    GsmCause::InsufficientResourcesForSpecificSlice,
                    true,
                    false,
                    false,
                ),
            ),
            NsacResult::Admitted => (SmCreateState::WaitPolicy { nsac_admitted: true }, SmCreateAction::AskPolicy),
            _ => (SmCreateState::WaitPolicy { nsac_admitted: false }, SmCreateAction::AskPolicy),
        },
        (SmCreateState::WaitPolicy { nsac_admitted }, SmCreateEvent::Policy(p)) => match p {
            PolicyResult::Rejected => (
                SmCreateState::Done,
                reject(
                    403,
                    "POLICY_REJECTED",
                    GsmCause::UserAuthenticationOrAuthorizationFailed,
                    true,
                    nsac_admitted,
                    false,
                ),
            ),
            PolicyResult::Unreachable => (
                SmCreateState::Done,
                reject(504, "PCF_NOT_RESPONDING", GsmCause::NetworkFailure, true, nsac_admitted, false),
            ),
            PolicyResult::Created => (
                SmCreateState::WaitPfcp { nsac_admitted, policy_created: true },
                SmCreateAction::EstablishPfcp,
            ),
            PolicyResult::NoPcf => (
                SmCreateState::WaitPfcp { nsac_admitted, policy_created: false },
                SmCreateAction::EstablishPfcp,
            ),
        },
        (SmCreateState::WaitPfcp { nsac_admitted, policy_created }, SmCreateEvent::Pfcp(ok)) => if ok {
            (SmCreateState::WaitN2 { nsac_admitted, policy_created }, SmCreateAction::EncodeN2)
        } else {
            (
                SmCreateState::Done,
                reject(
                    504,
                    "UPF_NOT_RESPONDING",
                    GsmCause::InsufficientResources,
                    true,
                    nsac_admitted,
                    policy_created,
                ),
            )
        },
        (SmCreateState::WaitN2 { nsac_admitted, .. }, SmCreateEvent::N2Encoded(ok)) => if ok {
            (SmCreateState::Done, SmCreateAction::Accept)
        } else {
            (
                SmCreateState::Done,
                reject(500, "SYSTEM_FAILURE", GsmCause::NetworkFailure, true, nsac_admitted, false),
            )
        },
        _ => (st, SmCreateAction::Ignore),
    }
}

fn rejection(
    status: u16,
    cause: &'static str,
    gsm_cause: GsmCause,
    release_ip: bool,
    rollback_nsac: bool,
    delete_policy: bool,
) -> (a: SmCreateAction)
    ensures
        a == reject(status, cause, gsm_cause, release_ip, rollback_nsac, delete_policy),
{
    SmCreateAction::Reject(SmCreateReject { status, cause, gsm_cause, release_ip, rollback_nsac, delete_policy })
}

/// Takes one step of an SM Context Create (see `sm_create_next`).
pub fn sm_create_step(st: SmCreateState, ev: SmCreateEvent) -> (r: (SmCreateState, SmCreateAction))
    ensures
        r == sm_create_next(st, ev),
{
    match (st, ev) {
        (SmCreateState::Start, SmCreateEvent::Begin) => (SmCreateState::WaitIp, SmCreateAction::AllocateIp),
        (SmCreateState::WaitIp, SmCreateEvent::IpAllocated(ok)) => if ok {
            (SmCreateState::WaitNsac, SmCreateAction::AskNsac)
        } else {
            (
                SmCreateState::Done,
                rejection(500, "INSUFFICIENT_RESOURCES", GsmCause::InsufficientResources, false, false, false),
            )
        },
        (SmCreateState::WaitNsac, SmCreateEvent::Nsac(n)) => match n {
            NsacResult::Rejected => (
                SmCreateState::Done,
                rejection(
                    403,
                    "NSAC_PDU_SESSION_REJECTED",
                    GsmCause::InsufficientResourcesForSpecificSlice,
                    true,
                    false,
                    false,
                ),
            ),
            NsacResult::Admitted => (SmCreateState::WaitPolicy { nsac_admitted: true }, SmCreateAction::AskPolicy),
            _ => (SmCreateState::WaitPolicy { nsac_admitted: false }, SmCreateAction::AskPolicy),
        },
        (SmCreateState::WaitPolicy { nsac_admitted }, SmCreateEvent::Policy(p)) => match p {
            PolicyResult::Rejected => (
                SmCreateState::Done,
                rejection(
                    403,
                    "POLICY_REJECTED",
                    GsmCause::UserAuthenticationOrAuthorizationFailed,
                    true,
                    nsac_admitted,
                    false,
                ),
            ),
            PolicyResult::Unreachable => (
                SmCreateState::Done,
                rejection(504, "PCF_NOT_RESPONDING", GsmCause::NetworkFailure, true, nsac_admitted, false),
            ),
            PolicyResult::Created => (
                SmCreateState::WaitPfcp { nsac_admitted, policy_created: true },
                SmCreateAction::EstablishPfcp,
            ),
            PolicyResult::NoPcf => (
                SmCreateState::WaitPfcp { nsac_admitted, policy_created: false },
                SmCreateAction::EstablishPfcp,
            ),
        },
        (SmCreateState::WaitPfcp { nsac_admitted, policy_created }, SmCreateEvent::Pfcp(ok)) => if ok {
            (SmCreateState::WaitN2 { nsac_admitted, policy_created }, SmCreateAction::EncodeN2)
        } else {
            (
                SmCreateState::Done,
                rejection(
                    504,
                    "UPF_NOT_RESPONDING",
                    GsmCause::InsufficientResources,
                    true,
                    nsac_admitted,
                    policy_created,
                ),
            )
        },
        (SmCreateState::WaitN2 { nsac_admitted, .. }, SmCreateEvent::N2Encoded(ok)) => if ok {
            (SmCreateState::Done, SmCreateAction::Accept)
        } else {
            (
                SmCreateState::Done,
                rejection(500, "SYSTEM_FAILURE", GsmCause::NetworkFailure, true, nsac_admitted, false),
            )
        },
        _ => (st, SmCreateAction::Ignore),
    }
}

/// Whether a state is past the UE address allocation, holding an address.
pub open spec fn holds_ip(st: SmCreateState) -> bool {
    match st {
        SmCreateState::WaitNsac | SmCreateState::WaitPolicy { .. } | SmCreateState::WaitPfcp { .. }
        | SmCreateState::WaitN2 { .. } => true,
        _ => false,
    }
}

/// Whether a state holds a slice admission to give back.
pub open spec fn holds_nsac(st: SmCreateState) -> bool {
    match st {
        SmCreateState::WaitPolicy { nsac_admitted } => nsac_admitted,
        SmCreateState::WaitPfcp { nsac_admitted, .. } => nsac_admitted,
        SmCreateState::WaitN2 { nsac_admitted, .. } => nsac_admitted,
        _ => false,
    }
}

/// A refused SM Context Create leaves nothing behind: a refusal releases
/// the UE address exactly when one was allocated and gives back the slice
/// admission exactly when one was granted; every refusal and the
/// acceptance end the procedure; an event that does not belong to the
/// state changes nothing.
pub proof fn lemma_create_refusal_undoes(st: SmCreateState, ev: SmCreateEvent)
    ensures
        ({
            let (next, a) = sm_create_next(st, ev);
            &&& (a matches SmCreateAction::Reject(r) ==> r.release_ip == holds_ip(st) && r.rollback_nsac
                == holds_nsac(st) && next == SmCreateState::Done)
            &&& (a is Accept ==> next == SmCreateState::Done && st is WaitN2)
            &&& (a is Ignore ==> next == st)
        }),
{
}

} // verus!
