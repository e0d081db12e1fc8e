//! Values shared by the PFCP (N4) messages of the SMF and the UPF
//! (3GPP TS 29.244): message and IE types, flags, and the cause codes.

pub mod pfcp_type;
pub mod pfcp_ie;
pub mod modify_flags;
pub mod delete_trigger;
pub mod interface;
pub mod apply_action;
pub mod pfcpsmreq_flags;

use vstd::prelude::*;

verus! {

/// PFCP cause values (3GPP TS 29.244 8.2.1).
#[derive(Debug, Clone, Copy, PartialEq, Eq, Structural)]
pub enum PfcpCause {
    RequestAccepted,
    RequestRejected,
    SessionContextNotFound,
    MandatoryIeMissing,
    ConditionalIeMissing,
    InvalidLength,
    MandatoryIeIncorrect,
    InvalidForwardingPolicy,
    InvalidFTeidAllocationOption,
    NoEstablishedPfcpAssociation,
    RuleCreationModificationFailure,
    PfcpEntityInCongestion,
    NoResourcesAvailable,
    ServiceNotSupported,
    SystemFailure,
    AllDynamicAddressAreOccupied,
}

/// The octet that carries a cause on the wire.
pub open spec fn cause_code(c: PfcpCause) -> u8 {
    match c {
        PfcpCause::RequestAccepted => 1,
        PfcpCause::RequestRejected => 64,
        PfcpCause::SessionContextNotFound => 65,
        PfcpCause::MandatoryIeMissing => 66,
        PfcpCause::ConditionalIeMissing => 67,
        PfcpCause::InvalidLength => 68,
        PfcpCause::MandatoryIeIncorrect => 69,
        PfcpCause::InvalidForwardingPolicy => 70,
        PfcpCause::InvalidFTeidAllocationOption => 71,
        PfcpCause::NoEstablishedPfcpAssociation => 72,
        PfcpCause::RuleCreationModificationFailure => 73,
        PfcpCause::PfcpEntityInCongestion => 74,
        PfcpCause::NoResourcesAvailable => 75,
        PfcpCause::ServiceNotSupported => 76,
        PfcpCause::SystemFailure => 77,
        PfcpCause::AllDynamicAddressAreOccupied => 78,
    }
}

/// The cause that an octet names; an octet that names none is read as
/// `SystemFailure`.
pub open spec fn cause_of_code(v: u8) -> PfcpCause {
    if v == 1 {
        PfcpCause::RequestAccepted
    } else if 64 <= v <= 78 {
        if v == 64 {
            PfcpCause::RequestRejected
        } else if v == 65 {
            PfcpCause::SessionContextNotFound
        } else if v == 66 {
            PfcpCause::MandatoryIeMissing
        } else if v == 67 {
            PfcpCause::ConditionalIeMissing
        } else if v == 68 {
            PfcpCause::InvalidLength
        } else if v == 69 {
            PfcpCause::MandatoryIeIncorrect
        } else if v == 70 {
            PfcpCause::InvalidForwardingPolicy
        } else if v == 71 {
            PfcpCause::InvalidFTeidAllocationOption
        } else if v == 72 {
            PfcpCause::NoEstablishedPfcpAssociation
        } else if v == 73 {
            PfcpCause::RuleCreationModificationFailure
        } else if v == 74 {
            PfcpCause::PfcpEntityInCongestion
        } else if v == 75 {
            PfcpCause::NoResourcesAvailable
        } else if v == 76 {
            PfcpCause::ServiceNotSupported
        } else if v == 77 {
            PfcpCause::SystemFailure
        } else {
            PfcpCause::AllDynamicAddressAreOccupied
        }
    } else {
        PfcpCause::SystemFailure
    }
}

impl PfcpCause {
    /// The octet that carries this cause on the wire.
    pub fn as_u8(&self) -> (r: u8)
        ensures
            r == cause_code(*self),
    {
        match self {
            PfcpCause::RequestAccepted => 1,
            PfcpCause::RequestRejected => 64,
            PfcpCause::SessionContextNotFound => 65,
            PfcpCause::MandatoryIeMissing => 66,
            PfcpCause::ConditionalIeMissing => 67,
            PfcpCause::InvalidLength => 68,
            PfcpCause::MandatoryIeIncorrect => 69,
            PfcpCause::InvalidForwardingPolicy => 70,
            PfcpCause::InvalidFTeidAllocationOption => 71,
            PfcpCause::NoEstablishedPfcpAssociation => 72,
            PfcpCause::RuleCreationModificationFailure => 73,
            PfcpCause::PfcpEntityInCongestion => 74,
            PfcpCause::NoResourcesAvailable => 75,
            PfcpCause::ServiceNotSupported => 76,
            PfcpCause::SystemFailure => 77,
            PfcpCause::AllDynamicAddressAreOccupied => 78,
        }
    }
}

impl Default for PfcpCause {
    fn default() -> (r: Self)
        ensures
            r == PfcpCause::RequestAccepted,
    {
        PfcpCause::RequestAccepted
    }
}

impl From<u8> for PfcpCause {
    fn from(value: u8) -> (r: Self) {
        match value {
            1 => PfcpCause::RequestAccepted,
            64 => PfcpCause::RequestRejected,
            65 => PfcpCause::SessionContextNotFound,
            66 => PfcpCause::MandatoryIeMissing,
            67 => PfcpCause::ConditionalIeMissing,
            68 => PfcpCause::InvalidLength,
            69 => PfcpCause::MandatoryIeIncorrect,
            70 => PfcpCause::InvalidForwardingPolicy,
            71 => PfcpCause::InvalidFTeidAllocationOption,
            72 => PfcpCause::NoEstablishedPfcpAssociation,
            73 => PfcpCause::RuleCreationModificationFailure,
            74 => PfcpCause::PfcpEntityInCongestion,
            75 => PfcpCause::NoResourcesAvailable,
            76 => PfcpCause::ServiceNotSupported,
            77 => PfcpCause::SystemFailure,
            78 => PfcpCause::AllDynamicAddressAreOccupied,
            _ => PfcpCause::SystemFailure,
        }
    }
}

impl vstd::std_specs::convert::FromSpecImpl<u8> for PfcpCause {
    open spec fn obeys_from_spec() -> bool {
        true
    }

    open spec fn from_spec(v: u8) -> Self {
        cause_of_code(v)
    }
}

/// Reading back the octet of any cause gives that cause.
pub proof fn lemma_cause_code_roundtrip(c: PfcpCause)
    ensures
        cause_of_code(cause_code(c)) == c,
{
}

} // verus!
