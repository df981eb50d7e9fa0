use vstd::prelude::*;

verus! {

/// Energy saving mode of a mobile station (3 bits): stay alive, or one of the
/// seven energy economy groups.
#[derive(Debug, Clone, Copy, PartialEq, Eq, Structural)]
pub enum EnergySavingMode {
    StayAlive,
    Eg1,
    Eg2,
    Eg3,
    Eg4,
    Eg5,
    Eg6,
    Eg7,
}

impl EnergySavingMode {
    /// The field value that stands for this mode.
    pub open spec fn spec_raw(self) -> nat {
        match self {
            EnergySavingMode::StayAlive => 0,
            EnergySavingMode::Eg1 => 1,
            EnergySavingMode::Eg2 => 2,
            EnergySavingMode::Eg3 => 3,
            EnergySavingMode::Eg4 => 4,
            EnergySavingMode::Eg5 => 5,
            EnergySavingMode::Eg6 => 6,
            EnergySavingMode::Eg7 => 7,
        }
    }

    /// The mode that a field value stands for, if any.
    pub open spec fn spec_from_raw(v: nat) -> Option<EnergySavingMode> {
        if v == 0 {
            Some(EnergySavingMode::StayAlive)
        } else if v == 1 {
            Some(EnergySavingMode::Eg1)
        } else if v == 2 {
            Some(EnergySavingMode::Eg2)
        } else if v == 3 {
            Some(EnergySavingMode::Eg3)
        } else if v == 4 {
            Some(EnergySavingMode::Eg4)
        } else if v == 5 {
            Some(EnergySavingMode::Eg5)
        } else if v == 6 {
            Some(EnergySavingMode::Eg6)
        } else if v == 7 {
            Some(EnergySavingMode::Eg7)
        } else {
            None
        }
    }

    /// The field value of this mode.
    pub fn into_raw(self) -> (r: u64)
        ensures
            r == self.spec_raw(),
    {
        match self {
            EnergySavingMode::StayAlive => 0,
            EnergySavingMode::Eg1 => 1,
            EnergySavingMode::Eg2 => 2,
            EnergySavingMode::Eg3 => 3,
            EnergySavingMode::Eg4 => 4,
            EnergySavingMode::Eg5 => 5,
            EnergySavingMode::Eg6 => 6,
            EnergySavingMode::Eg7 => 7,
        }
    }

    /// The mode of a field value; `None` for a value above 7.
    pub fn try_from_raw(v: u64) -> (r: Option<EnergySavingMode>)
        ensures
            r == Self::spec_from_raw(v as nat),
    {
        match v {
            0 => Some(EnergySavingMode::StayAlive),
            1 => Some(EnergySavingMode::Eg1),
            2 => Some(EnergySavingMode::Eg2),
            3 => Some(EnergySavingMode::Eg3),
            4 => Some(EnergySavingMode::Eg4),
            5 => Some(EnergySavingMode::Eg5),
            6 => Some(EnergySavingMode::Eg6),
            7 => Some(EnergySavingMode::Eg7),
            _ => None,
        }
    }
}

/// Each mode is read back from its own field value, and each value read as a mode is
/// that mode's value.
pub proof fn lemma_energy_saving_mode_raw(m: EnergySavingMode, v: nat)
    ensures
        EnergySavingMode::spec_from_raw(m.spec_raw()) == Some(m),
        m.spec_raw() < 8,
        v < 8 <==> EnergySavingMode::spec_from_raw(v) is Some,
        EnergySavingMode::spec_from_raw(v) matches Some(m2) ==> m2.spec_raw() == v,
{
}

/// Sub-type of a D-MM STATUS PDU (6 bits).
#[derive(Debug, Clone, Copy, PartialEq, Eq, Structural)]
pub enum StatusDownlink {
    ChangeOfEnergySavingModeRequest,
    ChangeOfEnergySavingModeResponse,
    DualWatchModeResponse,
    TerminatingDualWatchModeResponse,
    ChangeOfDualWatchModeRequest,
}

impl StatusDownlink {
    /// The field value that stands for this sub-type.
    pub open spec fn spec_raw(self) -> nat {
        match self {
            StatusDownlink::ChangeOfEnergySavingModeRequest => 1,
            StatusDownlink::ChangeOfEnergySavingModeResponse => 2,
            StatusDownlink::DualWatchModeResponse => 3,
            StatusDownlink::TerminatingDualWatchModeResponse => 4,
            StatusDownlink::ChangeOfDualWatchModeRequest => 5,
        }
    }

    /// The sub-type that a field value stands for, if any.
    pub open spec fn spec_from_raw(v: nat) -> Option<StatusDownlink> {
        if v == 1 {
            Some(StatusDownlink::ChangeOfEnergySavingModeRequest)
        } else if v == 2 {
            Some(StatusDownlink::ChangeOfEnergySavingModeResponse)
        } else if v == 3 {
            Some(StatusDownlink::DualWatchModeResponse)
        } else if v == 4 {
            Some(StatusDownlink::TerminatingDualWatchModeResponse)
        } else if v == 5 {
            Some(StatusDownlink::ChangeOfDualWatchModeRequest)
        } else {
            None
        }
    }

    /// Whether this sub-type carries energy saving information.
    pub open spec fn spec_carries_energy_saving(self) -> bool {
        self is ChangeOfEnergySavingModeRequest || self is ChangeOfEnergySavingModeResponse
    }

    /// The field value of this sub-type.
    pub fn into_raw(self) -> (r: u64)
        ensures
            r == self.spec_raw(),
    {
        match self {
            StatusDownlink::ChangeOfEnergySavingModeRequest => 1,
            StatusDownlink::ChangeOfEnergySavingModeResponse => 2,
            StatusDownlink::DualWatchModeResponse => 3,
            StatusDownlink::TerminatingDualWatchModeResponse => 4,
            StatusDownlink::ChangeOfDualWatchModeRequest => 5,
        }
    }

    /// The sub-type of a field value; `None` for a value that stands for none.
    pub fn try_from_raw(v: u64) -> (r: Option<StatusDownlink>)
        ensures
            r == Self::spec_from_raw(v as nat),
    {
        match v {
            1 => Some(StatusDownlink::ChangeOfEnergySavingModeRequest),
            2 => Some(StatusDownlink::ChangeOfEnergySavingModeResponse),
            3 => Some(StatusDownlink::DualWatchModeResponse),
            4 => Some(StatusDownlink::TerminatingDualWatchModeResponse),
            5 => Some(StatusDownlink::ChangeOfDualWatchModeRequest),
            _ => None,
        }
    }
}

/// Each sub-type is read back from its own field value, and each value read as a
/// sub-type is that sub-type's value.
pub proof fn lemma_status_downlink_raw(s: StatusDownlink, v: nat)
    ensures
        StatusDownlink::spec_from_raw(s.spec_raw()) == Some(s),
        s.spec_raw() < 64,
        StatusDownlink::spec_from_raw(v) matches Some(s2) ==> s2.spec_raw() == v,
{
}

/// PDU type value of D-MM STATUS among the downlink mobility management PDUs (4 bits).
pub const D_MM_STATUS_PDU_TYPE: u64 = 12;

/// The field values of the energy saving modes: stay alive is 0, and energy economy
/// group k is k.
pub proof fn lemma_energy_saving_mode_values()
    ensures
        EnergySavingMode::StayAlive.spec_raw() == 0,
        EnergySavingMode::Eg1.spec_raw() == 1,
        EnergySavingMode::Eg2.spec_raw() == 2,
        EnergySavingMode::Eg3.spec_raw() == 3,
        EnergySavingMode::Eg4.spec_raw() == 4,
        EnergySavingMode::Eg5.spec_raw() == 5,
        EnergySavingMode::Eg6.spec_raw() == 6,
        EnergySavingMode::Eg7.spec_raw() == 7,
        forall|v: nat| #[trigger] EnergySavingMode::spec_from_raw(v) is Some <==> v < 8,
{
}

/// The field values of the D-MM STATUS sub-types: the energy saving mode request and
/// response are 1 and 2, the dual watch mode response, terminating dual watch mode
/// response and dual watch mode change request are 3, 4 and 5; no other value stands
/// for a sub-type.
pub proof fn lemma_status_downlink_values()
    ensures
        StatusDownlink::ChangeOfEnergySavingModeRequest.spec_raw() == 1,
        StatusDownlink::ChangeOfEnergySavingModeResponse.spec_raw() == 2,
        StatusDownlink::DualWatchModeResponse.spec_raw() == 3,
        StatusDownlink::TerminatingDualWatchModeResponse.spec_raw() == 4,
        StatusDownlink::ChangeOfDualWatchModeRequest.spec_raw() == 5,
        forall|v: nat| #[trigger] StatusDownlink::spec_from_raw(v) is Some <==> 1 <= v <= 5,
{
}

} // verus!
