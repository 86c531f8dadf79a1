use vstd::prelude::*;

verus! {

/// How the read cursor relates to the write cursor.
#[derive(Debug, Clone, Copy, PartialEq, Eq, Structural)]
pub enum PlaybackState {
    /// Read follows write at the base delay, corrected every cycle.
    Live,
    /// Read is frozen while write continues; the buffer fills up.
    Paused,
    /// Read advances at the hardware rate, behind write by a user-chosen amount.
    TimeShifted,
}

impl PlaybackState {
    /// The state that `from_u8` decodes from `v`.
    pub open spec fn from_u8_spec(v: u8) -> PlaybackState {
        if v == 1 {
            PlaybackState::Paused
        } else if v == 2 {
            PlaybackState::TimeShifted
        } else {
            PlaybackState::Live
        }
    }

    /// Decodes a stored ordinal (0 live, 1 paused, 2 time-shifted); unknown
    /// ordinals read as `Live`.
    pub fn from_u8(v: u8) -> (r: Self)
        ensures
            r == Self::from_u8_spec(v),
    {
        match v {
            0 => PlaybackState::Live,
            1 => PlaybackState::Paused,
            2 => PlaybackState::TimeShifted,
            _ => PlaybackState::Live,
        }
    }

    /// The upper-case name shown for the state.
    pub open spec fn label_spec(self) -> Seq<char> {
        match self {
            PlaybackState::Live => "LIVE"@,
            PlaybackState::Paused => "PAUSED"@,
            PlaybackState::TimeShifted => "TIME-SHIFTED"@,
        }
    }

    /// The two-character transport symbol shown for the state.
    pub open spec fn symbol_spec(self) -> Seq<char> {
        match self {
            PlaybackState::Live => ">>"@,
            PlaybackState::Paused => "||"@,
            PlaybackState::TimeShifted => "> "@,
        }
    }

    /// The upper-case name shown for the state.
    pub fn label(self) -> (r: &'static str)
        ensures
            r@ == self.label_spec(),
    {
        match self {
            PlaybackState::Live => "LIVE",
            PlaybackState::Paused => "PAUSED",
            PlaybackState::TimeShifted => "TIME-SHIFTED",
        }
    }

    /// The two-character transport symbol shown for the state.
    pub fn symbol(self) -> (r: &'static str)
        ensures
            r@ == self.symbol_spec(),
    {
        match self {
            PlaybackState::Live => ">>",
            PlaybackState::Paused => "||",
            PlaybackState::TimeShifted => "> ",
        }
    }
}

} // verus!
