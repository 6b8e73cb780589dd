//! Antenna path switching.
//!
//! The antenna switching network is driven by four control lines: an antenna
//! enable line and three switch-element lines (`csd`, `cps`, `ctx`). The
//! current level of each line is modelled as a boolean (`true` = high). The
//! path state is fully determined by the most recent mode request: each mode
//! setter drives every line, so no residue of an earlier mode survives.

use vstd::prelude::*;

verus! {

/// The requested antenna path mode.
#[derive(Clone, Copy, Debug, PartialEq, Eq, Structural)]
pub enum AntennaMode {
    Tx,
    Rx,
    Sleep,
}

/// The four antenna control lines; `true` means the line is driven high.
#[derive(Clone, Copy, Debug, PartialEq, Eq, Structural)]
pub struct AntennaSwitches {
    pub ant_en: bool,
    pub se_csd: bool,
    pub se_cps: bool,
    pub se_ctx: bool,
}

impl AntennaSwitches {
    /// All four control lines are low: the sleep pattern.
    pub open spec fn is_sleep_pattern(self) -> bool {
        !self.ant_en && !self.se_csd && !self.se_cps && !self.se_ctx
    }

    /// Transmit: antenna path off, all three switch-element lines high.
    pub open spec fn is_tx_pattern(self) -> bool {
        !self.ant_en && self.se_csd && self.se_cps && self.se_ctx
    }

    /// Receive: antenna path on, `csd` and `cps` high, `ctx` low.
    pub open spec fn is_rx_pattern(self) -> bool {
        self.ant_en && self.se_csd && self.se_cps && !self.se_ctx
    }

    /// The pattern every line settles to after a request for `mode`.
    pub open spec fn pattern_of(mode: AntennaMode) -> AntennaSwitches {
        match mode {
            AntennaMode::Tx => AntennaSwitches {
                ant_en: false,
                se_csd: true,
                se_cps: true,
                se_ctx: true,
            },
            AntennaMode::Rx => AntennaSwitches {
                ant_en: true,
                se_csd: true,
                se_cps: true,
                se_ctx: false,
            },
            AntennaMode::Sleep => AntennaSwitches {
                ant_en: false,
                se_csd: false,
                se_cps: false,
                se_ctx: false,
            },
        }
    }

    /// Fresh switch handles with the given initial line levels.
    pub fn new(ant_en: bool, se_csd: bool, se_cps: bool, se_ctx: bool) -> (r: AntennaSwitches)
        ensures
            r == (AntennaSwitches { ant_en, se_csd, se_cps, se_ctx }),
    {
        AntennaSwitches { ant_en, se_csd, se_cps, se_ctx }
    }

    /// Drive every control line low, whatever it held before.
    pub fn set_sleep(&mut self)
        ensures
            final(self).is_sleep_pattern(),
            *final(self) == Self::pattern_of(AntennaMode::Sleep),
    {
        self.ant_en = false;
        self.se_cps = false;
        self.se_csd = false;
        self.se_ctx = false;
    }

    /// Drive the transmit pattern, whatever the lines held before.
    pub fn set_tx(&mut self)
        ensures
            final(self).is_tx_pattern(),
            *final(self) == Self::pattern_of(AntennaMode::Tx),
    {
        self.ant_en = false;
        self.se_cps = true;
        self.se_csd = true;
        self.se_ctx = true;
    }

    /// Drive the receive pattern, whatever the lines held before.
    pub fn set_rx(&mut self)
        ensures
            final(self).is_rx_pattern(),
            *final(self) == Self::pattern_of(AntennaMode::Rx),
    {
        self.ant_en = true;
        self.se_cps = true;
        self.se_csd = true;
        self.se_ctx = false;
    }
}

/// The reduced one-wire antenna switch of boards with a single enable line:
/// transmit and receive collapse to the line driven high, sleep to low.
#[derive(Clone, Copy, Debug, PartialEq, Eq, Structural)]
pub struct OneWireAntenna {
    pub enable: bool,
}

impl OneWireAntenna {
    /// The level the single enable line settles to after a request for
    /// `mode`.
    pub open spec fn level_of(mode: AntennaMode) -> bool {
        mode != AntennaMode::Sleep
    }

    /// A fresh switch with the given initial line level.
    pub fn new(enable: bool) -> (r: OneWireAntenna)
        ensures
            r == (OneWireAntenna { enable }),
    {
        OneWireAntenna { enable }
    }

    /// Drive the enable line for `mode`, whatever it held before.
    pub fn set_mode(&mut self, mode: AntennaMode)
        ensures
            final(self).enable == Self::level_of(mode),
    {
        self.enable = match mode {
            AntennaMode::Tx => true,
            AntennaMode::Rx => true,
            AntennaMode::Sleep => false,
        };
    }
}

/// The lines after a mode request, whatever they held before: the request
/// alone determines them.
pub open spec fn apply_mode(lines: AntennaSwitches, mode: AntennaMode) -> AntennaSwitches {
    AntennaSwitches::pattern_of(mode)
}

/// A sleep request drives every control line low, regardless of the prior
/// state of the lines.
pub proof fn lemma_sleep_all_lines_low(lines: AntennaSwitches)
    ensures
        apply_mode(lines, AntennaMode::Sleep).is_sleep_pattern(),
{
}

/// A transmit request followed by a receive request yields exactly the
/// receive pattern, independent of the transmit pattern set in between and
/// of whatever the lines held before: no residual state survives a mode
/// request.
pub proof fn lemma_no_residual_state(lines: AntennaSwitches)
    ensures
        apply_mode(apply_mode(lines, AntennaMode::Tx), AntennaMode::Rx)
            == AntennaSwitches::pattern_of(AntennaMode::Rx),
        apply_mode(apply_mode(lines, AntennaMode::Tx), AntennaMode::Rx).is_rx_pattern(),
{
}

} // verus!
