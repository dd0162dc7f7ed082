//! The four fixed measurement channels of the node: two analog voltage
//! rails read through the analog-to-digital converter, and the two
//! gain/channel pairings of the load-cell amplifier.
//!
//! Each channel carries a scale factor (the analog rails sit behind a
//! voltage divider and are pre-scaled by two), a mode-select value where
//! the amplifier must latch a gain before a conversion is valid, and a
//! fixed topic under which its readings are published.

use vstd::prelude::*;

verus! {

/// One physical measurement source.
#[derive(Clone, Copy, Debug, PartialEq, Eq, Structural)]
pub enum ChannelKind {
    /// Supply rail, analog pin behind a divider.
    AnalogVcc,
    /// Battery rail, analog pin behind a divider.
    AnalogVbat,
    /// Load-cell amplifier, input A at gain 128.
    AmpGain128,
    /// Load-cell amplifier, input B at gain 32.
    AmpGain32,
}

/// Gain/channel mode the amplifier must latch before a conversion.
#[derive(Clone, Copy, Debug, PartialEq, Eq, Structural)]
pub enum AmpMode {
    /// Input A, gain 128.
    ChAGain128,
    /// Input B, gain 32.
    ChBGain32,
}

/// A channel together with what a read of it needs: its scale factor
/// and, for amplifier channels, the mode to select before converting.
#[derive(Clone, Copy, Debug, PartialEq, Eq, Structural)]
pub struct ChannelSpec {
    /// Which source this is.
    pub kind: ChannelKind,
    /// Multiplier applied to the summed samples before averaging.
    pub scale: i32,
    /// Mode the amplifier must latch first; `None` for analog channels.
    pub mode_select: Option<AmpMode>,
}

/// Scale factor of a channel: the analog rails are doubled to undo the
/// voltage divider, the amplifier channels are passed through.
pub open spec fn scale_of(kind: ChannelKind) -> int {
    match kind {
        ChannelKind::AnalogVcc => 2,
        ChannelKind::AnalogVbat => 2,
        ChannelKind::AmpGain128 => 1,
        ChannelKind::AmpGain32 => 1,
    }
}

/// Mode-select value of a channel, `None` where a read needs no mode.
pub open spec fn mode_of(kind: ChannelKind) -> Option<AmpMode> {
    match kind {
        ChannelKind::AnalogVcc => None,
        ChannelKind::AnalogVbat => None,
        ChannelKind::AmpGain128 => Some(AmpMode::ChAGain128),
        ChannelKind::AmpGain32 => Some(AmpMode::ChBGain32),
    }
}

/// Whether a channel's samples are signed. The amplifier converts a
/// bridge voltage of either sign; the analog counts are non-negative.
pub open spec fn is_signed(kind: ChannelKind) -> bool {
    match kind {
        ChannelKind::AnalogVcc => false,
        ChannelKind::AnalogVbat => false,
        ChannelKind::AmpGain128 => true,
        ChannelKind::AmpGain32 => true,
    }
}

/// A well-formed channel spec carries its kind's fixed scale and mode.
pub open spec fn spec_wf(c: ChannelSpec) -> bool {
    c.scale == scale_of(c.kind) && c.mode_select == mode_of(c.kind)
}

/// Build the spec of a channel: its kind with the fixed scale factor
/// and mode-select value that a valid read of that kind requires.
pub fn channel_spec(kind: ChannelKind) -> (c: ChannelSpec)
    ensures
        c.kind == kind,
        spec_wf(c),
{
    match kind {
        ChannelKind::AnalogVcc => ChannelSpec { kind, scale: 2, mode_select: None },
        ChannelKind::AnalogVbat => ChannelSpec { kind, scale: 2, mode_select: None },
        ChannelKind::AmpGain128 => ChannelSpec {
            kind,
            scale: 1,
            mode_select: Some(AmpMode::ChAGain128),
        },
        ChannelKind::AmpGain32 => ChannelSpec {
            kind,
            scale: 1,
            mode_select: Some(AmpMode::ChBGain32),
        },
    }
}

/// Topic under which a channel's readings are published, namespaced
/// under the device identifier.
pub open spec fn topic_of(kind: ChannelKind) -> Seq<char> {
    match kind {
        ChannelKind::AnalogVcc => "waga1/vcc"@,
        ChannelKind::AnalogVbat => "waga1/vbat"@,
        ChannelKind::AmpGain128 => "waga1/value"@,
        ChannelKind::AmpGain32 => "waga1/chb"@,
    }
}

/// The fixed topic name of a channel.
pub fn topic(kind: ChannelKind) -> (t: &'static str)
    ensures
        t@ == topic_of(kind),
{
    match kind {
        ChannelKind::AnalogVcc => "waga1/vcc",
        ChannelKind::AnalogVbat => "waga1/vbat",
        ChannelKind::AmpGain128 => "waga1/value",
        ChannelKind::AmpGain32 => "waga1/chb",
    }
}

} // verus!
