//! The hardware-configuration record: channels, colors, and their models.

use vstd::prelude::*;

verus! {

/// One LED's packed color value, laid out exactly as the driver keeps it in
/// memory: four 8-bit components forming one 32-bit word. The controller
/// attaches no meaning to the components; it is a transparent view over
/// driver-defined memory.
#[derive(Clone, Copy, Debug, PartialEq, Eq, Structural)]
pub struct RawColor {
    pub b: u8,
    pub g: u8,
    pub r: u8,
    pub w: u8,
}

/// Mathematical model of one channel.
pub ghost struct ChannelModel {
    /// Number of LEDs on the channel; zero means the channel is unused.
    pub count: nat,
    /// Brightness byte, interpreted by the driver.
    pub brightness: u8,
    /// The color buffer contents, one value per LED.
    pub leds: Seq<RawColor>,
}

impl ChannelModel {
    /// The buffer holds exactly one color value per LED.
    pub open spec fn wf(self) -> bool {
        self.leds.len() == self.count
    }
}

/// One output channel: an immutable LED count, a mutable brightness byte,
/// and the color buffer the driver transmits from.
pub struct ChannelConfig {
    /// Number of LEDs on the channel; fixed at construction.
    pub count: usize,
    /// Brightness byte; mutable at any time.
    pub brightness: u8,
    /// The color buffer, of exactly `count` values.
    pub leds: Vec<RawColor>,
}

impl View for ChannelConfig {
    type V = ChannelModel;

    open spec fn view(&self) -> ChannelModel {
        ChannelModel { count: self.count as nat, brightness: self.brightness, leds: self.leds@ }
    }
}

/// The hardware-configuration record built by the builder and handed to the
/// controller: a fixed-length ordered sequence of channels, never resized.
pub struct HardwareConfig {
    /// The channels, in hardware order.
    pub channels: Vec<ChannelConfig>,
}

impl View for HardwareConfig {
    type V = Seq<ChannelModel>;

    open spec fn view(&self) -> Seq<ChannelModel> {
        self.channels@.map_values(|c: ChannelConfig| c@)
    }
}

/// Every channel's buffer is sized to its LED count.
pub open spec fn config_wf(s: Seq<ChannelModel>) -> bool {
    forall|i: int| 0 <= i < s.len() ==> (#[trigger] s[i]).wf()
}

/// The indices of the channels that drive at least one LED, in ascending
/// order.
pub open spec fn active_channels_of(s: Seq<ChannelModel>) -> Seq<usize>
    decreases s.len(),
{
    if s.len() == 0 {
        Seq::empty()
    } else if s.last().count > 0 {
        active_channels_of(s.drop_last()).push((s.len() - 1) as usize)
    } else {
        active_channels_of(s.drop_last())
    }
}

} // verus!
