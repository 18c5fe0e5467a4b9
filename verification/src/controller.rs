//! The controller: the single owner-side view of one hardware record.

use vstd::prelude::*;

use crate::config::{active_channels_of, config_wf, ChannelModel, HardwareConfig, RawColor};
use crate::status::{decode_status, status_result, Status, WsError};

verus! {

/// Mathematical model of a controller record: the channel state plus the
/// lifecycle bookkeeping (how many handles share the record, and whether the
/// hardware has been torn down).
pub ghost struct ControllerModel {
    /// The channels, in hardware order.
    pub channels: Seq<ChannelModel>,
    /// Number of live handles sharing the record.
    pub handles: nat,
    /// Whether the driver's teardown has run for this record.
    pub finalized: bool,
}

/// The main struct used to control the lights: one hardware-configuration
/// record together with its lifecycle bookkeeping.
///
/// The record may be shared by several cooperating owners. The unverified
/// shell around this crate holds one `Controller` behind a reference-counted
/// mutual-exclusion primitive; every record-level operation here takes the
/// receiver exclusively, so at most one such operation acts on the record at
/// a time. Cloning a shell handle calls [`Controller::clone_handle`];
/// destroying one calls [`Controller::drop_handle`], whose result says
/// whether this was the last owner and the driver must now be finalized.
pub struct Controller {
    config: HardwareConfig,
    handles: u64,
    finalized: bool,
}

impl View for Controller {
    type V = ControllerModel;

    closed spec fn view(&self) -> ControllerModel {
        ControllerModel {
            channels: self.config@,
            handles: self.handles as nat,
            finalized: self.finalized,
        }
    }
}

impl Controller {
    /// A live, usable record: every buffer sized to its channel's LED count,
    /// at least one handle, and teardown not yet run.
    pub open spec fn wf(self) -> bool {
        &&& config_wf(self@.channels)
        &&& 1 <= self@.handles
        &&& !self@.finalized
    }

    /// Creates a new controller around a fully built record, with one handle.
    ///
    /// This is only to be called with a record the builder validated; the
    /// controller does not validate it again.
    pub fn new(config: HardwareConfig) -> (r: Controller)
        requires
            config_wf(config@),
        ensures
            r.wf(),
            r@.channels == config@,
            r@.handles == 1,
            !r@.finalized,
    {
        Controller { config, handles: 1, finalized: false }
    }

    /// Gets the channels with a non-zero number of LEDs associated with them,
    /// in ascending order. Reads the record and changes nothing.
    pub fn channels(&self) -> (r: Vec<usize>)
        requires
            self.wf(),
        ensures
            r@ == active_channels_of(self@.channels),
    {
        let ghost s = self@.channels;
        let mut r: Vec<usize> = Vec::new();
        let n = self.config.channels.len();
        let mut i: usize = 0;
        while i < n
            invariant
                n == s.len(),
                i <= n,
                s == self@.channels,
                r@ == active_channels_of(s.take(i as int)),
            decreases n - i,
        {
            proof {
                assert(s.take(i as int + 1).drop_last() =~= s.take(i as int));
                assert(s.take(i as int + 1).last() == s[i as int]);
            }
            if self.config.channels[i].count > 0 {
                r.push(i);
            }
            i += 1;
        }
        proof {
            assert(s.take(n as int) =~= s);
        }
        r
    }

    /// Gets the brightness byte of one channel's LEDs.
    ///
    /// An out-of-range channel index is a programming error, ruled out here
    /// rather than reported.
    pub fn brightness(&self, channel: usize) -> (r: u8)
        requires
            self.wf(),
            channel < self@.channels.len(),
        ensures
            r == self@.channels[channel as int].brightness,
    {
        self.config.channels[channel].brightness
    }

    /// Sets the brightness byte of one channel's LEDs; every other part of
    /// the record is left as it was.
    pub fn set_brightness(&mut self, channel: usize, value: u8)
        requires
            old(self).wf(),
            channel < old(self)@.channels.len(),
        ensures
            final(self).wf(),
            final(self)@.channels == set_brightness_model(old(self)@.channels, channel as int, value),
            final(self)@.handles == old(self)@.handles,
            final(self)@.finalized == old(self)@.finalized,
    {
        self.config.channels[channel].brightness = value;
        proof {
            assert(self@.channels =~= set_brightness_model(
                old(self)@.channels,
                channel as int,
                value,
            ));
        }
    }

    /// Gets a read-only view of the channel's color buffer: exactly one
    /// value per LED on the channel.
    pub fn leds(&self, channel: usize) -> (r: &Vec<RawColor>)
        requires
            self.wf(),
            channel < self@.channels.len(),
        ensures
            r@ == self@.channels[channel as int].leds,
            r@.len() == self@.channels[channel as int].count,
    {
        &self.config.channels[channel].leds
    }

    /// Gets a mutable view of the channel's color buffer: exactly one value
    /// per LED on the channel. Writes through the view land in the record's
    /// own buffer, where the next render reads them.
    ///
    /// The view keeps the record borrowed for as long as it lives, so no
    /// render, wait or teardown can run on this controller meanwhile; a
    /// caller that keeps the buffer its original length keeps the record
    /// well formed.
    pub fn leds_mut(&mut self, channel: usize) -> (r: &mut Vec<RawColor>)
        requires
            old(self).wf(),
            channel < old(self)@.channels.len(),
        ensures
            (*r)@ == old(self)@.channels[channel as int].leds,
            (*r)@.len() == old(self)@.channels[channel as int].count,
            final(self)@.channels.len() == old(self)@.channels.len(),
            final(self)@.channels[channel as int].leds == (*final(r))@,
            final(self)@.channels[channel as int].count == old(self)@.channels[channel as int].count,
            final(self)@.channels[channel as int].brightness == old(self)@.channels[channel as int].brightness,
            forall|j: int|
                0 <= j < old(self)@.channels.len() && j != channel ==> final(self)@.channels[j]
                    == old(self)@.channels[j],
            final(self)@.handles == old(self)@.handles,
            final(self)@.finalized == old(self)@.finalized,
    {
        &mut self.config.channels[channel].leds
    }

    /// Render the colors to the string: hand the current buffer and
    /// brightness state to the driver for transmission.
    ///
    /// The unverified shell around this crate performs the raw hardware call
    /// under the record's lock and passes the driver's report in as
    /// `status`; this method decides what the caller sees. Submission is
    /// asynchronous at the hardware level, and rendering is somewhat costly,
    /// so writes should be batched rather than rendered one by one.
    ///
    /// Every failure kind is propagated verbatim, nothing is retried, and
    /// the record itself is left exactly as it was.
    pub fn render(&mut self, status: Status) -> (r: Result<(), WsError>)
        requires
            old(self).wf(),
        ensures
            *final(self) == *old(self),
            r == status_result(status),
    {
        decode_status(status)
    }

    /// Wait for a render to be completed: block until the driver reports
    /// that the last submission has finished or failed.
    ///
    /// The unverified shell performs the blocking hardware call under the
    /// record's lock and passes the driver's report in as `status`. Every
    /// failure kind is propagated verbatim, nothing is retried, and the
    /// record itself is left exactly as it was.
    pub fn wait(&mut self, status: Status) -> (r: Result<(), WsError>)
        requires
            old(self).wf(),
        ensures
            *final(self) == *old(self),
            r == status_result(status),
    {
        decode_status(status)
    }

    /// Notes one more handle sharing this record: the unverified shell calls
    /// this when a handle is cloned. All handles are equivalent; a write
    /// through any of them is a write to this one record.
    pub fn clone_handle(&mut self)
        requires
            old(self).wf(),
            old(self)@.handles < u64::MAX,
        ensures
            final(self).wf(),
            final(self)@ == (ControllerModel { handles: (old(self)@.handles + 1) as nat, ..old(self)@ }),
    {
        self.handles = self.handles + 1;
    }

    /// Notes the destruction of one handle: the unverified shell calls this
    /// when a handle is dropped. Returns true exactly when the destroyed
    /// handle was the last one; the record is then marked finalized and the
    /// caller must run the driver's teardown — once, and never again, since
    /// a finalized record admits no further operation.
    pub fn drop_handle(&mut self) -> (last: bool)
        requires
            old(self).wf(),
        ensures
            final(self)@ == drop_handle_model(old(self)@),
            last == (old(self)@.handles == 1),
            !last ==> final(self).wf(),
    {
        self.handles = self.handles - 1;
        if self.handles == 0 {
            self.finalized = true;
            true
        } else {
            false
        }
    }
}

/// What setting one channel's brightness does to the channel models: that
/// channel's brightness byte becomes the value written, and nothing else
/// moves.
pub open spec fn set_brightness_model(s: Seq<ChannelModel>, c: int, v: u8) -> Seq<ChannelModel> {
    s.update(c, ChannelModel { brightness: v, ..s[c] })
}

/// What writing one color through a mutable buffer view does to the channel
/// models: one slot of that channel's buffer becomes the value written, and
/// nothing else moves.
pub open spec fn write_led_model(s: Seq<ChannelModel>, c: int, i: int, x: RawColor) -> Seq<
    ChannelModel,
> {
    s.update(c, ChannelModel { leds: s[c].leds.update(i, x), ..s[c] })
}

/// What one handle destruction does to the record's model: one handle fewer,
/// and teardown exactly when the last one goes.
pub open spec fn drop_handle_model(m: ControllerModel) -> ControllerModel {
    ControllerModel {
        channels: m.channels,
        handles: (m.handles - 1) as nat,
        finalized: m.finalized || m.handles == 1,
    }
}

} // verus!
