//! Record-level laws: properties that hold of every record and every input,
//! proved once against the controller's contracts.

use vstd::prelude::*;

use crate::config::{active_channels_of, config_wf, ChannelModel, RawColor};
use crate::controller::{
    drop_handle_model, set_brightness_model, write_led_model, ControllerModel,
};
use crate::status::{status_result, Status, WsError};

verus! {

/// `channels()` reports exactly the indices whose channel drives at least
/// one LED — none missing, no others — in strictly ascending order. Being a
/// pure function of the record, it is also stable across repeated calls
/// absent mutation.
pub proof fn lemma_active_channels_exact(s: Seq<ChannelModel>)
    requires
        s.len() <= usize::MAX,
    ensures
        forall|c: usize|
            #[trigger] active_channels_of(s).contains(c) <==> (c < s.len() && s[c as int].count
                > 0),
        forall|a: int, b: int|
            0 <= a < b < active_channels_of(s).len() ==> active_channels_of(s)[a]
                < active_channels_of(s)[b],
    decreases s.len(),
{
    let t = active_channels_of(s);
    if s.len() == 0 {
        assert(forall|c: usize| !t.contains(c));
    } else {
        let d = s.drop_last();
        let td = active_channels_of(d);
        lemma_active_channels_exact(d);
        assert(forall|i: int| 0 <= i < d.len() ==> d[i] == s[i]);
        assert forall|c: usize|
            #[trigger] t.contains(c) <==> (c < s.len() && s[c as int].count > 0) by {
            if s.last().count > 0 {
                assert(t == td.push((s.len() - 1) as usize));
                if c < s.len() && s[c as int].count > 0 {
                    if c == s.len() - 1 {
                        assert(t[td.len() as int] == c);
                        assert(t.contains(c));
                    } else {
                        assert(td.contains(c));
                        let i = choose|i: int| 0 <= i < td.len() && td[i] == c;
                        assert(t[i] == c);
                        assert(t.contains(c));
                    }
                }
                if t.contains(c) {
                    let i = choose|i: int| 0 <= i < t.len() && t[i] == c;
                    if i < td.len() {
                        assert(td[i] == c);
                        assert(td.contains(c));
                    } else {
                        assert(c == s.len() - 1);
                    }
                }
            } else {
                assert(t == td);
                if t.contains(c) {
                    assert(c < d.len() && d[c as int].count > 0);
                }
                if c < s.len() && s[c as int].count > 0 {
                    assert(c != s.len() - 1);
                    assert(td.contains(c));
                }
            }
        }
        assert forall|a: int, b: int| 0 <= a < b < t.len() implies t[a] < t[b] by {
            if s.last().count > 0 {
                assert(t == td.push((s.len() - 1) as usize));
                if b < td.len() {
                    assert(t[a] == td[a] && t[b] == td[b]);
                } else {
                    assert(t[b] == s.len() - 1);
                    assert(t[a] == td[a]);
                    assert(td.contains(td[a]));
                }
            } else {
                assert(t == td);
            }
        }
    }
}

/// Setting a channel's brightness and then reading that channel back yields
/// exactly the value written, for every value; no other channel, and nothing
/// else about the written channel, moves.
pub proof fn lemma_brightness_round_trip(s: Seq<ChannelModel>, c: int, v: u8)
    requires
        0 <= c < s.len(),
    ensures
        set_brightness_model(s, c, v)[c].brightness == v,
        set_brightness_model(s, c, v)[c].count == s[c].count,
        set_brightness_model(s, c, v)[c].leds == s[c].leds,
        forall|j: int| 0 <= j < s.len() && j != c ==> set_brightness_model(s, c, v)[j] == s[j],
        config_wf(s) ==> config_wf(set_brightness_model(s, c, v)),
{
    let after = set_brightness_model(s, c, v);
    if config_wf(s) {
        assert forall|j: int| 0 <= j < after.len() implies (#[trigger] after[j]).wf() by {
            assert(s[j].wf());
        }
    }
}

/// Buffer views are sized to the channel: in a well-formed record the buffer
/// of every channel holds exactly `count` values, so `leds` and `leds_mut`
/// both return views of length `count`; and since no operation moves a
/// count, those lengths never change over the controller's lifetime.
pub proof fn lemma_buffer_lengths(s: Seq<ChannelModel>, c: int)
    requires
        config_wf(s),
        0 <= c < s.len(),
    ensures
        s[c].leds.len() == s[c].count,
{
    assert(s[c].wf());
}

/// Writing a color into one slot of a channel's buffer and then reading the
/// same slot back (with no intervening write) yields exactly the value
/// written: both views address the same underlying memory. No other slot,
/// and no other channel, moves, and the record stays well formed.
pub proof fn lemma_led_write_read(s: Seq<ChannelModel>, c: int, i: int, x: RawColor)
    requires
        config_wf(s),
        0 <= c < s.len(),
        0 <= i < s[c].leds.len(),
    ensures
        write_led_model(s, c, i, x)[c].leds[i] == x,
        forall|j: int|
            0 <= j < s[c].leds.len() && j != i ==> write_led_model(s, c, i, x)[c].leds[j]
                == s[c].leds[j],
        forall|j: int| 0 <= j < s.len() && j != c ==> write_led_model(s, c, i, x)[j] == s[j],
        config_wf(write_led_model(s, c, i, x)),
{
    let after = write_led_model(s, c, i, x);
    assert forall|j: int| 0 <= j < after.len() implies (#[trigger] after[j]).wf() by {
        assert(s[j].wf());
    }
}

/// A record whose one written channel kept its buffer length — as when a
/// mutable view is written through slot by slot — is well formed again, so
/// every record-level operation is available after the view is dropped.
pub proof fn lemma_same_length_buffer_keeps_wf(
    before: Seq<ChannelModel>,
    after: Seq<ChannelModel>,
    c: int,
)
    requires
        config_wf(before),
        0 <= c < before.len(),
        after.len() == before.len(),
        after[c].count == before[c].count,
        after[c].leds.len() == before[c].leds.len(),
        forall|j: int| 0 <= j < before.len() && j != c ==> after[j] == before[j],
    ensures
        config_wf(after),
{
    assert forall|j: int| 0 <= j < after.len() implies (#[trigger] after[j]).wf() by {
        assert(before[j].wf());
    }
}

/// Render and wait return success exactly when the driver reports success,
/// and a driver failure is surfaced as exactly the matching error kind:
/// distinct reports are never conflated, so the caller sees the driver's
/// verdict verbatim, with no retry in between.
pub proof fn lemma_status_propagation()
    ensures
        status_result(Status::Success) == Ok::<(), WsError>(()),
        forall|st: Status| (#[trigger] status_result(st)) is Ok <==> st == Status::Success,
        forall|a: Status, b: Status|
            #[trigger] status_result(a) == #[trigger] status_result(b) ==> a == b,
{
}

/// How many times teardown fires while `k` handles of a record are destroyed
/// one after another.
pub open spec fn finalizations_during(m: ControllerModel, k: nat) -> nat
    decreases k,
{
    if k == 0 {
        0
    } else {
        (if m.handles == 1 {
            1nat
        } else {
            0nat
        }) + finalizations_during(drop_handle_model(m), (k - 1) as nat)
    }
}

/// Teardown fires exactly once per record: destroying handles of a live
/// record one at a time — in any order of owners, since every handle is
/// equivalent — runs finalization exactly once, on the destruction of the
/// last of the `n` handles and never before.
pub proof fn lemma_finalize_exactly_once(m: ControllerModel, k: nat)
    requires
        !m.finalized,
        1 <= m.handles,
        k <= m.handles,
    ensures
        finalizations_during(m, k) == if k == m.handles {
            1nat
        } else {
            0nat
        },
    decreases k,
{
    if k > 0 && m.handles > 1 {
        lemma_finalize_exactly_once(drop_handle_model(m), (k - 1) as nat);
    }
    if k > 0 && m.handles == 1 {
        assert(finalizations_during(drop_handle_model(m), (k - 1) as nat) == 0);
    }
}

} // verus!
