use rs_ws281x::config::{ChannelConfig, HardwareConfig, RawColor};
use rs_ws281x::controller::Controller;
use rs_ws281x::status::{Status, WsError};

fn color(b: u8, g: u8, r: u8, w: u8) -> RawColor {
    RawColor { b, g, r, w }
}

fn channel(count: usize, brightness: u8) -> ChannelConfig {
    let mut leds = Vec::new();
    let mut i: usize = 0;
    while i < count {
        leds.push(color(0, 0, 0, 0));
        i += 1;
    }
    ChannelConfig { count, brightness, leds }
}

fn controller(counts: &[usize]) -> Controller {
    let mut channels = Vec::new();
    for &c in counts {
        channels.push(channel(c, 128));
    }
    Controller::new(HardwareConfig { channels })
}

#[test]
fn active_channels_are_exactly_the_nonzero_counts() {
    let ctl = controller(&[0, 3, 0, 2]);
    assert_eq!(ctl.channels(), vec![1, 3]);
}

#[test]
fn active_channels_of_empty_record_is_empty() {
    let ctl = controller(&[]);
    assert_eq!(ctl.channels(), Vec::<usize>::new());
}

#[test]
fn active_channels_all_zero_counts_is_empty() {
    let ctl = controller(&[0, 0, 0]);
    assert_eq!(ctl.channels(), Vec::<usize>::new());
}

#[test]
fn active_channels_all_nonzero_counts_is_every_index() {
    let ctl = controller(&[1, 2, 3]);
    assert_eq!(ctl.channels(), vec![0, 1, 2]);
}

#[test]
fn active_channels_stable_across_repeated_calls() {
    let ctl = controller(&[0, 5]);
    let first = ctl.channels();
    let second = ctl.channels();
    assert_eq!(first, second);
    assert_eq!(first, vec![1]);
}

#[test]
fn brightness_round_trip_every_extreme() {
    let mut ctl = controller(&[2, 4]);
    ctl.set_brightness(0, 0);
    assert_eq!(ctl.brightness(0), 0);
    ctl.set_brightness(0, 255);
    assert_eq!(ctl.brightness(0), 255);
    ctl.set_brightness(1, 7);
    assert_eq!(ctl.brightness(1), 7);
    // the other channel is untouched
    assert_eq!(ctl.brightness(0), 255);
}

#[test]
fn brightness_round_trip_every_value() {
    let mut ctl = controller(&[1]);
    let mut v: u16 = 0;
    while v <= 255 {
        ctl.set_brightness(0, v as u8);
        assert_eq!(ctl.brightness(0), v as u8);
        v += 1;
    }
}

#[test]
fn led_views_are_sized_to_the_count() {
    let mut ctl = controller(&[4, 0, 9]);
    assert_eq!(ctl.leds(0).len(), 4);
    assert_eq!(ctl.leds(1).len(), 0);
    assert_eq!(ctl.leds(2).len(), 9);
    assert_eq!(ctl.leds_mut(0).len(), 4);
    assert_eq!(ctl.leds_mut(2).len(), 9);
}

#[test]
fn led_view_lengths_never_change() {
    let mut ctl = controller(&[3]);
    assert_eq!(ctl.leds(0).len(), 3);
    ctl.set_brightness(0, 42);
    ctl.leds_mut(0)[1] = color(9, 9, 9, 9);
    let _ = ctl.render(Status::Success);
    let _ = ctl.wait(Status::Success);
    assert_eq!(ctl.leds(0).len(), 3);
    assert_eq!(ctl.leds_mut(0).len(), 3);
}

#[test]
fn led_written_through_mut_view_is_read_back() {
    let mut ctl = controller(&[3, 2]);
    let x = color(1, 2, 3, 4);
    ctl.leds_mut(0)[2] = x;
    assert_eq!(ctl.leds(0)[2], x);
    // the other slots and the other channel are untouched
    assert_eq!(ctl.leds(0)[0], color(0, 0, 0, 0));
    assert_eq!(ctl.leds(0)[1], color(0, 0, 0, 0));
    assert_eq!(ctl.leds(1)[0], color(0, 0, 0, 0));
    assert_eq!(ctl.leds(1)[1], color(0, 0, 0, 0));
}

#[test]
fn render_then_wait_succeed_on_driver_success() {
    let mut ctl = controller(&[2]);
    assert_eq!(ctl.render(Status::Success), Ok(()));
    assert_eq!(ctl.wait(Status::Success), Ok(()));
}

#[test]
fn every_driver_failure_propagates_verbatim() {
    let mut ctl = controller(&[2]);
    let cases = [
        (Status::GenericFailure, WsError::GenericFailure),
        (Status::HardwareFault, WsError::HardwareFault),
        (Status::OutOfMemory, WsError::OutOfMemory),
        (Status::GpioInitFailure, WsError::GpioInitFailure),
        (Status::GpioInvalidPin, WsError::GpioInvalidPin),
        (Status::InvalidStringLength, WsError::InvalidStringLength),
        (Status::DmaSetupFailure, WsError::DmaSetupFailure),
        (Status::PwmSetupFailure, WsError::PwmSetupFailure),
        (Status::InterruptSetupFailure, WsError::InterruptSetupFailure),
    ];
    for (status, err) in cases {
        assert_eq!(ctl.render(status), Err(err));
        assert_eq!(ctl.wait(status), Err(err));
    }
}

#[test]
fn failed_render_leaves_the_record_intact() {
    let mut ctl = controller(&[2]);
    ctl.set_brightness(0, 77);
    ctl.leds_mut(0)[0] = color(5, 6, 7, 8);
    assert_eq!(ctl.render(Status::HardwareFault), Err(WsError::HardwareFault));
    assert_eq!(ctl.brightness(0), 77);
    assert_eq!(ctl.leds(0)[0], color(5, 6, 7, 8));
    assert_eq!(ctl.channels(), vec![0]);
}

#[test]
fn single_handle_finalizes_on_its_own_drop() {
    let mut ctl = controller(&[1]);
    assert!(ctl.drop_handle());
}

#[test]
fn last_of_three_handles_finalizes_exactly_once() {
    let mut ctl = controller(&[1]);
    ctl.clone_handle();
    ctl.clone_handle();
    let mut finalizations: usize = 0;
    for _ in 0..3 {
        if ctl.drop_handle() {
            finalizations += 1;
        }
    }
    assert_eq!(finalizations, 1);
}

#[test]
fn only_the_last_drop_finalizes() {
    let mut ctl = controller(&[1]);
    ctl.clone_handle();
    assert!(!ctl.drop_handle());
    assert!(ctl.drop_handle());
}

#[test]
fn record_stays_usable_while_a_handle_remains() {
    let mut ctl = controller(&[2]);
    ctl.clone_handle();
    assert!(!ctl.drop_handle());
    ctl.set_brightness(0, 9);
    assert_eq!(ctl.brightness(0), 9);
    assert_eq!(ctl.render(Status::Success), Ok(()));
}
