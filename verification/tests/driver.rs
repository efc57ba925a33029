use quad_epd::interface::BusOp;
use quad_epd::traits::DriverError;
use quad_epd::traits::RefreshLut;
use quad_epd::traits::WaveshareDisplay;
use quad_epd::yrd0750ryf665f60::Epd7in5;
use quad_epd::yrd0750ryf665f60::NUM_DISPLAY_BYTES;

/// The documented init sequence as the transport must see it: reset with
/// its delays, idle wait, the command/payload pairs in order, power-on,
/// idle wait.
fn expected_init_ops() -> Vec<BusOp> {
    vec![
        BusOp::ResetLine(true),
        BusOp::DelayUs(20_000),
        BusOp::ResetLine(false),
        BusOp::DelayUs(20_000),
        BusOp::ResetLine(true),
        BusOp::DelayUs(200_000),
        BusOp::WaitIdle(true),
        BusOp::Command(0x4D),
        BusOp::Data(vec![0x78]),
        BusOp::Command(0x00),
        BusOp::Data(vec![0x2F, 0x29]),
        BusOp::Command(0x50),
        BusOp::Data(vec![0x37]),
        BusOp::Command(0x65),
        BusOp::Data(vec![0x00, 0x00, 0x00, 0x00]),
        BusOp::Command(0xE3),
        BusOp::Data(vec![0x88]),
        BusOp::Command(0xE9),
        BusOp::Data(vec![0x01]),
        BusOp::Command(0x30),
        BusOp::Data(vec![0x08]),
        BusOp::Command(0x04),
        BusOp::WaitIdle(true),
    ]
}

#[test]
fn init_issues_documented_sequence_in_order() {
    let mut epd = Epd7in5::new();
    epd.init();
    assert_eq!(epd.take_ops(), expected_init_ops());
}

#[test]
fn wake_up_reruns_the_full_init_sequence() {
    let mut epd = Epd7in5::new();
    epd.init();
    epd.sleep().unwrap();
    epd.take_ops();
    assert_eq!(epd.wake_up(), Ok(()));
    assert_eq!(epd.take_ops(), expected_init_ops());
}

#[test]
fn sleep_issues_power_off_then_deep_sleep() {
    let mut epd = Epd7in5::new();
    epd.init();
    epd.take_ops();
    assert_eq!(epd.sleep(), Ok(()));
    assert_eq!(
        epd.take_ops(),
        vec![
            BusOp::WaitIdle(true),
            BusOp::Command(0x02),
            BusOp::Data(vec![0x00]),
            BusOp::WaitIdle(true),
            BusOp::Command(0x07),
            BusOp::Data(vec![0xA5]),
        ]
    );
}

#[test]
fn update_frame_streams_the_exact_buffer() {
    let mut epd = Epd7in5::new();
    epd.init();
    epd.take_ops();
    let frame = vec![0xAB; NUM_DISPLAY_BYTES];
    assert_eq!(epd.update_frame(&frame), Ok(()));
    assert_eq!(
        epd.take_ops(),
        vec![BusOp::WaitIdle(true), BusOp::Command(0x10), BusOp::Data(frame)]
    );
}

#[test]
fn update_frame_rejects_wrong_length_without_truncating() {
    let mut epd = Epd7in5::new();
    epd.init();
    epd.take_ops();
    let too_long = vec![0x00; NUM_DISPLAY_BYTES + 1];
    assert_eq!(epd.update_frame(&too_long), Err(DriverError::BufferSizeMismatch));
    let too_short = vec![0x00; NUM_DISPLAY_BYTES - 1];
    assert_eq!(epd.update_frame(&too_short), Err(DriverError::BufferSizeMismatch));
    // Nothing reached the bus.
    assert_eq!(epd.take_ops(), Vec::new());
}

#[test]
fn display_frame_refresh_then_idle_wait() {
    let mut epd = Epd7in5::new();
    epd.init();
    epd.take_ops();
    assert_eq!(epd.display_frame(), Ok(()));
    assert_eq!(
        epd.take_ops(),
        vec![
            BusOp::Command(0x12),
            BusOp::Data(vec![0x00]),
            BusOp::DelayUs(500),
            BusOp::WaitIdle(true),
        ]
    );
}

#[test]
fn update_and_display_reasserts_power_between_phases() {
    let mut epd = Epd7in5::new();
    epd.init();
    epd.take_ops();
    let frame = vec![0x55; NUM_DISPLAY_BYTES];
    assert_eq!(epd.update_and_display_frame(&frame), Ok(()));
    let mut expected = vec![BusOp::WaitIdle(true), BusOp::Command(0x10), BusOp::Data(frame)];
    expected.push(BusOp::Command(0x04));
    expected.extend(vec![
        BusOp::Command(0x12),
        BusOp::Data(vec![0x00]),
        BusOp::DelayUs(500),
        BusOp::WaitIdle(true),
    ]);
    assert_eq!(epd.take_ops(), expected);
}

#[test]
fn clear_frame_streams_default_byte_96000_times() {
    let mut epd = Epd7in5::new();
    epd.init();
    epd.take_ops();
    assert_eq!(epd.clear_frame(), Ok(()));
    assert_eq!(
        epd.take_ops(),
        vec![
            BusOp::WaitIdle(true),
            BusOp::Command(0x10),
            BusOp::RepeatData(0x55, 96_000),
            BusOp::Command(0x11),
            BusOp::Command(0x12),
        ]
    );
}

#[test]
fn clear_frame_streams_the_background_color() {
    let mut epd = Epd7in5::new();
    epd.init();
    epd.set_background_color(quad_epd::color::QuadColor::Black);
    epd.take_ops();
    assert_eq!(epd.clear_frame(), Ok(()));
    assert_eq!(
        epd.take_ops(),
        vec![
            BusOp::WaitIdle(true),
            BusOp::Command(0x10),
            BusOp::RepeatData(0x00, 96_000),
            BusOp::Command(0x11),
            BusOp::Command(0x12),
        ]
    );
}

#[test]
fn sleeping_panel_rejects_display_operations() {
    let mut epd = Epd7in5::new();
    epd.init();
    epd.sleep().unwrap();
    epd.take_ops();
    let frame = vec![0x00; NUM_DISPLAY_BYTES];
    assert_eq!(epd.update_frame(&frame), Err(DriverError::NotReady));
    assert_eq!(epd.display_frame(), Err(DriverError::NotReady));
    assert_eq!(epd.update_and_display_frame(&frame), Err(DriverError::NotReady));
    assert_eq!(epd.clear_frame(), Err(DriverError::NotReady));
    assert_eq!(epd.sleep(), Err(DriverError::NotReady));
    // None of the rejected calls reached the bus.
    assert_eq!(epd.take_ops(), Vec::new());
}

#[test]
fn uninitialized_panel_rejects_display_operations() {
    let mut epd = Epd7in5::new();
    assert_eq!(epd.display_frame(), Err(DriverError::NotReady));
    assert_eq!(epd.clear_frame(), Err(DriverError::NotReady));
    assert_eq!(epd.take_ops(), Vec::new());
}

#[test]
fn set_lut_fails_explicitly_on_this_panel() {
    let mut epd = Epd7in5::new();
    epd.init();
    epd.take_ops();
    assert_eq!(epd.set_lut(None), Err(DriverError::UnsupportedOperation));
    assert_eq!(epd.set_lut(Some(RefreshLut::Quick)), Err(DriverError::UnsupportedOperation));
    assert_eq!(epd.take_ops(), Vec::new());
}

#[test]
fn background_color_is_local_state() {
    let mut epd = Epd7in5::new();
    assert_eq!(*epd.background_color(), quad_epd::color::QuadColor::White);
    epd.set_background_color(quad_epd::color::QuadColor::Yellow);
    assert_eq!(*epd.background_color(), quad_epd::color::QuadColor::Yellow);
    // Changing it sends nothing.
    assert_eq!(epd.take_ops(), Vec::new());
}

#[test]
fn dimensions_match_the_panel() {
    let epd = Epd7in5::new();
    assert_eq!(epd.width(), 800);
    assert_eq!(epd.height(), 480);
    assert_eq!(NUM_DISPLAY_BYTES, 96_000);
}

#[test]
fn wait_until_idle_records_busy_low_polarity() {
    let mut epd = Epd7in5::new();
    assert_eq!(epd.wait_until_idle(), Ok(()));
    assert_eq!(epd.take_ops(), vec![BusOp::WaitIdle(true)]);
}

#[test]
fn refresh_lut_defaults_to_full() {
    assert_eq!(RefreshLut::default(), RefreshLut::Full);
}

#[test]
fn driver_works_through_the_trait() {
    fn drive<D: WaveshareDisplay>(d: &mut D) -> Vec<BusOp> {
        let _ = d.wait_until_idle();
        d.take_ops()
    }
    let mut epd = Epd7in5::new();
    assert_eq!(drive(&mut epd), vec![BusOp::WaitIdle(true)]);
}
