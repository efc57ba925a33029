//! Driver for the 7.5 inch quad-color panel, 800 x 480 pixels at 2 bits per
//! pixel.
//!
//! The driver is a protocol state machine: every public call either refuses
//! with a [`DriverError`] or appends an exact, order-significant sequence of
//! bus operations to its log. The contracts list those sequences literally;
//! a transport drains the log and performs it on the physical bus.

use vstd::prelude::*;

use crate::color::QuadColor;
use crate::color::fill_byte_spec;
use crate::interface::BusOp;
use crate::interface::BusOpView;
use crate::interface::DisplayInterface;
use crate::interface::ops_as_views;
use crate::interface::reset_ops;
use crate::traits::DriverError;
use crate::traits::PowerState;
use crate::traits::RefreshLut;
use crate::traits::WaveshareDisplay;

verus! {

/// Display width in pixels.
pub const WIDTH: u32 = 800;

/// Display height in pixels.
pub const HEIGHT: u32 = 480;

/// Default background color.
pub const DEFAULT_BACKGROUND_COLOR: QuadColor = QuadColor::White;

/// Exact byte count of one full frame: `width * bpp / 8 * height` with
/// `width = 800`, `bpp = 2` and `height = 480`.
pub const NUM_DISPLAY_BYTES: usize = 800 / 4 * 480;

/// The busy line of this panel revision is asserted low.
const IS_BUSY_LOW: bool = true;

/// Opcodes of the panel controller, one byte each.
#[derive(Clone, Copy)]
pub(crate) enum Command {
    /// Panel setting, `0x00`.
    PanelSetting,
    /// Power off, `0x02`.
    PowerOff,
    /// Power on, `0x04`.
    PowerOn,
    /// Deep sleep, `0x07`.
    DeepSleep,
    /// Start data transmission, `0x10`.
    DataStartTransmission1,
    /// Stop data transmission, `0x11`.
    DataStop,
    /// Display refresh, `0x12`.
    DisplayRefresh,
    /// PLL control, `0x30`.
    PllControl,
    /// Vendor-specific opcode this panel revision requires, `0x4D`.
    MisteryCommand1,
    /// VCOM and data-interval setting, `0x50`.
    VcomAndDataIntervalSetting,
    /// SPI-flash control, `0x65`.
    SpiFlashControl,
    /// Power-saving setting, `0xE3`.
    PowerSavingSetting,
    /// Vendor-specific opcode this panel revision requires, `0xE9`.
    MisteryCommand2,
}

/// The opcode byte of each command.
pub(crate) open spec fn address_spec(c: Command) -> u8 {
    match c {
        Command::PanelSetting => 0x00,
        Command::PowerOff => 0x02,
        Command::PowerOn => 0x04,
        Command::DeepSleep => 0x07,
        Command::DataStartTransmission1 => 0x10,
        Command::DataStop => 0x11,
        Command::DisplayRefresh => 0x12,
        Command::PllControl => 0x30,
        Command::MisteryCommand1 => 0x4D,
        Command::VcomAndDataIntervalSetting => 0x50,
        Command::SpiFlashControl => 0x65,
        Command::PowerSavingSetting => 0xE3,
        Command::MisteryCommand2 => 0xE9,
    }
}

impl Command {
    /// The opcode byte sent on the bus for this command.
    pub(crate) fn address(self) -> (r: u8)
        ensures
            r == address_spec(self),
    {
        match self {
            Command::PanelSetting => 0x00,
            Command::PowerOff => 0x02,
            Command::PowerOn => 0x04,
            Command::DeepSleep => 0x07,
            Command::DataStartTransmission1 => 0x10,
            Command::DataStop => 0x11,
            Command::DisplayRefresh => 0x12,
            Command::PllControl => 0x30,
            Command::MisteryCommand1 => 0x4D,
            Command::VcomAndDataIntervalSetting => 0x50,
            Command::SpiFlashControl => 0x65,
            Command::PowerSavingSetting => 0xE3,
            Command::MisteryCommand2 => 0xE9,
        }
    }
}

/// The fixed, order-significant operation sequence of panel initialization:
/// hardware reset, idle wait, the documented command/payload pairs, then
/// power-on followed by a final idle wait. Reordering is not permitted.
pub open spec fn init_ops() -> Seq<BusOpView> {
    reset_ops(20_000, 20_000) + seq![
        BusOpView::WaitIdle(true),
        BusOpView::Command(0x4D),
        BusOpView::Data(seq![0x78u8]),
        BusOpView::Command(0x00),
        BusOpView::Data(seq![0x2Fu8, 0x29u8]),
        BusOpView::Command(0x50),
        BusOpView::Data(seq![0x37u8]),
        BusOpView::Command(0x65),
        BusOpView::Data(seq![0x00u8, 0x00u8, 0x00u8, 0x00u8]),
        BusOpView::Command(0xE3),
        BusOpView::Data(seq![0x88u8]),
        BusOpView::Command(0xE9),
        BusOpView::Data(seq![0x01u8]),
        BusOpView::Command(0x30),
        BusOpView::Data(seq![0x08u8]),
        BusOpView::Command(0x04),
        BusOpView::WaitIdle(true),
    ]
}

/// The operation sequence of entering deep sleep: idle wait, power-off,
/// idle wait, deep-sleep with its check byte.
pub open spec fn sleep_ops() -> Seq<BusOpView> {
    seq![
        BusOpView::WaitIdle(true),
        BusOpView::Command(0x02),
        BusOpView::Data(seq![0x00u8]),
        BusOpView::WaitIdle(true),
        BusOpView::Command(0x07),
        BusOpView::Data(seq![0xA5u8]),
    ]
}

/// The operation sequence of a frame transfer: idle wait, then
/// start-data-transmission followed by the frame bytes.
pub open spec fn update_frame_ops(frame: Seq<u8>) -> Seq<BusOpView> {
    seq![
        BusOpView::WaitIdle(true),
        BusOpView::Command(0x10),
        BusOpView::Data(frame),
    ]
}

/// The operation sequence of a physical refresh: the refresh command with
/// its payload, a short settle, then a wait for the multi-second refresh to
/// finish.
pub open spec fn display_frame_ops() -> Seq<BusOpView> {
    seq![
        BusOpView::Command(0x12),
        BusOpView::Data(seq![0x00u8]),
        BusOpView::DelayUs(500),
        BusOpView::WaitIdle(true),
    ]
}

/// The operation sequence of a bulk clear: idle wait, start-data, one
/// background fill byte repeated `width * height / 4` times, data stop,
/// then refresh.
pub open spec fn clear_frame_ops(background: QuadColor) -> Seq<BusOpView> {
    seq![
        BusOpView::WaitIdle(true),
        BusOpView::Command(0x10),
        BusOpView::RepeatData(fill_byte_spec(background), 96_000),
        BusOpView::Command(0x11),
        BusOpView::Command(0x12),
    ]
}

/// A framebuffer sized for this panel: 800 x 480 pixels at 2 bits per
/// pixel, [`NUM_DISPLAY_BYTES`] bytes, pre-filled with the default color.
pub fn display_7in5(bit_order: crate::color::BitOrder) -> (r: crate::graphics::Display)
    ensures
        r@.width == WIDTH,
        r@.height == HEIGHT,
        r@.bit_order == bit_order,
        r@.wf(),
        r@.buffer.len() == NUM_DISPLAY_BYTES as int,
        forall|k: int| 0 <= k < r@.buffer.len() ==> r@.buffer[k] == 0x55u8,
{
    crate::graphics::Display::new(WIDTH, HEIGHT, bit_order)
}

/// Driver for this panel: owns the recording connection, the background
/// color used by bulk clears, and the power state of the controller.
pub struct Epd7in5 {
    interface: DisplayInterface,
    color: QuadColor,
    state: PowerState,
}

impl Epd7in5 {
    /// The bus operations recorded and not yet drained, oldest first.
    pub closed spec fn log(self) -> Seq<BusOpView> {
        self.interface.log()
    }

    /// The controller's power state.
    pub closed spec fn power_state(self) -> PowerState {
        self.state
    }

    /// The background color bulk clears stream.
    pub closed spec fn background(self) -> QuadColor {
        self.color
    }

    /// A fresh driver: empty log, white background, panel not initialized.
    pub fn new() -> (r: Epd7in5)
        ensures
            r.log() == Seq::<BusOpView>::empty(),
            r.power_state() == PowerState::Uninitialized,
            r.background() == DEFAULT_BACKGROUND_COLOR,
    {
        Epd7in5 {
            interface: DisplayInterface::new(),
            color: DEFAULT_BACKGROUND_COLOR,
            state: PowerState::Uninitialized,
        }
    }

    /// Initialize the panel: records exactly [`init_ops`], in order, and
    /// leaves the controller ready. Valid in every state; a sleeping panel
    /// is woken by the reset this sequence starts with.
    pub fn init(&mut self)
        ensures
            final(self).log() == old(self).log() + init_ops(),
            final(self).power_state() == PowerState::Ready,
            final(self).background() == old(self).background(),
    {
        self.interface.reset(20_000, 20_000);
        self.interface.wait_until_idle(IS_BUSY_LOW);
        let vendor1: [u8; 1] = [0x78];
        self.interface.cmd_with_data(Command::MisteryCommand1.address(), vendor1.as_slice());
        let panel: [u8; 2] = [0x2F, 0x29];
        self.interface.cmd_with_data(Command::PanelSetting.address(), panel.as_slice());
        let vcom: [u8; 1] = [0x37];
        self.interface.cmd_with_data(Command::VcomAndDataIntervalSetting.address(), vcom.as_slice());
        let spi_flash: [u8; 4] = [0x00, 0x00, 0x00, 0x00];
        self.interface.cmd_with_data(Command::SpiFlashControl.address(), spi_flash.as_slice());
        let power_saving: [u8; 1] = [0x88];
        self.interface.cmd_with_data(Command::PowerSavingSetting.address(), power_saving.as_slice());
        let vendor2: [u8; 1] = [0x01];
        self.interface.cmd_with_data(Command::MisteryCommand2.address(), vendor2.as_slice());
        let pll: [u8; 1] = [0x08];
        self.interface.cmd_with_data(Command::PllControl.address(), pll.as_slice());
        self.interface.cmd(Command::PowerOn.address());
        self.interface.wait_until_idle(IS_BUSY_LOW);
        self.state = PowerState::Ready;
        proof {
            assert(vendor1@ =~= seq![0x78u8]);
            assert(panel@ =~= seq![0x2Fu8, 0x29u8]);
            assert(vcom@ =~= seq![0x37u8]);
            assert(spi_flash@ =~= seq![0x00u8, 0x00u8, 0x00u8, 0x00u8]);
            assert(power_saving@ =~= seq![0x88u8]);
            assert(vendor2@ =~= seq![0x01u8]);
            assert(pll@ =~= seq![0x08u8]);
            assert(self.log() =~~= old(self).log() + init_ops());
        }
    }

    /// Wake the panel from deep sleep by re-running the full init sequence;
    /// deep sleep discarded all controller configuration, so there is no
    /// partial wake.
    pub fn wake_up(&mut self) -> (r: Result<(), DriverError>)
        ensures
            r == Ok::<(), DriverError>(()),
            final(self).log() == old(self).log() + init_ops(),
            final(self).power_state() == PowerState::Ready,
            final(self).background() == old(self).background(),
    {
        self.init();
        Ok(())
    }

    /// Enter deep sleep: records exactly [`sleep_ops`]. Refused unless the
    /// panel is ready; after it, only a wake-up is valid.
    pub fn sleep(&mut self) -> (r: Result<(), DriverError>)
        ensures
            old(self).power_state() == PowerState::Ready ==> (r == Ok::<(), DriverError>(())
                && final(self).log() == old(self).log() + sleep_ops() && final(self).power_state()
                == PowerState::Sleeping && final(self).background() == old(self).background()),
            old(self).power_state() != PowerState::Ready ==> (r == Err::<(), DriverError>(
                DriverError::NotReady,
            ) && *final(self) == *old(self)),
    {
        match self.state {
            PowerState::Ready => {},
            _ => {
                return Err(DriverError::NotReady);
            },
        }
        self.interface.wait_until_idle(IS_BUSY_LOW);
        let power_off: [u8; 1] = [0x00];
        self.interface.cmd_with_data(Command::PowerOff.address(), power_off.as_slice());
        self.interface.wait_until_idle(IS_BUSY_LOW);
        let check: [u8; 1] = [0xA5];
        self.interface.cmd_with_data(Command::DeepSleep.address(), check.as_slice());
        self.state = PowerState::Sleeping;
        proof {
            assert(power_off@ =~= seq![0x00u8]);
            assert(check@ =~= seq![0xA5u8]);
            assert(self.log() =~~= old(self).log() + sleep_ops());
        }
        Ok(())
    }

    /// Transfer a full frame to the panel's memory: records exactly
    /// [`update_frame_ops`] with the frame bytes. Refused while the panel
    /// is not ready, and refused — never truncated — when the buffer's
    /// length differs from [`NUM_DISPLAY_BYTES`].
    pub fn update_frame(&mut self, buffer: &[u8]) -> (r: Result<(), DriverError>)
        ensures
            old(self).power_state() != PowerState::Ready ==> (r == Err::<(), DriverError>(
                DriverError::NotReady,
            ) && *final(self) == *old(self)),
            old(self).power_state() == PowerState::Ready && buffer@.len() != NUM_DISPLAY_BYTES
                as int ==> (r == Err::<(), DriverError>(DriverError::BufferSizeMismatch) && *final(self) == *old(self)),
            old(self).power_state() == PowerState::Ready && buffer@.len() == NUM_DISPLAY_BYTES
                as int ==> (r == Ok::<(), DriverError>(()) && final(self).log() == old(self).log()
                + update_frame_ops(buffer@) && final(self).power_state() == PowerState::Ready
                && final(self).background() == old(self).background()),
    {
        match self.state {
            PowerState::Ready => {},
            _ => {
                return Err(DriverError::NotReady);
            },
        }
        if buffer.len() != NUM_DISPLAY_BYTES {
            return Err(DriverError::BufferSizeMismatch);
        }
        self.interface.wait_until_idle(IS_BUSY_LOW);
        self.interface.cmd_with_data(Command::DataStartTransmission1.address(), buffer);
        proof {
            assert(self.log() =~~= old(self).log() + update_frame_ops(buffer@));
        }
        Ok(())
    }

    /// Trigger a physical refresh of the frame already in panel memory:
    /// records exactly [`display_frame_ops`], whose final idle wait stands
    /// for the multi-second refresh. Refused while the panel is not ready.
    pub fn display_frame(&mut self) -> (r: Result<(), DriverError>)
        ensures
            old(self).power_state() == PowerState::Ready ==> (r == Ok::<(), DriverError>(())
                && final(self).log() == old(self).log() + display_frame_ops() && final(self).power_state() == PowerState::Ready && final(self).background() == old(
                self,
            ).background()),
            old(self).power_state() != PowerState::Ready ==> (r == Err::<(), DriverError>(
                DriverError::NotReady,
            ) && *final(self) == *old(self)),
    {
        match self.state {
            PowerState::Ready => {},
            _ => {
                return Err(DriverError::NotReady);
            },
        }
        let refresh: [u8; 1] = [0x00];
        self.interface.cmd_with_data(Command::DisplayRefresh.address(), refresh.as_slice());
        self.interface.delay_us(500);
        self.interface.wait_until_idle(IS_BUSY_LOW);
        proof {
            assert(refresh@ =~= seq![0x00u8]);
            assert(self.log() =~~= old(self).log() + display_frame_ops());
        }
        Ok(())
    }

    /// Transfer a frame and refresh in one composite step: the frame
    /// transfer, a re-asserted power-on, then the refresh, with no idle
    /// re-check between the phases.
    pub fn update_and_display_frame(&mut self, buffer: &[u8]) -> (r: Result<(), DriverError>)
        ensures
            old(self).power_state() != PowerState::Ready ==> (r == Err::<(), DriverError>(
                DriverError::NotReady,
            ) && *final(self) == *old(self)),
            old(self).power_state() == PowerState::Ready && buffer@.len() != NUM_DISPLAY_BYTES
                as int ==> (r == Err::<(), DriverError>(DriverError::BufferSizeMismatch) && *final(self) == *old(self)),
            old(self).power_state() == PowerState::Ready && buffer@.len() == NUM_DISPLAY_BYTES
                as int ==> (r == Ok::<(), DriverError>(()) && final(self).log() == old(self).log()
                + update_frame_ops(buffer@) + seq![BusOpView::Command(0x04u8)]
                + display_frame_ops() && final(self).power_state() == PowerState::Ready && final(self).background() == old(self).background()),
    {
        match self.update_frame(buffer) {
            Ok(()) => {},
            Err(e) => {
                return Err(e);
            },
        }
        self.interface.cmd(Command::PowerOn.address());
        match self.display_frame() {
            Ok(()) => {},
            Err(e) => {
                return Err(e);
            },
        }
        proof {
            assert(self.log() =~~= old(self).log() + update_frame_ops(buffer@) + seq![
                BusOpView::Command(0x04u8),
            ] + display_frame_ops());
        }
        Ok(())
    }

    /// Fill the panel's frame memory with the background color and refresh:
    /// records exactly [`clear_frame_ops`], streaming `width * height / 4`
    /// repetitions of the background fill byte without materializing a
    /// buffer. Refused while the panel is not ready.
    pub fn clear_frame(&mut self) -> (r: Result<(), DriverError>)
        ensures
            old(self).power_state() == PowerState::Ready ==> (r == Ok::<(), DriverError>(())
                && final(self).log() == old(self).log() + clear_frame_ops(old(self).background())
                && final(self).power_state() == PowerState::Ready && final(self).background()
                == old(self).background()),
            old(self).power_state() != PowerState::Ready ==> (r == Err::<(), DriverError>(
                DriverError::NotReady,
            ) && *final(self) == *old(self)),
    {
        match self.state {
            PowerState::Ready => {},
            _ => {
                return Err(DriverError::NotReady);
            },
        }
        self.interface.wait_until_idle(IS_BUSY_LOW);
        self.interface.cmd(Command::DataStartTransmission1.address());
        let fill = self.color.fill_byte();
        self.interface.data_x_times(fill, WIDTH * HEIGHT / 4);
        self.interface.cmd(Command::DataStop.address());
        self.interface.cmd(Command::DisplayRefresh.address());
        proof {
            assert(self.log() =~~= old(self).log() + clear_frame_ops(old(self).background()));
        }
        Ok(())
    }

    /// Set the background color bulk clears stream. Purely local state:
    /// never transmitted as a configuration command.
    pub fn set_background_color(&mut self, color: QuadColor)
        ensures
            final(self).background() == color,
            final(self).log() == old(self).log(),
            final(self).power_state() == old(self).power_state(),
    {
        self.color = color;
    }

    /// The current background color.
    pub fn background_color(&self) -> (r: &QuadColor)
        ensures
            *r == self.background(),
    {
        &self.color
    }

    /// Display width in pixels.
    pub fn width(&self) -> (r: u32)
        ensures
            r == WIDTH,
    {
        WIDTH
    }

    /// Display height in pixels.
    pub fn height(&self) -> (r: u32)
        ensures
            r == HEIGHT,
    {
        HEIGHT
    }

    /// Select a refresh look-up table. This panel variant supports no
    /// quick-refresh tables: the call fails explicitly and changes nothing,
    /// never silently succeeding.
    pub fn set_lut(&mut self, refresh_rate: Option<RefreshLut>) -> (r: Result<(), DriverError>)
        ensures
            r == Err::<(), DriverError>(DriverError::UnsupportedOperation),
            *final(self) == *old(self),
    {
        let _ = refresh_rate;
        Err(DriverError::UnsupportedOperation)
    }

    /// Record a suspension until the panel stops processing, for callers
    /// that must know a refresh has finished.
    pub fn wait_until_idle(&mut self) -> (r: Result<(), DriverError>)
        ensures
            r == Ok::<(), DriverError>(()),
            final(self).log() == old(self).log().push(BusOpView::WaitIdle(true)),
            final(self).power_state() == old(self).power_state(),
            final(self).background() == old(self).background(),
    {
        self.interface.wait_until_idle(IS_BUSY_LOW);
        Ok(())
    }

    /// Hand the recorded operations to the transport, oldest first, leaving
    /// the log empty.
    pub fn take_ops(&mut self) -> (r: Vec<BusOp>)
        ensures
            ops_as_views(r@) == old(self).log(),
            final(self).log() == Seq::<BusOpView>::empty(),
            final(self).power_state() == old(self).power_state(),
            final(self).background() == old(self).background(),
    {
        self.interface.take_ops()
    }
}

impl WaveshareDisplay for Epd7in5 {
    type DisplayColor = QuadColor;

    fn new() -> Self {
        Epd7in5::new()
    }

    fn sleep(&mut self) -> Result<(), DriverError> {
        Epd7in5::sleep(self)
    }

    fn wake_up(&mut self) -> Result<(), DriverError> {
        Epd7in5::wake_up(self)
    }

    fn set_background_color(&mut self, color: QuadColor) {
        Epd7in5::set_background_color(self, color)
    }

    fn background_color(&self) -> &QuadColor {
        Epd7in5::background_color(self)
    }

    fn width(&self) -> u32 {
        Epd7in5::width(self)
    }

    fn height(&self) -> u32 {
        Epd7in5::height(self)
    }

    fn update_frame(&mut self, buffer: &[u8]) -> Result<(), DriverError> {
        Epd7in5::update_frame(self, buffer)
    }

    fn display_frame(&mut self) -> Result<(), DriverError> {
        Epd7in5::display_frame(self)
    }

    fn update_and_display_frame(&mut self, buffer: &[u8]) -> Result<(), DriverError> {
        Epd7in5::update_and_display_frame(self, buffer)
    }

    fn clear_frame(&mut self) -> Result<(), DriverError> {
        Epd7in5::clear_frame(self)
    }

    fn set_lut(&mut self, refresh_rate: Option<RefreshLut>) -> Result<(), DriverError> {
        Epd7in5::set_lut(self, refresh_rate)
    }

    fn wait_until_idle(&mut self) -> Result<(), DriverError> {
        Epd7in5::wait_until_idle(self)
    }

    fn take_ops(&mut self) -> Vec<BusOp> {
        Epd7in5::take_ops(self)
    }
}

} // verus!
