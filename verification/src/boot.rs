//! The bring-up sequence: from the untouched platform to a node ready
//! to join.
//!
//! Bring-up runs once, sequentially, on the main task: take the
//! peripheral singleton, freeze the boot-default clocks, install the
//! timer channel as the scheduler's time source, claim the GPIO lines
//! under their electrical roles, size the DMA descriptor rings, build
//! the bus, assemble the layered radio transport, and wrap everything in
//! the session controller.  The chip's reset/configuration handshake is
//! outside work; its observed outcome is handed in, and bring-up is
//! verified for both outcomes.

use vstd::prelude::*;
use crate::bus::BusConstructionError;
use crate::bus::BusMode;
use crate::bus::DmaPriorityTier;
use crate::bus::build_bus;
use crate::dma::DmaDescriptorRing;
use crate::node::Line;
use crate::node::Node;
use crate::peripherals::PeripheralAcquisitionError;
use crate::peripherals::PinRole;
use crate::peripherals::Platform;
use crate::peripherals::PullMode;
use crate::peripherals::TimeSource;
use crate::peripherals::acquire_granted;
use crate::radio::ChipConfig;
use crate::radio::ChipHandshake;
use crate::radio::ChipKind;
use crate::radio::GenericRadio;
use crate::radio::InterfaceVariant;
use crate::radio::MAX_TX_POWER;
use crate::radio::RadioAdapter;
use crate::radio::RadioInitError;
use crate::radio::TcxoVoltage;
use crate::session::Phase;
use crate::session::Region;
use crate::session::SessionController;

verus! {

/// GPIO number of the heartbeat output line.
pub const LED_PIN: u8 = 35;

/// GPIO number of the radio chip-select line, active low.
pub const CHIP_SELECT_PIN: u8 = 8;

/// GPIO number of the radio reset line, active low.
pub const RESET_PIN: u8 = 12;

/// GPIO number of the radio data-ready line.
pub const DIO1_PIN: u8 = 14;

/// GPIO number of the radio busy line.
pub const BUSY_PIN: u8 = 13;

/// GPIO number of the bus clock line.
pub const SCK_PIN: u8 = 9;

/// GPIO number of the outbound bus data line.
pub const MOSI_PIN: u8 = 10;

/// GPIO number of the inbound bus data line.
pub const MISO_PIN: u8 = 11;

/// Clock rate of the bus, in kilohertz.
pub const BUS_RATE_KHZ: u32 = 100;

/// Maximum in-flight byte count the DMA descriptor rings are sized for.
pub const DMA_BYTE_CAPACITY: usize = 32000;

/// Seed handed to the protocol stack's pseudo-random generator.
pub const RNG_SEED: u64 = 42;

/// A fatal boot-time fault: continued operation would be meaningless,
/// so bring-up stops at the first one.
#[derive(Clone, Copy, Debug, PartialEq, Eq, Structural)]
pub enum BootError {
    /// The peripheral singleton had already been taken.
    Peripherals(PeripheralAcquisitionError),
    /// A pin or clock-rate conflict while building the bus.
    Bus(BusConstructionError),
    /// The radio chip did not acknowledge its handshake.
    Radio(RadioInitError),
}

/// The chip configuration of the reference board.
pub open spec fn reference_chip_config() -> ChipConfig {
    ChipConfig {
        chip: ChipKind::Sx1262,
        tcxo_ctrl: Option::Some(TcxoVoltage::Ctrl1V7),
        use_dcdc: true,
        rx_boost: false,
    }
}

/// The node a successful bring-up hands back: every layer carries
/// exactly the reference configuration, nothing has run yet, and the
/// bring-up line is the whole log.
pub open spec fn is_reference_node(n: Node) -> bool {
    &&& n.wf()
    &&& n.phase() == Phase::Uninitialized
    &&& n.log() == seq![Line::Init]
    &&& !n.heartbeat_spawned()
    // Heartbeat output: claimed on its line, driven high.
    &&& n.led().number() == LED_PIN
    &&& n.led().role() == PinRole::Heartbeat
    &&& n.led().level_high()
    // Session controller: regional plan, seed, no identity yet.
    &&& n.ctrl().region() == Region::Eu868
    &&& n.ctrl().seed() == RNG_SEED
    &&& n.ctrl().identity() is None
    &&& n.ctrl().session() is None
    // Radio adapter: power ceiling and chip configuration.
    &&& n.ctrl().radio().max_tx_power() == MAX_TX_POWER
    &&& n.ctrl().radio().radio().config() == reference_chip_config()
    // Interface variant: the three control lines under their roles,
    // reset driven high (inactive), inputs without internal pull.
    &&& n.ctrl().radio().radio().iv().reset().number() == RESET_PIN
    &&& n.ctrl().radio().radio().iv().reset().role() == PinRole::Reset
    &&& n.ctrl().radio().radio().iv().reset().level_high()
    &&& n.ctrl().radio().radio().iv().dio1().number() == DIO1_PIN
    &&& n.ctrl().radio().radio().iv().dio1().role() == PinRole::DataReady
    &&& n.ctrl().radio().radio().iv().dio1().pull() == PullMode::Floating
    &&& n.ctrl().radio().radio().iv().busy().number() == BUSY_PIN
    &&& n.ctrl().radio().radio().iv().busy().role() == PinRole::Busy
    &&& n.ctrl().radio().radio().iv().busy().pull() == PullMode::Floating
    // Bus: rate, mode, data lines, rings and DMA attachment.
    &&& n.ctrl().radio().radio().bus().rate_khz() == BUS_RATE_KHZ
    &&& n.ctrl().radio().radio().bus().mode() == BusMode::Mode0
    &&& n.ctrl().radio().radio().bus().sck() == SCK_PIN
    &&& n.ctrl().radio().radio().bus().mosi() == MOSI_PIN
    &&& n.ctrl().radio().radio().bus().miso() == MISO_PIN
    &&& n.ctrl().radio().radio().bus().ring().byte_capacity() == DMA_BYTE_CAPACITY
    &&& n.ctrl().radio().radio().bus().ring().well_sized()
    &&& n.ctrl().radio().radio().bus().dma_priority() == DmaPriorityTier::Priority0
    &&& n.ctrl().radio().radio().bus().dma_async()
}

/// Run the bring-up sequence once.
///
/// It succeeds exactly when the peripheral singleton was still free and
/// the radio chip acknowledged its handshake, and then hands back the
/// reference node, ready for the join request.  A second bring-up in
/// the same process fails on acquisition; a silent chip fails on radio
/// initialization.  Either way the singleton counts as taken
/// afterwards.
pub fn bring_up(platform: &mut Platform, handshake: ChipHandshake) -> (r: Result<Node, BootError>)
    ensures
        final(platform).taken(),
        r is Ok <==> acquire_granted(*old(platform)) && handshake == ChipHandshake::Acknowledged,
        r is Ok ==> is_reference_node(r->Ok_0),
        !acquire_granted(*old(platform)) ==> r == Result::<Node, BootError>::Err(
            BootError::Peripherals(PeripheralAcquisitionError::AlreadyTaken),
        ),
        acquire_granted(*old(platform)) && handshake == ChipHandshake::TimedOut ==> r
            == Result::<Node, BootError>::Err(BootError::Radio(RadioInitError::HandshakeTimedOut)),
{
    let set = match platform.try_acquire() {
        Result::Ok(set) => set,
        Result::Err(e) => {
            return Result::Err(BootError::Peripherals(e));
        },
    };
    let clocks = set.clocks;
    let time_source = TimeSource::from_timer(set.timer0);
    let mut gpio = set.gpio;

    let led = gpio.claim_output(LED_PIN, PinRole::Heartbeat, true).unwrap();
    // The chip-select line is reserved and parked at its inactive level;
    // the reference wiring never drives it around a transaction.
    gpio.claim_output(CHIP_SELECT_PIN, PinRole::ChipSelect, true).unwrap();
    let reset = gpio.claim_output(RESET_PIN, PinRole::Reset, true).unwrap();
    let dio1 = gpio.claim_input(DIO1_PIN, PinRole::DataReady, PullMode::Floating).unwrap();
    let busy = gpio.claim_input(BUSY_PIN, PinRole::Busy, PullMode::Floating).unwrap();

    let ring = DmaDescriptorRing::new(DMA_BYTE_CAPACITY);
    let bus = match build_bus(
        set.spi2,
        &clocks,
        &mut gpio,
        SCK_PIN,
        MOSI_PIN,
        MISO_PIN,
        BUS_RATE_KHZ,
        BusMode::Mode0,
        set.dma_channel0,
        ring,
    ) {
        Result::Ok(bus) => bus,
        Result::Err(e) => {
            return Result::Err(BootError::Bus(e));
        },
    };

    let config = ChipConfig {
        chip: ChipKind::Sx1262,
        tcxo_ctrl: Option::Some(TcxoVoltage::Ctrl1V7),
        use_dcdc: true,
        rx_boost: false,
    };
    let iv = InterfaceVariant::new(reset, dio1, busy);
    let radio = match GenericRadio::initialize(bus, iv, config, handshake) {
        Result::Ok(radio) => radio,
        Result::Err(e) => {
            return Result::Err(BootError::Radio(e));
        },
    };
    let adapter = RadioAdapter::specialize(radio);

    let ctrl = SessionController::new(Region::Eu868, adapter, time_source, RNG_SEED);
    Result::Ok(Node::new(ctrl, led))
}

} // verus!
