use lora_node::boot::{BUS_RATE_KHZ, DMA_BYTE_CAPACITY, RNG_SEED};
use lora_node::bus::{build_bus, BusMode};
use lora_node::dma::DmaDescriptorRing;
use lora_node::identity::DeviceIdentity;
use lora_node::peripherals::{PinRole, Platform, PullMode, TimeSource};
use lora_node::radio::{ChipConfig, ChipHandshake, ChipKind, GenericRadio, InterfaceVariant, RadioAdapter, TcxoVoltage};
use lora_node::session::{
    JoinError, JoinOutcome, Phase, Region, SessionController, SessionState, UplinkOutcome,
};

fn fresh_controller() -> SessionController {
    let mut platform = Platform::new();
    let set = platform.try_acquire().unwrap();
    let mut gpio = set.gpio;
    let reset = gpio.claim_output(12, PinRole::Reset, true).unwrap();
    let dio1 = gpio.claim_input(14, PinRole::DataReady, PullMode::Floating).unwrap();
    let busy = gpio.claim_input(13, PinRole::Busy, PullMode::Floating).unwrap();
    let ring = DmaDescriptorRing::new(DMA_BYTE_CAPACITY);
    let bus = build_bus(
        set.spi2,
        &set.clocks,
        &mut gpio,
        9,
        10,
        11,
        BUS_RATE_KHZ,
        BusMode::Mode0,
        set.dma_channel0,
        ring,
    )
    .unwrap();
    let config = ChipConfig {
        chip: ChipKind::Sx1262,
        tcxo_ctrl: Some(TcxoVoltage::Ctrl1V7),
        use_dcdc: true,
        rx_boost: false,
    };
    let iv = InterfaceVariant::new(reset, dio1, busy);
    let radio = GenericRadio::initialize(bus, iv, config, ChipHandshake::Acknowledged).unwrap();
    let adapter = RadioAdapter::specialize(radio);
    let time_source = TimeSource::from_timer(set.timer0);
    SessionController::new(Region::Eu868, adapter, time_source, RNG_SEED)
}

#[test]
fn join_acceptance_stores_the_session_state() {
    let mut ctrl = fresh_controller();
    assert_eq!(ctrl.phase_value(), Phase::Uninitialized);
    assert!(ctrl.session_value().is_none());
    ctrl.start_join(DeviceIdentity::resolve(None, None, None));
    assert_eq!(ctrl.phase_value(), Phase::Joining);
    let session = SessionState { dev_addr: 0x00a1b2c3, fcnt_up: 0, fcnt_down: 0 };
    ctrl.resolve_join(JoinOutcome::Accepted(session));
    assert_eq!(ctrl.phase_value(), Phase::Joined);
    assert_eq!(ctrl.session_value(), Some(session));
}

#[test]
fn join_failure_is_fatal_and_keeps_no_session() {
    let mut ctrl = fresh_controller();
    ctrl.start_join(DeviceIdentity::resolve(None, None, None));
    ctrl.resolve_join(JoinOutcome::Failed(JoinError::Rejected));
    assert_eq!(ctrl.phase_value(), Phase::Fatal);
    assert!(ctrl.session_value().is_none());
}

#[test]
fn sent_uplink_advances_the_frame_counter() {
    let mut ctrl = fresh_controller();
    ctrl.start_join(DeviceIdentity::resolve(None, None, None));
    ctrl.resolve_join(JoinOutcome::Accepted(SessionState {
        dev_addr: 7,
        fcnt_up: 0,
        fcnt_down: 0,
    }));
    ctrl.start_uplink();
    assert_eq!(ctrl.phase_value(), Phase::SendingUplink);
    ctrl.resolve_uplink(UplinkOutcome::Sent);
    assert_eq!(ctrl.phase_value(), Phase::Joined);
    assert_eq!(ctrl.session_value().unwrap().fcnt_up, 1);
    assert_eq!(ctrl.session_value().unwrap().dev_addr, 7);
}

#[test]
fn failed_uplink_is_tolerated_and_counter_unchanged() {
    let mut ctrl = fresh_controller();
    ctrl.start_join(DeviceIdentity::resolve(None, None, None));
    ctrl.resolve_join(JoinOutcome::Accepted(SessionState {
        dev_addr: 7,
        fcnt_up: 3,
        fcnt_down: 0,
    }));
    ctrl.start_uplink();
    ctrl.resolve_uplink(UplinkOutcome::TransmitFailed);
    // The controller returns to the joined phase and retries at the
    // next scheduled tick; nothing was escalated.
    assert_eq!(ctrl.phase_value(), Phase::Joined);
    assert_eq!(ctrl.session_value().unwrap().fcnt_up, 3);
    ctrl.start_uplink();
    ctrl.resolve_uplink(UplinkOutcome::Sent);
    assert_eq!(ctrl.session_value().unwrap().fcnt_up, 4);
}
