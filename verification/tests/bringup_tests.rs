use lora_node::boot::{bring_up, BootError, BUS_RATE_KHZ, DMA_BYTE_CAPACITY, MISO_PIN, MOSI_PIN, SCK_PIN};
use lora_node::bus::{build_bus, BusConstructionError, BusMode};
use lora_node::dma::DmaDescriptorRing;
use lora_node::peripherals::{PeripheralAcquisitionError, PinRole, Platform, PullMode};
use lora_node::radio::{ChipHandshake, RadioInitError};

#[test]
fn first_acquire_succeeds_second_is_rejected() {
    let mut platform = Platform::new();
    assert!(platform.try_acquire().is_ok());
    match platform.try_acquire() {
        Err(PeripheralAcquisitionError::AlreadyTaken) => {}
        Ok(_) => panic!("second acquisition must never hand out a duplicate set"),
    }
}

#[test]
fn second_bring_up_fails_on_acquisition() {
    let mut platform = Platform::new();
    assert!(bring_up(&mut platform, ChipHandshake::Acknowledged).is_ok());
    match bring_up(&mut platform, ChipHandshake::Acknowledged) {
        Err(BootError::Peripherals(PeripheralAcquisitionError::AlreadyTaken)) => {}
        _ => panic!("second bring-up must fail on peripheral acquisition"),
    }
}

#[test]
fn descriptor_rings_sized_from_capacity() {
    // 32000 bytes at 4092 bytes per descriptor: 8 descriptors each way.
    let ring = DmaDescriptorRing::new(DMA_BYTE_CAPACITY);
    assert_eq!(ring.capacity_value(), 32000);
    assert_eq!(ring.tx_len(), 8);
    assert_eq!(ring.rx_len(), 8);
}

#[test]
fn descriptor_ring_boundaries() {
    let one = DmaDescriptorRing::new(1);
    assert_eq!(one.tx_len(), 1);
    let exact = DmaDescriptorRing::new(4092);
    assert_eq!(exact.tx_len(), 1);
    let over = DmaDescriptorRing::new(4093);
    assert_eq!(over.tx_len(), 2);
    let empty = DmaDescriptorRing::new(0);
    assert_eq!(empty.tx_len(), 0);
    assert_eq!(empty.rx_len(), 0);
}

#[test]
fn descriptor_sizing_is_deterministic() {
    let a = DmaDescriptorRing::new(DMA_BYTE_CAPACITY);
    let b = DmaDescriptorRing::new(DMA_BYTE_CAPACITY);
    assert_eq!(a.tx_len(), b.tx_len());
    assert_eq!(a.rx_len(), b.rx_len());
}

fn fresh_parts() -> lora_node::peripherals::PeripheralSet {
    let mut platform = Platform::new();
    platform.try_acquire().unwrap()
}

#[test]
fn bus_rejects_zero_clock_rate() {
    let set = fresh_parts();
    let mut gpio = set.gpio;
    let ring = DmaDescriptorRing::new(DMA_BYTE_CAPACITY);
    let r = build_bus(
        set.spi2,
        &set.clocks,
        &mut gpio,
        SCK_PIN,
        MOSI_PIN,
        MISO_PIN,
        0,
        BusMode::Mode0,
        set.dma_channel0,
        ring,
    );
    assert_eq!(r.err(), Some(BusConstructionError::ClockRateConflict));
}

#[test]
fn bus_rejects_duplicate_data_lines() {
    let set = fresh_parts();
    let mut gpio = set.gpio;
    let ring = DmaDescriptorRing::new(DMA_BYTE_CAPACITY);
    let r = build_bus(
        set.spi2,
        &set.clocks,
        &mut gpio,
        SCK_PIN,
        SCK_PIN,
        MISO_PIN,
        BUS_RATE_KHZ,
        BusMode::Mode0,
        set.dma_channel0,
        ring,
    );
    assert_eq!(r.err(), Some(BusConstructionError::PinConflict));
}

#[test]
fn bus_rejects_a_line_claimed_elsewhere() {
    let set = fresh_parts();
    let mut gpio = set.gpio;
    let taken = gpio.claim_output(SCK_PIN, PinRole::Heartbeat, true);
    assert!(taken.is_some());
    let ring = DmaDescriptorRing::new(DMA_BYTE_CAPACITY);
    let r = build_bus(
        set.spi2,
        &set.clocks,
        &mut gpio,
        SCK_PIN,
        MOSI_PIN,
        MISO_PIN,
        BUS_RATE_KHZ,
        BusMode::Mode0,
        set.dma_channel0,
        ring,
    );
    assert_eq!(r.err(), Some(BusConstructionError::PinConflict));
}

#[test]
fn gpio_line_claimed_once_only() {
    let set = fresh_parts();
    let mut gpio = set.gpio;
    assert!(gpio.claim_output(35, PinRole::Heartbeat, true).is_some());
    assert!(gpio.claim_output(35, PinRole::Reset, false).is_none());
    assert!(gpio.claim_input(35, PinRole::Busy, PullMode::Floating).is_none());
    assert!(gpio.claim_input(13, PinRole::Busy, PullMode::Floating).is_some());
}

#[test]
fn silent_chip_fails_radio_initialization() {
    let mut platform = Platform::new();
    match bring_up(&mut platform, ChipHandshake::TimedOut) {
        Err(BootError::Radio(RadioInitError::HandshakeTimedOut)) => {}
        _ => panic!("a silent chip must fail bring-up at radio initialization"),
    }
}

#[test]
fn output_pin_level_reads_back_and_toggles() {
    let set = fresh_parts();
    let mut gpio = set.gpio;
    let mut led = gpio.claim_output(35, PinRole::Heartbeat, true).unwrap();
    assert!(led.is_set_high());
    led.toggle();
    assert!(!led.is_set_high());
    led.set_level(true);
    assert!(led.is_set_high());
}
