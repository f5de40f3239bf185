//! Construction of the DMA-backed synchronous serial bus.
//!
//! The bus is bound to one clock-rate/mode pair and three data lines
//! (clock, outbound data, inbound data).  There is no hardware
//! chip-select line: chip select is a plain GPIO output driven around
//! multi-step transactions by the radio layer.  The transmit and receive
//! descriptor rings are attached at construction, and the DMA channel is
//! configured for non-blocking transfers at a fixed priority tier.  Any
//! pin or clock-rate conflict is a construction-time error: it indicates
//! a static misconfiguration, not a transient condition.

use vstd::prelude::*;
use crate::dma::DmaDescriptorRing;
use crate::peripherals::ClockConfig;
use crate::peripherals::DmaChannel;
use crate::peripherals::GpioBank;
use crate::peripherals::SpiPeripheral;

verus! {

/// The highest clock rate the bus model accepts, in kilohertz.
pub const MAX_BUS_CLOCK_KHZ: u32 = 80000;

/// Clock polarity/phase mode of the synchronous bus.
#[derive(Clone, Copy, Debug, PartialEq, Eq, Structural)]
pub enum BusMode {
    Mode0,
    Mode1,
    Mode2,
    Mode3,
}

/// DMA priority tier the channel is configured at.
#[derive(Clone, Copy, Debug, PartialEq, Eq, Structural)]
pub enum DmaPriorityTier {
    Priority0,
    Priority1,
    Priority2,
}

/// A static misconfiguration found while building the bus.
#[derive(Clone, Copy, Debug, PartialEq, Eq, Structural)]
pub enum BusConstructionError {
    /// Two of the three data lines name the same GPIO number, or one of
    /// them is already claimed by another component.
    PinConflict,
    /// The requested clock rate is zero or above the supported ceiling.
    ClockRateConflict,
}

/// Whether `rate_khz` is a clock rate the bus supports.
pub open spec fn clock_rate_ok(rate_khz: u32) -> bool {
    1 <= rate_khz <= MAX_BUS_CLOCK_KHZ
}

/// Whether the three data lines are mutually distinct and all still
/// unclaimed in `gpio`.
pub open spec fn bus_pins_ok(gpio: GpioBank, sck: u8, mosi: u8, miso: u8) -> bool {
    &&& sck != mosi
    &&& sck != miso
    &&& mosi != miso
    &&& !gpio.is_claimed(sck)
    &&& !gpio.is_claimed(mosi)
    &&& !gpio.is_claimed(miso)
}

/// A serial bus bound to one clock-rate/mode pair, three data lines and
/// its descriptor rings; exclusively owned by the radio transport after
/// construction.
pub struct BusHandle {
    peripheral_index: u8,
    rate_khz: u32,
    mode: BusMode,
    sck: u8,
    mosi: u8,
    miso: u8,
    ring: DmaDescriptorRing,
    dma_index: u8,
    dma_priority: DmaPriorityTier,
    dma_async: bool,
}

impl BusHandle {
    /// The index of the bus peripheral the handle was built on.
    pub closed spec fn peripheral_index(self) -> u8 {
        self.peripheral_index
    }

    /// The configured clock rate in kilohertz.
    pub closed spec fn rate_khz(self) -> u32 {
        self.rate_khz
    }

    /// The configured clock polarity/phase mode.
    pub closed spec fn mode(self) -> BusMode {
        self.mode
    }

    /// The GPIO number of the clock line.
    pub closed spec fn sck(self) -> u8 {
        self.sck
    }

    /// The GPIO number of the outbound data line.
    pub closed spec fn mosi(self) -> u8 {
        self.mosi
    }

    /// The GPIO number of the inbound data line.
    pub closed spec fn miso(self) -> u8 {
        self.miso
    }

    /// The attached descriptor rings.
    pub closed spec fn ring(self) -> DmaDescriptorRing {
        self.ring
    }

    /// The index of the attached DMA channel.
    pub closed spec fn dma_index(self) -> u8 {
        self.dma_index
    }

    /// The priority tier the DMA channel was configured at.
    pub closed spec fn dma_priority(self) -> DmaPriorityTier {
        self.dma_priority
    }

    /// Whether the DMA channel was configured for non-blocking
    /// operation.
    pub closed spec fn dma_async(self) -> bool {
        self.dma_async
    }

    /// A bus handle built by `build_bus` from the given parts: rate,
    /// mode, pins and rings are exactly the ones handed in, and the DMA
    /// channel is attached in non-blocking mode at the lowest priority
    /// tier.
    pub open spec fn built_from(
        self,
        spi: SpiPeripheral,
        rate_khz: u32,
        mode: BusMode,
        sck: u8,
        mosi: u8,
        miso: u8,
        dma: DmaChannel,
        ring: DmaDescriptorRing,
    ) -> bool {
        &&& self.peripheral_index() == spi.index()
        &&& self.rate_khz() == rate_khz
        &&& self.mode() == mode
        &&& self.sck() == sck
        &&& self.mosi() == mosi
        &&& self.miso() == miso
        &&& self.ring() == ring
        &&& self.dma_index() == dma.index()
        &&& self.dma_priority() == DmaPriorityTier::Priority0
        &&& self.dma_async()
    }
}

/// Build the bus: bind the clock rate and mode, claim the three data
/// lines, and attach the descriptor rings to the DMA channel in
/// non-blocking mode at the lowest priority tier.  Construction succeeds
/// exactly when the clock rate is supported and the three lines are
/// distinct and unclaimed; otherwise the error names the conflict and
/// the GPIO bank is left unchanged.
pub fn build_bus(
    spi: SpiPeripheral,
    clocks: &ClockConfig,
    gpio: &mut GpioBank,
    sck: u8,
    mosi: u8,
    miso: u8,
    rate_khz: u32,
    mode: BusMode,
    dma: DmaChannel,
    ring: DmaDescriptorRing,
) -> (r: Result<BusHandle, BusConstructionError>)
    ensures
        r is Ok <==> clock_rate_ok(rate_khz) && bus_pins_ok(*old(gpio), sck, mosi, miso),
        r is Ok ==> {
            &&& r->Ok_0.built_from(spi, rate_khz, mode, sck, mosi, miso, dma, ring)
            &&& final(gpio).claimed() == old(gpio).claimed().insert(sck).insert(mosi).insert(
                miso,
            )
        },
        r is Err ==> *final(gpio) == *old(gpio),
        r is Err && !clock_rate_ok(rate_khz) ==> r->Err_0
            == BusConstructionError::ClockRateConflict,
        r is Err && clock_rate_ok(rate_khz) ==> r->Err_0 == BusConstructionError::PinConflict,
{
    if rate_khz < 1 || rate_khz > MAX_BUS_CLOCK_KHZ {
        return Result::Err(BusConstructionError::ClockRateConflict);
    }
    if sck == mosi || sck == miso || mosi == miso {
        return Result::Err(BusConstructionError::PinConflict);
    }
    if gpio.is_line_claimed(sck) || gpio.is_line_claimed(mosi) || gpio.is_line_claimed(miso) {
        return Result::Err(BusConstructionError::PinConflict);
    }
    gpio.claim_line(sck);
    gpio.claim_line(mosi);
    gpio.claim_line(miso);
    Result::Ok(
        BusHandle {
            peripheral_index: spi.index_value(),
            rate_khz,
            mode,
            sck,
            mosi,
            miso,
            ring,
            dma_index: dma.index_value(),
            dma_priority: DmaPriorityTier::Priority0,
            dma_async: true,
        },
    )
}

} // verus!
