//! Radio transport assembly.
//!
//! The transport is layered: the chip-interface variant wraps the three
//! radio-control lines (reset, data-ready, busy); the generic radio
//! wraps the bus handle, the interface variant and the chip
//! configuration after the chip acknowledges its reset/configuration
//! handshake; the LoRaWAN adapter wraps the generic radio together with
//! the fixed maximum transmit power ceiling.  Ownership is strictly
//! nested, and the handshake itself is outside work: its outcome is
//! handed in as a value, and assembly is verified for every outcome.

use vstd::prelude::*;
use crate::bus::BusHandle;
use crate::peripherals::InputPin;
use crate::peripherals::OutputPin;
use crate::peripherals::PinRole;

verus! {

/// The maximum transmit power the LoRaWAN adapter is allowed to use, in
/// dBm.
pub const MAX_TX_POWER: u8 = 14;

/// The radio chip family the driver is configured for.
#[derive(Clone, Copy, Debug, PartialEq, Eq, Structural)]
pub enum ChipKind {
    Sx1262,
}

/// Supply voltage the chip's temperature-compensated oscillator control
/// is driven at.
#[derive(Clone, Copy, Debug, PartialEq, Eq, Structural)]
pub enum TcxoVoltage {
    Ctrl1V7,
    Ctrl3V0,
}

/// Static configuration of the radio chip.
#[derive(Clone, Copy, Debug, PartialEq, Eq, Structural)]
pub struct ChipConfig {
    pub chip: ChipKind,
    pub tcxo_ctrl: Option<TcxoVoltage>,
    pub use_dcdc: bool,
    pub rx_boost: bool,
}

/// The chip's answer to the reset/configuration handshake, observed by
/// the outside driver within the chip's expected timing.
#[derive(Clone, Copy, Debug, PartialEq, Eq, Structural)]
pub enum ChipHandshake {
    Acknowledged,
    TimedOut,
}

/// The chip did not acknowledge reset/configuration within its expected
/// timing.
#[derive(Clone, Copy, Debug, PartialEq, Eq, Structural)]
pub enum RadioInitError {
    HandshakeTimedOut,
}

/// The glue object translating generic reset/busy/data-ready signaling
/// into the timing the radio chip expects.  It owns the three control
/// lines; no secondary interrupt or extra line is used.
pub struct InterfaceVariant {
    reset: OutputPin,
    dio1: InputPin,
    busy: InputPin,
}

impl InterfaceVariant {
    /// The reset line.
    pub closed spec fn reset(self) -> OutputPin {
        self.reset
    }

    /// The data-ready line.
    pub closed spec fn dio1(self) -> InputPin {
        self.dio1
    }

    /// The busy line.
    pub closed spec fn busy(self) -> InputPin {
        self.busy
    }

    /// Build the interface variant from the three control lines.  Each
    /// line must have been claimed under the electrical role the chip
    /// expects of it.
    pub fn new(reset: OutputPin, dio1: InputPin, busy: InputPin) -> (r: InterfaceVariant)
        requires
            reset.role() == PinRole::Reset,
            dio1.role() == PinRole::DataReady,
            busy.role() == PinRole::Busy,
        ensures
            r.reset() == reset,
            r.dio1() == dio1,
            r.busy() == busy,
    {
        InterfaceVariant { reset, dio1, busy }
    }
}

/// The generic long-range radio: the bus handle, the interface variant
/// and the chip configuration, assembled after a successful handshake.
pub struct GenericRadio {
    bus: BusHandle,
    iv: InterfaceVariant,
    config: ChipConfig,
}

impl GenericRadio {
    /// The bus the radio drives its transfers on.
    pub closed spec fn bus(self) -> BusHandle {
        self.bus
    }

    /// The interface variant the radio signals through.
    pub closed spec fn iv(self) -> InterfaceVariant {
        self.iv
    }

    /// The chip configuration the radio was initialized with.
    pub closed spec fn config(self) -> ChipConfig {
        self.config
    }

    /// Construct the generic radio from its parts, given the observed
    /// outcome of the chip's reset/configuration handshake.  The radio
    /// exists exactly when the chip acknowledged; a timeout is the
    /// initialization error, whatever the parts were.
    pub fn initialize(bus: BusHandle, iv: InterfaceVariant, config: ChipConfig, handshake: ChipHandshake) -> (r:
        Result<GenericRadio, RadioInitError>)
        ensures
            r is Ok <==> handshake == ChipHandshake::Acknowledged,
            r is Ok ==> {
                &&& r->Ok_0.bus() == bus
                &&& r->Ok_0.iv() == iv
                &&& r->Ok_0.config() == config
            },
            r is Err ==> r->Err_0 == RadioInitError::HandshakeTimedOut,
    {
        match handshake {
            ChipHandshake::Acknowledged => Result::Ok(GenericRadio { bus, iv, config }),
            ChipHandshake::TimedOut => Result::Err(RadioInitError::HandshakeTimedOut),
        }
    }
}

/// The LoRaWAN-capable radio adapter: the generic radio specialized with
/// the fixed maximum transmit power ceiling.
pub struct RadioAdapter {
    radio: GenericRadio,
    max_tx_power: u8,
}

impl RadioAdapter {
    /// The generic radio the adapter wraps.
    pub closed spec fn radio(self) -> GenericRadio {
        self.radio
    }

    /// The transmit power ceiling the adapter enforces, in dBm.
    pub closed spec fn max_tx_power(self) -> u8 {
        self.max_tx_power
    }

    /// Specialize the generic radio into the LoRaWAN adapter.  This is a
    /// pure type-level wrap with no I/O: the adapter owns exactly the
    /// given radio and carries the fixed power ceiling.
    pub fn specialize(radio: GenericRadio) -> (r: RadioAdapter)
        ensures
            r.radio() == radio,
            r.max_tx_power() == MAX_TX_POWER,
    {
        RadioAdapter { radio, max_tx_power: MAX_TX_POWER }
    }
}

} // verus!
