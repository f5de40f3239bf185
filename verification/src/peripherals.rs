//! Exclusive acquisition of the on-chip peripheral set, and typed GPIO
//! pin handles.
//!
//! The peripheral set is a singleton: it may be taken at most once per
//! process.  Taking it a second time is rejected, never answered with a
//! duplicate handle.  From the set, individual peripherals are moved out
//! piecewise, each into exactly one consuming component; the handle types
//! are not `Clone`, so a handle can never be duplicated afterwards.

use vstd::prelude::*;

verus! {

/// Attempting to take the peripheral singleton a second time.
#[derive(Clone, Copy, Debug, PartialEq, Eq, Structural)]
pub enum PeripheralAcquisitionError {
    AlreadyTaken,
}

/// The electrical role a GPIO line is bound to at construction; the role
/// is immutable thereafter.
#[derive(Clone, Copy, Debug, PartialEq, Eq, Structural)]
pub enum PinRole {
    ChipSelect,
    Reset,
    Busy,
    DataReady,
    Heartbeat,
    BusClock,
    BusMosi,
    BusMiso,
}

/// Internal pull-resistor configuration of an input line.
#[derive(Clone, Copy, Debug, PartialEq, Eq, Structural)]
pub enum PullMode {
    Floating,
    PullUp,
    PullDown,
}

/// A GPIO line claimed as a digital output.  It carries a boolean logic
/// level that can be read back and toggled; its number and role never
/// change after construction.
pub struct OutputPin {
    number: u8,
    role: PinRole,
    level_high: bool,
}

impl OutputPin {
    /// The GPIO number the line was claimed under.
    pub closed spec fn number(self) -> u8 {
        self.number
    }

    /// The electrical role the line was bound to.
    pub closed spec fn role(self) -> PinRole {
        self.role
    }

    /// The current logic level: true for high, false for low.
    pub closed spec fn level_high(self) -> bool {
        self.level_high
    }

    /// Read the current logic level back.
    pub fn is_set_high(&self) -> (r: bool)
        ensures
            r == self.level_high(),
    {
        self.level_high
    }

    /// Drive the line to the given level.
    pub fn set_level(&mut self, high: bool)
        ensures
            final(self).level_high() == high,
            final(self).number() == old(self).number(),
            final(self).role() == old(self).role(),
    {
        self.level_high = high;
    }

    /// Invert the current logic level.
    pub fn toggle(&mut self)
        ensures
            final(self).level_high() == !old(self).level_high(),
            final(self).number() == old(self).number(),
            final(self).role() == old(self).role(),
    {
        self.level_high = !self.level_high;
    }
}

/// A GPIO line claimed as a digital input, with its pull configuration
/// fixed at construction.
pub struct InputPin {
    number: u8,
    role: PinRole,
    pull: PullMode,
}

impl InputPin {
    /// The GPIO number the line was claimed under.
    pub closed spec fn number(self) -> u8 {
        self.number
    }

    /// The electrical role the line was bound to.
    pub closed spec fn role(self) -> PinRole {
        self.role
    }

    /// The pull configuration the line was claimed with.
    pub closed spec fn pull(self) -> PullMode {
        self.pull
    }
}

proof fn lemma_push_to_set(s: Seq<u8>, x: u8)
    ensures
        s.push(x).to_set() == s.to_set().insert(x),
{
    let post = s.push(x);
    assert forall|y: u8| post.to_set().contains(y) implies s.to_set().insert(x).contains(y) by {
        let i = choose|i: int| 0 <= i < post.len() && post[i] == y;
        if i < s.len() {
            assert(s[i] == y);
            assert(s.contains(y));
        }
    };
    assert forall|y: u8| s.to_set().insert(x).contains(y) implies post.to_set().contains(y) by {
        if y == x {
            assert(post[s.len() as int] == y);
        } else {
            let i = choose|i: int| 0 <= i < s.len() && s[i] == y;
            assert(post[i] == y);
        }
        assert(post.contains(y));
    };
    assert(post.to_set() =~= s.to_set().insert(x));
}

/// The bank of GPIO lines.  Each line may be claimed at most once; a
/// claim binds it to a role for the rest of the process.
pub struct GpioBank {
    claimed: Vec<u8>,
}

impl GpioBank {
    /// The set of line numbers already claimed.
    pub closed spec fn claimed(self) -> Set<u8> {
        self.claimed@.to_set()
    }

    /// Whether line `n` has been claimed.
    pub open spec fn is_claimed(self, n: u8) -> bool {
        self.claimed().contains(n)
    }

    /// Claim line `number` as a digital output with the given role and
    /// initial level.  A line already claimed is refused; a fresh line is
    /// always granted and marked claimed.
    pub fn claim_output(&mut self, number: u8, role: PinRole, initially_high: bool) -> (r: Option<
        OutputPin,
    >)
        ensures
            r is Some <==> !old(self).is_claimed(number),
            r is Some ==> {
                &&& r->0.number() == number
                &&& r->0.role() == role
                &&& r->0.level_high() == initially_high
                &&& final(self).claimed() == old(self).claimed().insert(number)
            },
            r is None ==> final(self).claimed() == old(self).claimed(),
    {
        if self.contains_number(number) {
            Option::None
        } else {
            self.claimed.push(number);
            proof {
                lemma_push_to_set(old(self).claimed@, number);
            }
            Option::Some(OutputPin { number, role, level_high: initially_high })
        }
    }

    /// Claim line `number` as a digital input with the given role and
    /// pull configuration.  A line already claimed is refused; a fresh
    /// line is always granted and marked claimed.
    pub fn claim_input(&mut self, number: u8, role: PinRole, pull: PullMode) -> (r: Option<
        InputPin,
    >)
        ensures
            r is Some <==> !old(self).is_claimed(number),
            r is Some ==> {
                &&& r->0.number() == number
                &&& r->0.role() == role
                &&& r->0.pull() == pull
                &&& final(self).claimed() == old(self).claimed().insert(number)
            },
            r is None ==> final(self).claimed() == old(self).claimed(),
    {
        if self.contains_number(number) {
            Option::None
        } else {
            self.claimed.push(number);
            proof {
                lemma_push_to_set(old(self).claimed@, number);
            }
            Option::Some(InputPin { number, role, pull })
        }
    }

    /// Whether line `number` has already been claimed.
    pub fn is_line_claimed(&self, number: u8) -> (r: bool)
        ensures
            r == self.is_claimed(number),
    {
        self.contains_number(number)
    }

    /// Claim line `number` for a bus function (clock or data).  A line
    /// already claimed is refused and the bank is left unchanged; a
    /// fresh line is marked claimed.
    pub fn claim_line(&mut self, number: u8) -> (r: bool)
        ensures
            r <==> !old(self).is_claimed(number),
            r ==> final(self).claimed() == old(self).claimed().insert(number),
            !r ==> *final(self) == *old(self),
    {
        if self.contains_number(number) {
            false
        } else {
            self.claimed.push(number);
            proof {
                lemma_push_to_set(old(self).claimed@, number);
            }
            true
        }
    }

    fn contains_number(&self, number: u8) -> (r: bool)
        ensures
            r == self.is_claimed(number),
    {
        let mut i: usize = 0;
        while i < self.claimed.len()
            invariant
                i <= self.claimed.len(),
                forall|j: int| 0 <= j < i ==> self.claimed@[j] != number,
            decreases self.claimed.len() - i,
        {
            if self.claimed[i] == number {
                proof {
                    assert(self.claimed@.contains(number));
                }
                return true;
            }
            i = i + 1;
        }
        proof {
            assert(!self.claimed@.contains(number));
        }
        false
    }
}

/// The clock configuration derived once at boot and immutable for the
/// process lifetime.
pub struct ClockConfig {
    boot_defaults: bool,
}

impl ClockConfig {
    /// Whether the configuration is the frozen boot-default profile.
    pub closed spec fn is_boot_defaults(self) -> bool {
        self.boot_defaults
    }
}

/// A claimed timer channel, not yet installed anywhere.
pub struct TimerChannel {
    channel: u8,
}

impl TimerChannel {
    /// The channel index within the timer group.
    pub closed spec fn channel(self) -> u8 {
        self.channel
    }
}

/// The scheduler's type-erased one-shot time source.  One is made from a
/// timer channel, consuming it, so installation can happen at most once
/// per claimed channel.
pub struct TimeSource {
    channel: u8,
}

impl TimeSource {
    /// The timer channel the time source was erased from.
    pub closed spec fn channel(self) -> u8 {
        self.channel
    }

    /// Convert a claimed timer channel into the scheduler's type-erased
    /// one-shot time source.  The channel is consumed, so the conversion
    /// can only happen once per channel.
    pub fn from_timer(t: TimerChannel) -> (r: TimeSource)
        ensures
            r.channel() == t.channel(),
    {
        TimeSource { channel: t.channel }
    }
}

/// A claimed DMA channel, not yet configured.
pub struct DmaChannel {
    index: u8,
}

impl DmaChannel {
    /// The channel index.
    pub closed spec fn index(self) -> u8 {
        self.index
    }

    /// Read the channel index back.
    pub fn index_value(&self) -> (r: u8)
        ensures
            r == self.index(),
    {
        self.index
    }
}

/// A claimed synchronous serial bus peripheral, not yet configured.
pub struct SpiPeripheral {
    index: u8,
}

impl SpiPeripheral {
    /// The bus peripheral index.
    pub closed spec fn index(self) -> u8 {
        self.index
    }

    /// Read the peripheral index back.
    pub fn index_value(&self) -> (r: u8)
        ensures
            r == self.index(),
    {
        self.index
    }
}

/// The singleton collection of on-chip peripheral handles.  Ownership of
/// each member is distributed piecewise by moving it out; none of the
/// member types is `Clone`, so no handle is ever duplicated.
pub struct PeripheralSet {
    pub clocks: ClockConfig,
    pub timer0: TimerChannel,
    pub gpio: GpioBank,
    pub dma_channel0: DmaChannel,
    pub spi2: SpiPeripheral,
}

impl PeripheralSet {
    /// A freshly acquired set is well formed: boot-default clocks and an
    /// untouched GPIO bank.
    pub open spec fn fresh(self) -> bool {
        &&& self.clocks.is_boot_defaults()
        &&& self.gpio.claimed() == Set::<u8>::empty()
    }
}

/// The process-wide acquisition state of the peripheral singleton.
///
/// One value of this type stands for one process: the harness creates
/// it once at entry and threads it through bring-up, so the flag it
/// carries is the process-wide initialization flag that makes the
/// singleton consume-once.
pub struct Platform {
    taken: bool,
}

/// Whether a call of `Platform::try_acquire` on state `p` is granted.
pub open spec fn acquire_granted(p: Platform) -> bool {
    !p.taken()
}

/// The platform state left behind by any call of
/// `Platform::try_acquire`, granted or rejected.
pub closed spec fn after_acquire(p: Platform) -> Platform {
    Platform { taken: true }
}

impl Platform {
    /// Whether the singleton has already been taken in this process.
    pub closed spec fn taken(self) -> bool {
        self.taken
    }

    /// The state a process starts in: the singleton not yet taken.
    pub fn new() -> (r: Platform)
        ensures
            !r.taken(),
    {
        Platform { taken: false }
    }

    /// Take the peripheral singleton.  The first call in a process
    /// succeeds and hands out a fresh set; every later call is rejected,
    /// never answered with a duplicate handle.
    pub fn try_acquire(&mut self) -> (r: Result<PeripheralSet, PeripheralAcquisitionError>)
        ensures
            *final(self) == after_acquire(*old(self)),
            final(self).taken(),
            r is Ok <==> acquire_granted(*old(self)),
            r is Ok ==> r->Ok_0.fresh(),
            r is Err ==> r->Err_0 == PeripheralAcquisitionError::AlreadyTaken,
    {
        if self.taken {
            Result::Err(PeripheralAcquisitionError::AlreadyTaken)
        } else {
            self.taken = true;
            let gpio = GpioBank { claimed: Vec::new() };
            proof {
                assert(gpio.claimed@.to_set() =~= Set::<u8>::empty());
            }
            Result::Ok(
                PeripheralSet {
                    clocks: ClockConfig { boot_defaults: true },
                    timer0: TimerChannel { channel: 0 },
                    gpio,
                    dma_channel0: DmaChannel { index: 0 },
                    spi2: SpiPeripheral { index: 2 },
                },
            )
        }
    }

    /// Acquisition is exclusive within a process: whatever state a call
    /// of `try_acquire` starts from, the state it leaves behind never
    /// grants a further call, so a second take is always rejected and is
    /// never answered with a duplicate handle.
    pub proof fn lemma_second_acquire_rejected(p: Platform)
        ensures
            !acquire_granted(after_acquire(p)),
    {
    }
}

} // verus!
