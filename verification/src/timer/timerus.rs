//! The fixed time base: layout of its registers and of their fields.
//!
//! The registers provide a time base in microseconds for the rest of the system,
//! whatever the frequency of the reference clock. This module describes them; it
//! neither reads nor writes them.

use crate::bits::{is_set, replace, replaced};
use vstd::prelude::*;

verus! {

/// Base address of the timer block.
pub const TIMER_BASE: u32 = 0x6000_5000;

/// Base address of the registers of the fixed time base.
pub const TIME_BASE: u32 = 0x6000_5010;

/// The registers of the fixed time base.
#[derive(Clone, Copy, Debug, PartialEq, Eq, Structural)]
pub enum TimeBaseRegister {
    /// `TIMERUS_CNTR_1US_0`: microseconds elapsed.
    Counter,
    /// `TIMERUS_USEC_CFG_0`: the divider that makes microseconds of the reference
    /// clock.
    Config,
    /// `TIMERUS_CNTR_FREEZE_0`: whether the counter stands still while a core is
    /// being debugged.
    Freeze,
}

impl TimeBaseRegister {
    /// Byte offset of the register from [`TIME_BASE`].
    pub open spec fn spec_offset(self) -> u32 {
        match self {
            TimeBaseRegister::Counter => 0x00,
            TimeBaseRegister::Config => 0x04,
            TimeBaseRegister::Freeze => 0x3c,
        }
    }

    /// Byte offset of the register from [`TIME_BASE`].
    #[verifier::when_used_as_spec(spec_offset)]
    pub fn offset(self) -> (offset: u32)
        ensures
            offset == self.spec_offset(),
    {
        match self {
            TimeBaseRegister::Counter => 0x00,
            TimeBaseRegister::Config => 0x04,
            TimeBaseRegister::Freeze => 0x3c,
        }
    }

    /// Address of the register.
    pub fn address(self) -> (address: u32)
        ensures
            address == TIME_BASE + self.spec_offset(),
            address == TIMER_BASE + 0x10 + self.spec_offset(),
    {
        TIME_BASE + self.offset()
    }
}

/// The frequencies of the reference clock that the time base supports.
#[derive(Clone, Copy, Debug, PartialEq, Eq, Structural)]
pub enum ClockFrequency {
    /// 12 MHz.
    Mhz12,
    /// 38.4 MHz.
    Mhz38_4,
}

impl ClockFrequency {
    /// The frequency in kHz.
    pub open spec fn spec_kilohertz(self) -> u32 {
        match self {
            ClockFrequency::Mhz12 => 12_000,
            ClockFrequency::Mhz38_4 => 38_400,
        }
    }

    /// The value of the dividend field for this frequency: the dividend minus one.
    pub open spec fn spec_dividend(self) -> u8 {
        match self {
            ClockFrequency::Mhz12 => 0x00,
            ClockFrequency::Mhz38_4 => 0x04,
        }
    }

    /// The value of the divisor field for this frequency: the divisor minus one.
    pub open spec fn spec_divisor(self) -> u8 {
        match self {
            ClockFrequency::Mhz12 => 0x0b,
            ClockFrequency::Mhz38_4 => 0xbf,
        }
    }

    /// The frequency in kHz.
    #[verifier::when_used_as_spec(spec_kilohertz)]
    pub fn kilohertz(self) -> (khz: u32)
        ensures
            khz == self.spec_kilohertz(),
    {
        match self {
            ClockFrequency::Mhz12 => 12_000,
            ClockFrequency::Mhz38_4 => 38_400,
        }
    }

    /// The value of the dividend field for this frequency: the dividend minus one.
    #[verifier::when_used_as_spec(spec_dividend)]
    pub fn dividend(self) -> (dividend: u8)
        ensures
            dividend == self.spec_dividend(),
    {
        match self {
            ClockFrequency::Mhz12 => 0x00,
            ClockFrequency::Mhz38_4 => 0x04,
        }
    }

    /// The value of the divisor field for this frequency: the divisor minus one.
    #[verifier::when_used_as_spec(spec_divisor)]
    pub fn divisor(self) -> (divisor: u8)
        ensures
            divisor == self.spec_divisor(),
    {
        match self {
            ClockFrequency::Mhz12 => 0x0b,
            ClockFrequency::Mhz38_4 => 0xbf,
        }
    }

    /// The word of the configuration register for this frequency.
    pub fn config(self) -> (word: u32)
        ensures
            word == config_word(self.spec_dividend(), self.spec_divisor()),
            usec_dividend_of(word) == self.spec_dividend(),
            usec_divisor_of(word) == self.spec_divisor(),
    {
        usec_config(self.dividend(), self.divisor())
    }

    /// The frequency that a word of the configuration register stands for, if it is
    /// one of the two that the time base supports.
    pub fn from_config(word: u32) -> (frequency: Option<ClockFrequency>)
        ensures
            frequency matches Some(f) ==> usec_dividend_of(word) == f.spec_dividend()
                && usec_divisor_of(word) == f.spec_divisor(),
            frequency is None ==> forall|f: ClockFrequency|
                !(usec_dividend_of(word) == f.spec_dividend() && usec_divisor_of(word)
                    == f.spec_divisor()),
    {
        let dividend: u8 = usec_dividend(word);
        let divisor: u8 = usec_divisor(word);
        if dividend == 0x00 && divisor == 0x0b {
            Some(ClockFrequency::Mhz12)
        } else if dividend == 0x04 && divisor == 0xbf {
            Some(ClockFrequency::Mhz38_4)
        } else {
            None
        }
    }
}

/// The cores whose debug state can freeze the counter.
#[derive(Clone, Copy, Debug, PartialEq, Eq, Structural)]
pub enum Core {
    /// CPU core 0.
    Cpu0,
    /// CPU core 1.
    Cpu1,
    /// CPU core 2.
    Cpu2,
    /// CPU core 3.
    Cpu3,
    /// The companion processor.
    Cop,
}

impl Core {
    /// The bit of the freeze register that belongs to this core.
    pub open spec fn spec_freeze_bit(self) -> u32 {
        match self {
            Core::Cpu0 => 0x01,
            Core::Cpu1 => 0x02,
            Core::Cpu2 => 0x04,
            Core::Cpu3 => 0x08,
            Core::Cop => 0x10,
        }
    }

    /// The bit of the freeze register that belongs to this core.
    #[verifier::when_used_as_spec(spec_freeze_bit)]
    pub fn freeze_bit(self) -> (bit: u32)
        ensures
            bit == self.spec_freeze_bit(),
    {
        match self {
            Core::Cpu0 => 0x01,
            Core::Cpu1 => 0x02,
            Core::Cpu2 => 0x04,
            Core::Cpu3 => 0x08,
            Core::Cop => 0x10,
        }
    }
}

/// The upper half of a word of the counter register.
pub open spec fn counter_high_of(word: u32) -> u16 {
    (word / 0x1_0000) as u16
}

/// The lower half of a word of the counter register.
pub open spec fn counter_low_of(word: u32) -> u16 {
    (word % 0x1_0000) as u16
}

/// The dividend field of a word of the configuration register.
pub open spec fn usec_dividend_of(word: u32) -> u8 {
    ((word / 0x100) % 0x100) as u8
}

/// The divisor field of a word of the configuration register.
pub open spec fn usec_divisor_of(word: u32) -> u8 {
    (word % 0x100) as u8
}

/// The word of the configuration register with the two fields as given and all other
/// bits zero.
pub open spec fn config_word(dividend: u8, divisor: u8) -> u32 {
    (dividend * 0x100 + divisor) as u32
}

/// Whether a word of the freeze register freezes the counter while `core` is being
/// debugged.
pub open spec fn freezes(word: u32, core: Core) -> bool {
    is_set(word, core.spec_freeze_bit())
}

/// The upper half of a word of the counter register.
pub fn counter_high(word: u32) -> (high: u16)
    ensures
        high == counter_high_of(word),
{
    let high: u32 = word >> 16;
    assert(high == word / 0x1_0000 && high < 0x1_0000) by (bit_vector)
        requires
            high == word >> 16,
    ;
    high as u16
}

/// The lower half of a word of the counter register.
pub fn counter_low(word: u32) -> (low: u16)
    ensures
        low == counter_low_of(word),
{
    let low: u32 = word & 0xffff;
    assert(low == word % 0x1_0000 && low < 0x1_0000) by (bit_vector)
        requires
            low == word & 0xffff,
    ;
    low as u16
}

/// The dividend field of a word of the configuration register.
pub fn usec_dividend(word: u32) -> (dividend: u8)
    ensures
        dividend == usec_dividend_of(word),
{
    let field: u32 = (word >> 8) & 0xff;
    assert(field == (word / 0x100) % 0x100 && field < 0x100) by (bit_vector)
        requires
            field == (word >> 8) & 0xff,
    ;
    field as u8
}

/// The divisor field of a word of the configuration register.
pub fn usec_divisor(word: u32) -> (divisor: u8)
    ensures
        divisor == usec_divisor_of(word),
{
    let field: u32 = word & 0xff;
    assert(field == word % 0x100 && field < 0x100) by (bit_vector)
        requires
            field == word & 0xff,
    ;
    field as u8
}

/// The word of the configuration register with the two fields as given and all other
/// bits zero.
pub fn usec_config(dividend: u8, divisor: u8) -> (word: u32)
    ensures
        word == config_word(dividend, divisor),
        usec_dividend_of(word) == dividend,
        usec_divisor_of(word) == divisor,
{
    let word: u32 = ((dividend as u32) << 8) | (divisor as u32);
    assert(word == dividend * 0x100 + divisor && (word / 0x100) % 0x100 == dividend && word % 0x100
        == divisor) by (bit_vector)
        requires
            word == ((dividend as u32) << 8) | (divisor as u32),
    ;
    word
}

/// A word of the configuration register with the dividend field as given and all
/// other bits as they are in `word`.
pub fn with_usec_dividend(word: u32, dividend: u8) -> (result: u32)
    ensures
        usec_dividend_of(result) == dividend,
        usec_divisor_of(result) == usec_divisor_of(word),
        result / 0x1_0000 == word / 0x1_0000,
{
    let result: u32 = (word & !0x0000_ff00) | ((dividend as u32) << 8);
    assert((result / 0x100) % 0x100 == dividend && result % 0x100 == word % 0x100 && result
        / 0x1_0000 == word / 0x1_0000) by (bit_vector)
        requires
            result == (word & !0x0000_ff00) | ((dividend as u32) << 8),
    ;
    result
}

/// A word of the configuration register with the divisor field as given and all
/// other bits as they are in `word`.
pub fn with_usec_divisor(word: u32, divisor: u8) -> (result: u32)
    ensures
        usec_divisor_of(result) == divisor,
        result / 0x100 == word / 0x100,
{
    let result: u32 = (word & !0x0000_00ff) | (divisor as u32);
    assert(result % 0x100 == divisor && result / 0x100 == word / 0x100) by (bit_vector)
        requires
            result == (word & !0x0000_00ff) | (divisor as u32),
    ;
    result
}

/// Whether a word of the freeze register freezes the counter while `core` is being
/// debugged.
pub fn is_frozen(word: u32, core: Core) -> (frozen: bool)
    ensures
        frozen == freezes(word, core),
{
    word & core.freeze_bit() != 0
}

/// A word of the freeze register with the bit of `core` as given and all other bits
/// as they are in `word`.
pub fn with_freeze(word: u32, core: Core, frozen: bool) -> (result: u32)
    ensures
        freezes(result, core) == frozen,
        forall|other: Core| other != core ==> freezes(result, other) == freezes(word, other),
        result & !core.spec_freeze_bit() == word & !core.spec_freeze_bit(),
{
    let bit: u32 = core.freeze_bit();
    let value: u32 = if frozen {
        bit
    } else {
        0
    };
    let result: u32 = replace(word, bit, value);
    proof {
        lemma_freeze_bits_independent(word, core, frozen);
    }
    result
}

/// The two halves of a counter word make up the word.
pub proof fn lemma_counter_halves(word: u32)
    ensures
        word == counter_high_of(word) * 0x1_0000 + counter_low_of(word),
{
}

/// With either supported configuration the time base ticks once in a microsecond:
/// the reference clock, multiplied by the dividend and divided by the divisor, is
/// 1 MHz.
pub proof fn lemma_one_tick_per_microsecond(frequency: ClockFrequency)
    ensures
        frequency.spec_kilohertz() * (frequency.spec_dividend() + 1) == 1_000 * (
        frequency.spec_divisor() + 1),
{
}

/// Setting the freeze bit of one core changes that bit and no other.
pub proof fn lemma_freeze_bits_independent(word: u32, core: Core, frozen: bool)
    ensures
        ({
            let bit = core.spec_freeze_bit();
            let result = replaced(
                word,
                bit,
                if frozen {
                    bit
                } else {
                    0
                },
            );
            &&& freezes(result, core) == frozen
            &&& forall|other: Core| other != core ==> freezes(result, other) == freezes(word, other)
            &&& result & !bit == word & !bit
        }),
{
    let bit: u32 = core.spec_freeze_bit();
    let value: u32 = if frozen {
        bit
    } else {
        0
    };
    let result: u32 = replaced(word, bit, value);
    assert(bit == 1 || bit == 2 || bit == 4 || bit == 8 || bit == 16);
    assert(((word & !bit) | (value & bit)) & !bit == word & !bit) by (bit_vector);
    assert((((word & !bit) | (value & bit)) & bit != 0) == frozen) by (bit_vector)
        requires
            bit == 1 || bit == 2 || bit == 4 || bit == 8 || bit == 16,
            value == if frozen {
                bit
            } else {
                0u32
            },
    ;
    assert forall|other: Core| other != core implies freezes(result, other) == freezes(
        word,
        other,
    ) by {
        let probe: u32 = other.spec_freeze_bit();
        assert(probe != bit);
        assert((((word & !bit) | (value & bit)) & probe != 0) == (word & probe != 0))
            by (bit_vector)
            requires
                bit == 1 || bit == 2 || bit == 4 || bit == 8 || bit == 16,
                probe == 1 || probe == 2 || probe == 4 || probe == 8 || probe == 16,
                probe != bit,
        ;
    }
}

} // verus!
