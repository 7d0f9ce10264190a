//! The polling protocol as data: which operation each step of a transaction performs
//! on the register block, and which step follows.

use crate::spi::registers::{
    Register, BIT_LENGTH_8, COMMAND_BIT_LENGTH, COMMAND_CS_SEL, COMMAND_CS_SW_HW,
    COMMAND_CS_SW_VAL, COMMAND_LSBI_FE, COMMAND_MODE, COMMAND_PACKED, COMMAND_PIO, COMMAND_RX_EN,
    COMMAND_TX_EN, FIFO_STATUS_ERR, FIFO_STATUS_ERRORS, FIFO_STATUS_FLUSH, TRANSFER_STATUS_RDY,
};
use vstd::prelude::*;

verus! {

/// Microseconds to wait between loading the FIFO and setting the PIO trigger.
pub const SETTLE_MICROS: u32 = 2;

/// Microseconds to wait between setting the PIO trigger and the dummy read.
pub const PROCESS_MICROS: u32 = 1;

/// The fields of the command register that the initial mode sets: chip select by
/// software or hardware, level of the chip-select line, bit order, packed mode and
/// bit length.
pub const INITIAL_MODE_MASK: u32 = 0x0031_003f;

/// The initial mode: chip select by software, chip-select line high, most
/// significant bit first, unpacked, eight bits.
pub const INITIAL_MODE: u32 = 0x0030_0007;

/// The fields of the command register that select and assert a chip-select line: the
/// line in use and the level of the line.
pub const CHIP_SELECT_MASK: u32 = 0x0c10_0000;

/// Chip-select line 0, driven low.
pub const CHIP_SELECT_0_LOW: u32 = 0;

/// The fields of the command register that an initialisation has set when it is
/// over: those of the initial mode and the chip-select line in use.
pub const INITIALISED_MASK: u32 = 0x0c31_003f;

/// What an initialisation leaves in those fields: chip select by software, line 0
/// driven low, most significant bit first, unpacked, eight bits.
pub const INITIALISED: u32 = 0x0020_0007;

/// What a transaction is for.
#[derive(Clone, Copy, Debug, PartialEq, Eq, Structural)]
pub enum Kind {
    /// Bring the controller into its initial mode.
    Init,
    /// Discard what both FIFOs hold.
    Flush,
    /// Transmit one block of four bytes.
    Send,
    /// Receive one block of bytes.
    Receive,
}

/// The steps of the protocol, in the order in which a transaction goes through those
/// that belong to its kind.
#[derive(Clone, Copy, Debug, PartialEq, Eq, Structural)]
pub enum Step {
    /// Chip select under software control and deasserted, most significant bit
    /// first, 8-bit unpacked transfers.
    InitMode,
    /// Poll until the controller reports ready.
    AwaitIdle,
    /// Set both flush triggers in one write.
    RequestFlush,
    /// Poll until both flush triggers have cleared.
    AwaitFlushed,
    /// Select chip-select line 0 and assert it.
    SelectChip,
    /// 8-bit unpacked transfers.
    SetMode,
    /// Program the block size: the length in bytes, minus one.
    SetBlockSize,
    /// Clear the ready flag.
    ClearReady,
    /// Set the enable bit of the transfer's direction.
    Enable,
    /// Write the packed word into the transmit FIFO.
    LoadFifo,
    /// Let the registers settle.
    Settle,
    /// Set the PIO trigger.
    Trigger,
    /// Give the controller time to process the data.
    Process,
    /// Read the command register once and discard the word.
    DummyRead,
    /// Poll until the controller reports ready.
    AwaitReady,
    /// Clear the enable bit of the transfer's direction.
    Disable,
    /// Inspect the error flag.
    CheckError,
    /// Clear the error flag and the overflow and underrun flags in one write.
    ClearErrors,
    /// Read the received bytes from the receive FIFO.
    Drain,
    /// Nothing is left to do.
    Finished,
}

/// What one step does to the register block.
#[derive(Clone, Copy, Debug, PartialEq, Eq, Structural)]
pub enum Operation {
    /// Read `register`, then write the word back with the bits under `mask` replaced
    /// by those of `value`.
    Modify { register: Register, mask: u32, value: u32 },
    /// Write `value` to `register`.
    Store { register: Register, value: u32 },
    /// Wait for at least `micros` microseconds.
    Pause { micros: u32 },
    /// Read `register` and discard the word.
    Probe { register: Register },
    /// Read `register` again and again until a bit of `mask` is set.
    AwaitSet { register: Register, mask: u32 },
    /// Read `register` again and again until no bit of `mask` is set.
    AwaitClear { register: Register, mask: u32 },
    /// Read `register`; the transaction has failed if a bit of `mask` is set.
    Check { register: Register, mask: u32 },
    /// Read `register` `count` times and keep the low byte of each word.
    Collect { register: Register, count: usize },
    /// Do nothing.
    Halt,
}

/// The enable bit of the command register for the direction of `kind`.
pub open spec fn spec_enable_bit(kind: Kind) -> u32 {
    if kind is Send {
        COMMAND_TX_EN
    } else {
        COMMAND_RX_EN
    }
}

/// The enable bit of the command register for the direction of `kind`.
#[verifier::when_used_as_spec(spec_enable_bit)]
pub fn enable_bit(kind: Kind) -> (bit: u32)
    ensures
        bit == spec_enable_bit(kind),
{
    match kind {
        Kind::Send => COMMAND_TX_EN,
        _ => COMMAND_RX_EN,
    }
}

/// The fields of the command register on which a transaction of `kind` relies from
/// one of its steps to the next: for a transfer, packed mode, bit length and the
/// enable bit of its direction; else those of the initial mode.
pub open spec fn relied_bits(kind: Kind) -> u32 {
    match kind {
        Kind::Send => 0x0000_083f,
        Kind::Receive => 0x0000_103f,
        _ => INITIAL_MODE_MASK,
    }
}

/// What the fields on which a transfer of `kind` relies hold while the transfer is
/// enabled: unpacked, eight bits, and the enable bit of its direction.
pub open spec fn enabled_mode(kind: Kind) -> u32 {
    if kind is Send {
        0x0000_0807
    } else {
        0x0000_1007
    }
}

/// The step with which a transaction of `kind` begins.
pub open spec fn spec_first_step(kind: Kind) -> Step {
    if kind is Init {
        Step::InitMode
    } else {
        Step::AwaitIdle
    }
}

/// The step with which a transaction of `kind` begins.
#[verifier::when_used_as_spec(spec_first_step)]
pub fn first_step(kind: Kind) -> (step: Step)
    ensures
        step == spec_first_step(kind),
{
    match kind {
        Kind::Init => Step::InitMode,
        _ => Step::AwaitIdle,
    }
}

/// The operation of `step` in a transaction of `kind` that transmits `word` or moves
/// `length` bytes.
pub open spec fn spec_operation(kind: Kind, step: Step, word: u32, length: usize) -> Operation {
    match step {
        Step::InitMode => Operation::Modify {
            register: Register::Command,
            mask: INITIAL_MODE_MASK,
            value: INITIAL_MODE,
        },
        Step::AwaitIdle => Operation::AwaitSet {
            register: Register::TransferStatus,
            mask: TRANSFER_STATUS_RDY,
        },
        Step::RequestFlush => Operation::Modify {
            register: Register::FifoStatus,
            mask: FIFO_STATUS_FLUSH,
            value: FIFO_STATUS_FLUSH,
        },
        Step::AwaitFlushed => Operation::AwaitClear {
            register: Register::FifoStatus,
            mask: FIFO_STATUS_FLUSH,
        },
        Step::SelectChip => Operation::Modify {
            register: Register::Command,
            mask: CHIP_SELECT_MASK,
            value: CHIP_SELECT_0_LOW,
        },
        Step::SetMode => Operation::Modify {
            register: Register::Command,
            mask: COMMAND_MODE,
            value: BIT_LENGTH_8,
        },
        Step::SetBlockSize => Operation::Store {
            register: Register::BlockSize,
            value: (length - 1) as u32,
        },
        Step::ClearReady => Operation::Modify {
            register: Register::TransferStatus,
            mask: TRANSFER_STATUS_RDY,
            value: 0,
        },
        Step::Enable => Operation::Modify {
            register: Register::Command,
            mask: enable_bit(kind),
            value: enable_bit(kind),
        },
        Step::LoadFifo => Operation::Store { register: Register::TxFifo, value: word },
        Step::Settle => Operation::Pause { micros: SETTLE_MICROS },
        Step::Trigger => Operation::Modify {
            register: Register::Command,
            mask: COMMAND_PIO,
            value: COMMAND_PIO,
        },
        Step::Process => Operation::Pause { micros: PROCESS_MICROS },
        Step::DummyRead => Operation::Probe { register: Register::Command },
        Step::AwaitReady => Operation::AwaitSet {
            register: Register::TransferStatus,
            mask: TRANSFER_STATUS_RDY,
        },
        Step::Disable => Operation::Modify {
            register: Register::Command,
            mask: enable_bit(kind),
            value: 0,
        },
        Step::CheckError => Operation::Check {
            register: Register::FifoStatus,
            mask: FIFO_STATUS_ERR,
        },
        Step::ClearErrors => Operation::Modify {
            register: Register::FifoStatus,
            mask: FIFO_STATUS_ERRORS,
            value: 0,
        },
        Step::Drain => Operation::Collect { register: Register::RxFifo, count: length },
        Step::Finished => Operation::Halt,
    }
}

/// The operation of `step` in a transaction of `kind` that transmits `word` or moves
/// `length` bytes.
#[verifier::when_used_as_spec(spec_operation)]
pub fn operation(kind: Kind, step: Step, word: u32, length: usize) -> (operation: Operation)
    requires
        step is SetBlockSize ==> length >= 1,
    ensures
        operation == spec_operation(kind, step, word, length),
{
    match step {
        Step::InitMode => Operation::Modify {
            register: Register::Command,
            mask: INITIAL_MODE_MASK,
            value: INITIAL_MODE,
        },
        Step::AwaitIdle => Operation::AwaitSet {
            register: Register::TransferStatus,
            mask: TRANSFER_STATUS_RDY,
        },
        Step::RequestFlush => Operation::Modify {
            register: Register::FifoStatus,
            mask: FIFO_STATUS_FLUSH,
            value: FIFO_STATUS_FLUSH,
        },
        Step::AwaitFlushed => Operation::AwaitClear {
            register: Register::FifoStatus,
            mask: FIFO_STATUS_FLUSH,
        },
        Step::SelectChip => Operation::Modify {
            register: Register::Command,
            mask: CHIP_SELECT_MASK,
            value: CHIP_SELECT_0_LOW,
        },
        Step::SetMode => Operation::Modify {
            register: Register::Command,
            mask: COMMAND_MODE,
            value: BIT_LENGTH_8,
        },
        Step::SetBlockSize => Operation::Store {
            register: Register::BlockSize,
            value: (length - 1) as u32,
        },
        Step::ClearReady => Operation::Modify {
            register: Register::TransferStatus,
            mask: TRANSFER_STATUS_RDY,
            value: 0,
        },
        Step::Enable => Operation::Modify {
            register: Register::Command,
            mask: enable_bit(kind),
            value: enable_bit(kind),
        },
        Step::LoadFifo => Operation::Store { register: Register::TxFifo, value: word },
        Step::Settle => Operation::Pause { micros: SETTLE_MICROS },
        Step::Trigger => Operation::Modify {
            register: Register::Command,
            mask: COMMAND_PIO,
            value: COMMAND_PIO,
        },
        Step::Process => Operation::Pause { micros: PROCESS_MICROS },
        Step::DummyRead => Operation::Probe { register: Register::Command },
        Step::AwaitReady => Operation::AwaitSet {
            register: Register::TransferStatus,
            mask: TRANSFER_STATUS_RDY,
        },
        Step::Disable => Operation::Modify {
            register: Register::Command,
            mask: enable_bit(kind),
            value: 0,
        },
        Step::CheckError => Operation::Check {
            register: Register::FifoStatus,
            mask: FIFO_STATUS_ERR,
        },
        Step::ClearErrors => Operation::Modify {
            register: Register::FifoStatus,
            mask: FIFO_STATUS_ERRORS,
            value: 0,
        },
        Step::Drain => Operation::Collect { register: Register::RxFifo, count: length },
        Step::Finished => Operation::Halt,
    }
}

/// The step that follows `step` in a transaction of `kind`, given whether the error
/// check has failed.
pub open spec fn spec_successor(kind: Kind, step: Step, failed: bool) -> Step {
    match step {
        Step::InitMode => Step::AwaitIdle,
        Step::AwaitIdle => Step::RequestFlush,
        Step::RequestFlush => Step::AwaitFlushed,
        Step::AwaitFlushed => match kind {
            Kind::Init => Step::SelectChip,
            Kind::Flush => Step::Finished,
            Kind::Send => Step::SetMode,
            Kind::Receive => Step::SetMode,
        },
        Step::SelectChip => Step::Finished,
        Step::SetMode => Step::SetBlockSize,
        Step::SetBlockSize => Step::ClearReady,
        Step::ClearReady => Step::Enable,
        Step::Enable => if kind is Send {
            Step::LoadFifo
        } else {
            Step::Settle
        },
        Step::LoadFifo => Step::Settle,
        Step::Settle => Step::Trigger,
        Step::Trigger => Step::Process,
        Step::Process => Step::DummyRead,
        Step::DummyRead => Step::AwaitReady,
        Step::AwaitReady => Step::Disable,
        Step::Disable => Step::CheckError,
        Step::CheckError => if failed {
            Step::ClearErrors
        } else if kind is Receive {
            Step::Drain
        } else {
            Step::Finished
        },
        Step::ClearErrors => Step::Finished,
        Step::Drain => Step::Finished,
        Step::Finished => Step::Finished,
    }
}

/// The step that follows `step` in a transaction of `kind`, given whether the error
/// check has failed.
#[verifier::when_used_as_spec(spec_successor)]
pub fn successor(kind: Kind, step: Step, failed: bool) -> (next: Step)
    ensures
        next == spec_successor(kind, step, failed),
{
    match step {
        Step::InitMode => Step::AwaitIdle,
        Step::AwaitIdle => Step::RequestFlush,
        Step::RequestFlush => Step::AwaitFlushed,
        Step::AwaitFlushed => match kind {
            Kind::Init => Step::SelectChip,
            Kind::Flush => Step::Finished,
            Kind::Send => Step::SetMode,
            Kind::Receive => Step::SetMode,
        },
        Step::SelectChip => Step::Finished,
        Step::SetMode => Step::SetBlockSize,
        Step::SetBlockSize => Step::ClearReady,
        Step::ClearReady => Step::Enable,
        Step::Enable => match kind {
            Kind::Send => Step::LoadFifo,
            _ => Step::Settle,
        },
        Step::LoadFifo => Step::Settle,
        Step::Settle => Step::Trigger,
        Step::Trigger => Step::Process,
        Step::Process => Step::DummyRead,
        Step::DummyRead => Step::AwaitReady,
        Step::AwaitReady => Step::Disable,
        Step::Disable => Step::CheckError,
        Step::CheckError => if failed {
            Step::ClearErrors
        } else {
            match kind {
                Kind::Receive => Step::Drain,
                _ => Step::Finished,
            }
        },
        Step::ClearErrors => Step::Finished,
        Step::Drain => Step::Finished,
        Step::Finished => Step::Finished,
    }
}

/// The place of `step` in the order of the steps.
pub open spec fn position(step: Step) -> nat {
    match step {
        Step::InitMode => 0,
        Step::AwaitIdle => 1,
        Step::RequestFlush => 2,
        Step::AwaitFlushed => 3,
        Step::SelectChip => 4,
        Step::SetMode => 5,
        Step::SetBlockSize => 6,
        Step::ClearReady => 7,
        Step::Enable => 8,
        Step::LoadFifo => 9,
        Step::Settle => 10,
        Step::Trigger => 11,
        Step::Process => 12,
        Step::DummyRead => 13,
        Step::AwaitReady => 14,
        Step::Disable => 15,
        Step::CheckError => 16,
        Step::ClearErrors => 17,
        Step::Drain => 18,
        Step::Finished => 19,
    }
}

/// The step that follows a step lies later in the order of the steps, and no step
/// follows the last one.
pub proof fn lemma_successor_is_later(kind: Kind, step: Step, failed: bool)
    ensures
        step is Finished ==> spec_successor(kind, step, failed) is Finished,
        !(step is Finished) ==> position(spec_successor(kind, step, failed)) > position(step),
{
}

/// The masks and values of the table are made of the fields that they are named
/// after.
pub proof fn lemma_table_masks()
    ensures
        INITIAL_MODE_MASK == COMMAND_CS_SW_HW | COMMAND_CS_SW_VAL | COMMAND_LSBI_FE
            | COMMAND_PACKED | COMMAND_BIT_LENGTH,
        INITIAL_MODE == COMMAND_CS_SW_HW | COMMAND_CS_SW_VAL | BIT_LENGTH_8,
        CHIP_SELECT_MASK == COMMAND_CS_SEL | COMMAND_CS_SW_VAL,
        INITIALISED_MASK == INITIAL_MODE_MASK | COMMAND_CS_SEL,
        INITIALISED == COMMAND_CS_SW_HW | BIT_LENGTH_8,
        relied_bits(Kind::Send) == COMMAND_MODE | COMMAND_TX_EN,
        relied_bits(Kind::Receive) == COMMAND_MODE | COMMAND_RX_EN,
        enabled_mode(Kind::Send) == BIT_LENGTH_8 | COMMAND_TX_EN,
        enabled_mode(Kind::Receive) == BIT_LENGTH_8 | COMMAND_RX_EN,
{
    assert(0x0c31_003fu32 == 0x0031_003fu32 | 0x0c00_0000u32) by (bit_vector);
    assert(0x0020_0007u32 == 0x0020_0000u32 | 7u32) by (bit_vector);
    assert(0x0000_083fu32 == 0x0000_003fu32 | 0x0000_0800u32) by (bit_vector);
    assert(0x0000_103fu32 == 0x0000_003fu32 | 0x0000_1000u32) by (bit_vector);
    assert(0x0000_0807u32 == 7u32 | 0x0000_0800u32) by (bit_vector);
    assert(0x0000_1007u32 == 7u32 | 0x0000_1000u32) by (bit_vector);
    assert(0x0031_003fu32 == 0x0020_0000u32 | 0x0010_0000u32 | 0x0001_0000u32 | 0x0000_0020u32
        | 0x0000_001fu32) by (bit_vector);
    assert(0x0030_0007u32 == 0x0020_0000u32 | 0x0010_0000u32 | 7u32) by (bit_vector);
    assert(0x0c10_0000u32 == 0x0c00_0000u32 | 0x0010_0000u32) by (bit_vector);
}

} // verus!
