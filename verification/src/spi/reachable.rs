//! What holds of every state that a transaction reaches, and why each step keeps it.

use crate::bits::{is_set, low_byte, replaced};
use crate::spi::history::{
    fetched, latest, lemma_fetched_push, lemma_latest_push, lemma_steady_push,
    lemma_trailing_reads_push, lemma_written_push, shows_clear, shows_set, steady,
    trailing_reads, written, Access,
};
use crate::spi::protocol::{
    enabled_mode, relied_bits, spec_enable_bit, Kind, Operation, Step, INITIALISED,
    INITIALISED_MASK, INITIAL_MODE, INITIAL_MODE_MASK, PROCESS_MICROS, SETTLE_MICROS,
};
use crate::spi::registers::{
    Register, BIT_LENGTH_8, COMMAND_MODE, COMMAND_PIO, FIFO_CAPACITY, FIFO_STATUS_ERR,
    FIFO_STATUS_ERRORS, FIFO_STATUS_FLUSH, FIFO_STATUS_KEPT, TRANSFER_STATUS_RDY,
};
use crate::spi::transaction::TransactionView;
use crate::spi::Spi;
use vstd::prelude::*;

verus! {

/// The access that lies `back` accesses before the last one of `log`.
pub open spec fn from_end(log: Seq<Access>, back: int) -> Access {
    log[log.len() - 1 - back]
}

impl TransactionView {
    /// Whether the transaction moves data.
    pub open spec fn is_transfer(self) -> bool {
        self.kind is Send || self.kind is Receive
    }

    /// Whether the step in progress is one that a transaction of this kind goes
    /// through.
    pub open spec fn step_fits(self) -> bool {
        match self.step {
            Step::InitMode => self.kind is Init,
            Step::AwaitIdle => true,
            Step::RequestFlush => true,
            Step::AwaitFlushed => true,
            Step::SelectChip => self.kind is Init,
            Step::LoadFifo => self.kind is Send,
            Step::ClearErrors => self.is_transfer() && self.failed,
            Step::Drain => self.kind is Receive && !self.failed,
            Step::Finished => true,
            _ => self.is_transfer(),
        }
    }

    /// Whether the controller has been seen ready and the ready flag has not been
    /// touched since.
    pub open spec fn past_ready(self) -> bool {
        match self.step {
            Step::RequestFlush => !self.is_transfer(),
            Step::AwaitFlushed => !self.is_transfer(),
            Step::SelectChip => true,
            Step::Disable => true,
            Step::CheckError => true,
            Step::ClearErrors => true,
            Step::Drain => true,
            Step::Finished => true,
            _ => false,
        }
    }

    /// Whether the enable bit has been cleared after the exchange.
    pub open spec fn past_disable(self) -> bool {
        self.is_transfer() && (self.step is CheckError || self.step is ClearErrors
            || self.step is Drain || self.step is Finished)
    }

    /// Whether the block size has been programmed.
    pub open spec fn past_block_size(self) -> bool {
        self.is_transfer() && !(self.step is AwaitIdle || self.step is RequestFlush
            || self.step is AwaitFlushed || self.step is SetMode || self.step is SetBlockSize)
    }

    /// Whether the ready flag has been cleared and the controller has not been seen
    /// ready since.
    pub open spec fn ready_cleared(self) -> bool {
        self.step is Enable || self.step is LoadFifo || self.step is Settle
            || self.step is Trigger || self.step is Process || self.step is DummyRead
            || self.step is AwaitReady
    }

    /// Whether the word to transmit has been written to the transmit FIFO.
    pub open spec fn past_load(self) -> bool {
        self.kind is Send && !(self.step is AwaitIdle || self.step is RequestFlush
            || self.step is AwaitFlushed || self.step is SetMode || self.step is SetBlockSize
            || self.step is ClearReady || self.step is Enable || self.step is LoadFifo)
    }

    /// Whether the PIO trigger has been written and the enable bit has not been
    /// cleared yet.
    pub open spec fn triggered(self) -> bool {
        self.step is Process || self.step is DummyRead || self.step is AwaitReady
            || self.step is Disable
    }

    /// The kind of transaction, its lengths and the word that a modification holds
    /// fit the step in progress.
    pub open spec fn inv_shape(self) -> bool {
        &&& self.controller.wf()
        &&& self.step_fits()
        &&& self.kind is Send ==> self.length == 4
        &&& self.kind is Receive ==> 1 <= self.length <= FIFO_CAPACITY
        &&& self.failed ==> self.is_transfer() && (self.step is ClearErrors
            || self.step is Finished)
        &&& self.held matches Some(word) ==> self.operation() matches Operation::Modify {
            register,
            mask,
            value,
        } && self.log.len() > 0 && self.log.last() == Access::Read(register, word)
    }

    /// The bytes received are the low bytes of the words read from the receive FIFO,
    /// and the receive FIFO is read only to drain it.
    pub open spec fn inv_received(self) -> bool {
        &&& self.received == fetched(self.log, Register::RxFifo).map_values(
            |word: u32| low_byte(word),
        )
        &&& self.step is Drain ==> self.received.len() < self.length
        &&& self.step is Finished && self.kind is Receive && !self.failed ==> self.received.len()
            == self.length
        &&& !(self.step is Drain) && !(self.step is Finished && self.kind is Receive
            && !self.failed) ==> self.received.len() == 0
    }

    /// What the log shows of the registers, whatever words the reads have returned.
    pub open spec fn inv_status(self) -> bool {
        &&& self.past_ready() ==> shows_set(
            self.log,
            Register::TransferStatus,
            TRANSFER_STATUS_RDY,
        )
        &&& self.step is AwaitFlushed ==> (written(self.log, Register::FifoStatus) matches Some(
            word,
        ) && word & FIFO_STATUS_FLUSH == FIFO_STATUS_FLUSH)
        &&& !self.is_transfer() && (self.step is SelectChip || self.step is Finished)
            ==> shows_clear(self.log, Register::FifoStatus, FIFO_STATUS_FLUSH)
        &&& self.past_block_size() ==> latest(self.log, Register::BlockSize) == Some(
            (self.length - 1) as u32,
        )
        &&& self.is_transfer() && self.ready_cleared() ==> shows_clear(
            self.log,
            Register::TransferStatus,
            TRANSFER_STATUS_RDY,
        )
        &&& self.past_load() ==> latest(self.log, Register::TxFifo) == Some(self.word)
        &&& self.triggered() ==> (written(self.log, Register::Command) matches Some(word) && word
            & COMMAND_PIO == COMMAND_PIO)
        &&& self.past_disable() ==> shows_clear(
            self.log,
            Register::Command,
            spec_enable_bit(self.kind),
        )
        &&& self.is_transfer() && !self.failed && (self.step is Drain || self.step is Finished)
            ==> shows_clear(self.log, Register::FifoStatus, FIFO_STATUS_ERR)
        &&& self.failed && self.step is Finished ==> shows_clear(
            self.log,
            Register::FifoStatus,
            FIFO_STATUS_ERRORS,
        )
    }

    /// Whether the log shows the command register to hold `bits` under `mask`.
    pub open spec fn command_shows(self, mask: u32, bits: u32) -> bool {
        latest(self.log, Register::Command) matches Some(word) && word & mask == bits
    }

    /// What the log shows of the command register as long as nothing but the
    /// transaction changes the fields on which the transaction relies.
    pub open spec fn inv_command(self) -> bool {
        steady(self.log, Register::Command, relied_bits(self.kind)) ==> match self.kind {
            Kind::Flush => true,
            Kind::Init => match self.step {
                Step::InitMode => true,
                Step::Finished => self.command_shows(INITIALISED_MASK, INITIALISED),
                _ => self.command_shows(INITIAL_MODE_MASK, INITIAL_MODE),
            },
            _ => match self.step {
                Step::AwaitIdle => true,
                Step::RequestFlush => true,
                Step::AwaitFlushed => true,
                Step::SetMode => true,
                Step::SetBlockSize => self.command_shows(COMMAND_MODE, BIT_LENGTH_8),
                Step::ClearReady => self.command_shows(COMMAND_MODE, BIT_LENGTH_8),
                Step::Enable => self.command_shows(COMMAND_MODE, BIT_LENGTH_8),
                Step::LoadFifo => self.command_shows(
                    relied_bits(self.kind),
                    enabled_mode(self.kind),
                ),
                Step::Settle => self.command_shows(relied_bits(self.kind), enabled_mode(self.kind)),
                Step::Trigger => self.command_shows(
                    relied_bits(self.kind),
                    enabled_mode(self.kind),
                ),
                Step::Process => self.trigger_shows(),
                Step::DummyRead => self.trigger_shows(),
                Step::AwaitReady => self.trigger_shows(),
                Step::Disable => self.trigger_shows(),
                _ => self.command_shows(relied_bits(self.kind), BIT_LENGTH_8),
            },
        }
    }

    /// Whether the log shows the command register enabled and configured, and the
    /// word written last to it as well.
    pub open spec fn trigger_shows(self) -> bool {
        &&& self.command_shows(relied_bits(self.kind), enabled_mode(self.kind))
        &&& written(self.log, Register::Command) matches Some(word) && word & relied_bits(
            self.kind,
        ) == enabled_mode(self.kind)
    }

    /// The accesses around the PIO trigger lie in the log in their order.
    pub open spec fn inv_order(self) -> bool {
        let log = self.log;
        let load = Access::Write(Register::TxFifo, self.word);
        match self.step {
            Step::Settle => self.kind is Send ==> log.len() >= 1 && from_end(log, 0) == load,
            Step::Trigger => match self.held {
                None => {
                    &&& log.len() >= 1 && from_end(log, 0) == Access::Delay(SETTLE_MICROS)
                    &&& self.kind is Send ==> log.len() >= 2 && from_end(log, 1) == load
                },
                Some(_) => {
                    &&& log.len() >= 2 && from_end(log, 1) == Access::Delay(SETTLE_MICROS)
                    &&& self.kind is Send ==> log.len() >= 3 && from_end(log, 2) == load
                },
            },
            Step::Process => {
                &&& log.len() >= 3 && from_end(log, 2) == Access::Delay(SETTLE_MICROS)
                &&& from_end(log, 1) matches Access::Read(register, word) && register
                    == Register::Command && from_end(log, 0) == Access::Write(
                    Register::Command,
                    replaced(word, COMMAND_PIO, COMMAND_PIO),
                )
                &&& self.kind is Send ==> log.len() >= 4 && from_end(log, 3) == load
            },
            Step::DummyRead => {
                &&& log.len() >= 2 && from_end(log, 0) == Access::Delay(PROCESS_MICROS)
                &&& from_end(log, 1).word_to(Register::Command) is Some
                &&& from_end(log, 1).word_to(Register::Command) == written(log, Register::Command)
            },
            Step::AwaitReady => {
                let polls = trailing_reads(log, Register::TransferStatus) as int;
                &&& log.len() >= polls + 3
                &&& from_end(log, polls).word_from(Register::Command) is Some
                &&& from_end(log, polls + 1) == Access::Delay(PROCESS_MICROS)
                &&& from_end(log, polls + 2).word_to(Register::Command) is Some
                &&& from_end(log, polls + 2).word_to(Register::Command) == written(
                    log,
                    Register::Command,
                )
            },
            _ => true,
        }
    }

    /// In an initialisation and in a flush, the poll for the ready flag ends with
    /// the first read that shows the flag, and the flush leaves in the FIFO status
    /// what it found there, but for the flush triggers, as long as nothing else
    /// changes it.
    pub open spec fn inv_flush(self) -> bool {
        let polls = fetched(self.log, Register::TransferStatus);
        let status = fetched(self.log, Register::FifoStatus);
        !self.is_transfer() ==> {
            &&& forall|i: int|
                0 <= i < polls.len() - 1 ==> !is_set(#[trigger] polls[i], TRANSFER_STATUS_RDY)
            &&& self.step is InitMode || self.step is AwaitIdle ==> status.len() == 0 && forall|
                i: int,
            | 0 <= i < polls.len() ==> !is_set(#[trigger] polls[i], TRANSFER_STATUS_RDY)
            &&& self.past_ready() ==> polls.len() >= 1 && latest(
                self.log,
                Register::TransferStatus,
            ) == Some(polls.last())
            &&& self.step is RequestFlush ==> match self.held {
                None => status.len() == 0,
                Some(word) => status.len() == 1 && status[0] == word,
            }
            &&& self.step is AwaitFlushed || self.step is SelectChip || self.step is Finished
                ==> status.len() >= 1 && (steady(
                self.log,
                Register::FifoStatus,
                FIFO_STATUS_KEPT,
            ) ==> (latest(self.log, Register::FifoStatus) matches Some(word) && word
                & FIFO_STATUS_KEPT == status[0] & FIFO_STATUS_KEPT))
        }
    }

    /// What holds of every state that a transaction reaches.
    pub open spec fn inv(self) -> bool {
        &&& self.inv_shape()
        &&& self.inv_received()
        &&& self.inv_status()
        &&& self.inv_command()
        &&& self.inv_order()
        &&& self.inv_flush()
    }
}

/// A transaction begins in a state that meets the invariant.
pub proof fn lemma_start_inv(controller: Spi, kind: Kind, word: u32, length: usize)
    requires
        controller.wf(),
        kind is Send ==> length == 4,
        kind is Receive ==> 1 <= length <= FIFO_CAPACITY,
    ensures
        TransactionView::start(controller, kind, word, length).inv(),
{
    let t = TransactionView::start(controller, kind, word, length);
    assert(t.received =~= fetched(t.log, Register::RxFifo).map_values(|word: u32| low_byte(word)));
    assert(fetched(t.log, Register::TransferStatus).len() == 0);
    assert(fetched(t.log, Register::FifoStatus).len() == 0);
}

/// Each step keeps the shape of the state.
proof fn lemma_next_shape(t: TransactionView, value: u32)
    requires
        t.inv_shape(),
    ensures
        t.next(value).inv_shape(),
{
}

/// Each step keeps the bytes received in line with the reads of the receive FIFO.
proof fn lemma_next_received(t: TransactionView, value: u32)
    requires
        t.inv_shape(),
        t.inv_received(),
    ensures
        t.next(value).inv_received(),
{
    if !t.finished() {
        let access = t.next(value).log.last();
        assert(t.next(value).log == t.log.push(access));
        lemma_fetched_push(t.log, access, Register::RxFifo);
        let words = fetched(t.log, Register::RxFifo);
        assert(words.push(value).map_values(|word: u32| low_byte(word)) =~= words.map_values(
            |word: u32| low_byte(word),
        ).push(low_byte(value)));
    }
}

/// Each step keeps what the log shows of the registers.
proof fn lemma_next_status(t: TransactionView, value: u32)
    requires
        t.inv_shape(),
        t.inv_status(),
    ensures
        t.next(value).inv_status(),
{
    if !t.finished() {
        let access = t.next(value).log.last();
        assert(t.next(value).log == t.log.push(access));
        lemma_latest_push(t.log, access, Register::Command);
        lemma_latest_push(t.log, access, Register::TransferStatus);
        lemma_latest_push(t.log, access, Register::FifoStatus);
        lemma_latest_push(t.log, access, Register::BlockSize);
        lemma_latest_push(t.log, access, Register::TxFifo);
        lemma_written_push(t.log, access, Register::Command);
        lemma_written_push(t.log, access, Register::FifoStatus);
        match t.operation() {
            Operation::Modify { register, mask, value: bits } => {
                if let Some(word) = t.held {
                    lemma_replaced_field(word, mask, bits);
                }
            },
            _ => {},
        }
    }
}

/// After a modification the bits under the mask are those of the value: all set
/// where the value is the mask, all clear where the value is zero.
proof fn lemma_replaced_field(word: u32, mask: u32, bits: u32)
    ensures
        bits == mask ==> replaced(word, mask, bits) & mask == mask,
        bits == 0 ==> replaced(word, mask, bits) & mask == 0,
{
    assert(((word & !mask) | (mask & mask)) & mask == mask) by (bit_vector);
    assert(((word & !mask) | (0u32 & mask)) & mask == 0) by (bit_vector);
}

/// Each step keeps what the log shows of the command register.
proof fn lemma_next_command(t: TransactionView, value: u32)
    requires
        t.inv_shape(),
        t.inv_command(),
    ensures
        t.next(value).inv_command(),
{
    let n = t.next(value);
    let relied = relied_bits(t.kind);
    if !t.finished() && !(t.kind is Flush) && steady(n.log, Register::Command, relied) {
        let access = n.log.last();
        assert(n.log == t.log.push(access));
        lemma_latest_push(t.log, access, Register::Command);
        lemma_written_push(t.log, access, Register::Command);
        lemma_steady_push(t.log, access, Register::Command, relied);
        assert(steady(t.log, Register::Command, relied));
        match access {
            Access::Read(register, word) => {
                if register == Register::Command {
                    if let Some(before) = latest(t.log, Register::Command) {
                        lemma_same_field(word, before, relied);
                    }
                }
            },
            Access::Write(register, word) => {
                if register == Register::Command {
                    if let Some(read) = t.held {
                        lemma_command_written(t.kind, t.step, read);
                    }
                }
            },
            Access::Delay(_) => {},
        }
    }
}

/// Two words that agree under the fields on which a transaction relies agree under
/// the mode bits among them.
proof fn lemma_same_field(word: u32, before: u32, relied: u32)
    requires
        word & relied == before & relied,
        relied == 0x0000_083f || relied == 0x0000_103f || relied == 0x0031_003f,
    ensures
        word & COMMAND_MODE == before & COMMAND_MODE,
{
    assert(word & 0x0000_003f == before & 0x0000_003f) by (bit_vector)
        requires
            word & relied == before & relied,
            relied == 0x0000_083f || relied == 0x0000_103f || relied == 0x0031_003f,
    ;
}

/// What a modification of the command register leaves in the fields on which the
/// transaction relies, given what the word that it read held there.
proof fn lemma_command_written(kind: Kind, step: Step, read: u32)
    ensures
        step is InitMode ==> replaced(read, INITIAL_MODE_MASK, INITIAL_MODE) & INITIAL_MODE_MASK
            == INITIAL_MODE,
        step is SelectChip && read & INITIAL_MODE_MASK == INITIAL_MODE ==> replaced(
            read,
            0x0c10_0000,
            0,
        ) & INITIALISED_MASK == INITIALISED,
        step is SetMode ==> replaced(read, COMMAND_MODE, BIT_LENGTH_8) & COMMAND_MODE
            == BIT_LENGTH_8,
        (kind is Send || kind is Receive) && step is Enable && read & COMMAND_MODE == BIT_LENGTH_8
            ==> replaced(read, spec_enable_bit(kind), spec_enable_bit(kind)) & relied_bits(kind)
            == enabled_mode(kind),
        (kind is Send || kind is Receive) && step is Trigger && read & relied_bits(kind)
            == enabled_mode(kind) ==> replaced(read, COMMAND_PIO, COMMAND_PIO) & relied_bits(kind)
            == enabled_mode(kind),
        (kind is Send || kind is Receive) && step is Disable && read & relied_bits(kind)
            == enabled_mode(kind) ==> replaced(read, spec_enable_bit(kind), 0) & relied_bits(kind)
            == BIT_LENGTH_8,
{
    assert(((read & !0x0031_003fu32) | (0x0030_0007u32 & 0x0031_003fu32)) & 0x0031_003fu32
        == 0x0030_0007u32) by (bit_vector);
    assert(read & 0x0031_003fu32 == 0x0030_0007u32 ==> ((read & !0x0c10_0000u32) | (0u32
        & 0x0c10_0000u32)) & 0x0c31_003fu32 == 0x0020_0007u32) by (bit_vector);
    assert(((read & !0x0000_003fu32) | (7u32 & 0x0000_003fu32)) & 0x0000_003fu32 == 7u32)
        by (bit_vector);
    let enable: u32 = spec_enable_bit(kind);
    let relied: u32 = relied_bits(kind);
    let enabled: u32 = enabled_mode(kind);
    if kind is Send || kind is Receive {
        assert(read & 0x0000_003fu32 == 7u32 ==> ((read & !enable) | (enable & enable)) & relied
            == enabled) by (bit_vector)
            requires
                (enable == 0x0000_0800u32 && relied == 0x0000_083fu32 && enabled == 0x0000_0807u32)
                    || (enable == 0x0000_1000u32 && relied == 0x0000_103fu32 && enabled
                    == 0x0000_1007u32),
        ;
        assert(read & relied == enabled ==> ((read & !0x8000_0000u32) | (0x8000_0000u32
            & 0x8000_0000u32)) & relied == enabled) by (bit_vector)
            requires
                (enable == 0x0000_0800u32 && relied == 0x0000_083fu32 && enabled == 0x0000_0807u32)
                    || (enable == 0x0000_1000u32 && relied == 0x0000_103fu32 && enabled
                    == 0x0000_1007u32),
        ;
        assert(read & relied == enabled ==> ((read & !enable) | (0u32 & enable)) & relied == 7u32)
            by (bit_vector)
            requires
                (enable == 0x0000_0800u32 && relied == 0x0000_083fu32 && enabled == 0x0000_0807u32)
                    || (enable == 0x0000_1000u32 && relied == 0x0000_103fu32 && enabled
                    == 0x0000_1007u32),
        ;
    }
}

/// Each step keeps the accesses around the PIO trigger in their order.
proof fn lemma_next_order(t: TransactionView, value: u32)
    requires
        t.inv_shape(),
        t.inv_order(),
    ensures
        t.next(value).inv_order(),
{
    if !t.finished() {
        let access = t.next(value).log.last();
        assert(t.next(value).log == t.log.push(access));
        lemma_written_push(t.log, access, Register::Command);
        lemma_trailing_reads_push(t.log, access, Register::TransferStatus);
    }
}

/// Each step of an initialisation or a flush keeps what is known of its polls and
/// of the FIFO status.
proof fn lemma_next_flush(t: TransactionView, value: u32)
    requires
        t.inv_shape(),
        t.inv_flush(),
    ensures
        t.next(value).inv_flush(),
{
    if !t.finished() && !t.is_transfer() {
        let access = t.next(value).log.last();
        assert(t.next(value).log == t.log.push(access));
        lemma_latest_push(t.log, access, Register::TransferStatus);
        lemma_latest_push(t.log, access, Register::FifoStatus);
        lemma_fetched_push(t.log, access, Register::TransferStatus);
        lemma_fetched_push(t.log, access, Register::FifoStatus);
        lemma_steady_push(t.log, access, Register::FifoStatus, FIFO_STATUS_KEPT);
        if let Some(word) = t.held {
            assert(((word & !0x0000_c000u32) | (0x0000_c000u32 & 0x0000_c000u32)) & 0xffff_3fffu32
                == word & 0xffff_3fffu32) by (bit_vector);
        }
    }
}

/// Every step of a transaction keeps the invariant.
pub proof fn lemma_next_inv(t: TransactionView, value: u32)
    requires
        t.inv(),
    ensures
        t.next(value).inv(),
{
    lemma_next_shape(t, value);
    lemma_next_received(t, value);
    lemma_next_status(t, value);
    lemma_next_command(t, value);
    lemma_next_order(t, value);
    lemma_next_flush(t, value);
}

} // verus!
