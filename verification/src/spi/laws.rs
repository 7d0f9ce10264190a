//! What holds of every transaction, whatever words the controller returns.
//!
//! A run of a transaction is given by the words that its reads return: the state
//! after a run is `TransactionView::start(..).run(values)`. Each law speaks of all
//! runs. "The log shows" refers to the word most recently read from or written to a
//! register, which is what the register holds as long as nothing but the transaction
//! changes it.

use crate::bits::{byte_at, is_set, le_word, lemma_pack_bytes, low_byte, replaced};
use crate::spi::history::{
    fetched, latest, shows_clear, shows_set, steady, trailing_reads, written, Access,
};
use crate::spi::protocol::{
    enabled_mode, lemma_successor_is_later, position, relied_bits, spec_enable_bit, Kind,
    Operation, INITIALISED, INITIALISED_MASK, INITIAL_MODE_MASK, PROCESS_MICROS, SETTLE_MICROS,
};
use crate::spi::reachable::{from_end, lemma_next_inv, lemma_start_inv};
use crate::spi::registers::{
    Register, COMMAND_BIT_LENGTH, COMMAND_CS_SEL, COMMAND_CS_SW_HW, COMMAND_CS_SW_VAL,
    COMMAND_LSBI_FE, COMMAND_PACKED, COMMAND_PIO, COMMAND_RX_EN, COMMAND_TX_EN, FIFO_CAPACITY,
    FIFO_STATUS_ERR, FIFO_STATUS_ERRORS, FIFO_STATUS_FLUSH, FIFO_STATUS_KEPT,
    FIFO_STATUS_RX_FIFO_FLUSH, FIFO_STATUS_TX_FIFO_FLUSH, TRANSFER_STATUS_RDY,
};
use crate::spi::transaction::{Error, Request, State, TransactionView};
use crate::spi::Spi;
use vstd::prelude::*;

verus! {

/// Whether a transaction of `kind` can begin with `length`.
pub open spec fn admissible(kind: Kind, length: usize) -> bool {
    &&& kind is Send ==> length == 4
    &&& kind is Receive ==> 1 <= length <= FIFO_CAPACITY
}

/// Every run keeps the invariant.
pub proof fn lemma_run_inv(t: TransactionView, values: Seq<u32>)
    requires
        t.inv(),
    ensures
        t.run(values).inv(),
    decreases values.len(),
{
    if values.len() > 0 {
        lemma_run_inv(t, values.drop_last());
        lemma_next_inv(t.run(values.drop_last()), values.last());
    }
}

/// Every state that a transaction reaches meets the invariant.
pub proof fn lemma_reachable_inv(
    controller: Spi,
    kind: Kind,
    word: u32,
    length: usize,
    values: Seq<u32>,
)
    requires
        controller.wf(),
        admissible(kind, length),
    ensures
        TransactionView::start(controller, kind, word, length).run(values).inv(),
{
    lemma_start_inv(controller, kind, word, length);
    lemma_run_inv(TransactionView::start(controller, kind, word, length), values);
}

/// A run in two parts is the run of the second part from where the first part ends.
pub proof fn lemma_run_split(t: TransactionView, first: Seq<u32>, second: Seq<u32>)
    ensures
        t.run(first + second) == t.run(first).run(second),
    decreases second.len(),
{
    if second.len() == 0 {
        assert(first + second =~= first);
    } else {
        lemma_run_split(t, first, second.drop_last());
        assert((first + second).drop_last() =~= first + second.drop_last());
    }
}

/// A run never changes what the transaction is for, nor with which controller.
pub proof fn lemma_run_keeps_kind(t: TransactionView, values: Seq<u32>)
    ensures
        t.run(values).kind == t.kind,
        t.run(values).controller == t.controller,
        t.run(values).word == t.word,
        t.run(values).length == t.length,
    decreases values.len(),
{
    if values.len() > 0 {
        lemma_run_keeps_kind(t, values.drop_last());
    }
}

/// Once a transaction has failed, it stays failed.
pub proof fn lemma_failure_is_kept(t: TransactionView, values: Seq<u32>)
    requires
        t.inv(),
        t.failed,
    ensures
        t.run(values).failed,
    decreases values.len(),
{
    if values.len() > 0 {
        lemma_failure_is_kept(t, values.drop_last());
        lemma_run_inv(t, values.drop_last());
    }
}

/// Once the error check has passed, the transaction does not fail.
pub proof fn lemma_success_is_kept(t: TransactionView, values: Seq<u32>)
    requires
        t.inv(),
        !t.failed,
        t.step is Drain || t.step is Finished,
    ensures
        !t.run(values).failed,
        t.run(values).step is Drain || t.run(values).step is Finished,
    decreases values.len(),
{
    if values.len() > 0 {
        lemma_success_is_kept(t, values.drop_last());
        lemma_run_inv(t, values.drop_last());
    }
}

/// A transaction that waits for a flag never gives up: as long as the reads do not
/// return what it waits for, it stays where it is and asks for the same read again,
/// however often that has happened.
pub proof fn law_polling_never_gives_up(t: TransactionView, values: Seq<u32>)
    requires
        t.operation() matches Operation::AwaitSet { register, mask } ==> forall|i: int|
            0 <= i < values.len() ==> !is_set(#[trigger] values[i], mask),
        t.operation() matches Operation::AwaitClear { register, mask } ==> forall|i: int|
            0 <= i < values.len() ==> is_set(#[trigger] values[i], mask),
        t.operation() is AwaitSet || t.operation() is AwaitClear,
    ensures
        t.run(values).step == t.step,
        t.run(values).request() == t.request(),
        t.run(values).log.len() == t.log.len() + values.len(),
    decreases values.len(),
{
    if values.len() > 0 {
        let most = values.drop_last();
        assert forall|i: int| 0 <= i < most.len() implies most[i] == values[i] by {}
        law_polling_never_gives_up(t, most);
        let now = t.run(most);
        assert(now.operation() == t.operation());
        assert(values.last() == values[values.len() - 1]);
    }
}

/// A transaction goes through its steps in their order and never goes back: whatever
/// the controller returns, no step is taken up again once it is done, and so nothing
/// is tried a second time.
pub proof fn law_steps_only_advance(
    controller: Spi,
    kind: Kind,
    word: u32,
    length: usize,
    earlier: Seq<u32>,
    later: Seq<u32>,
)
    requires
        controller.wf(),
        admissible(kind, length),
    ensures
        ({
            let start = TransactionView::start(controller, kind, word, length);
            position(start.run(earlier).step) <= position(start.run(earlier + later).step)
        }),
    decreases later.len(),
{
    let start = TransactionView::start(controller, kind, word, length);
    if later.len() == 0 {
        assert(earlier + later =~= earlier);
    } else {
        let most = later.drop_last();
        law_steps_only_advance(controller, kind, word, length, earlier, most);
        assert((earlier + later).drop_last() =~= earlier + most);
        let now = start.run(earlier + most);
        lemma_successor_is_later(kind, now.step, now.failed);
        lemma_successor_is_later(kind, now.step, !now.failed);
        lemma_run_keeps_kind(start, earlier + most);
    }
}

/// Whether a word of the command register holds the mode that an initialisation
/// sets: chip select by software, chip-select line 0 in use and driven low, most
/// significant bit first, unpacked, eight bits.
pub open spec fn is_initialised(word: u32) -> bool {
    &&& is_set(word, COMMAND_CS_SW_HW)
    &&& !is_set(word, COMMAND_CS_SW_VAL)
    &&& word & COMMAND_CS_SEL == 0
    &&& !is_set(word, COMMAND_LSBI_FE)
    &&& !is_set(word, COMMAND_PACKED)
    &&& word & COMMAND_BIT_LENGTH == 7
}

/// A word that holds the initialised value under the initialised mask holds the
/// initial mode field by field.
pub proof fn lemma_initialised_fields(word: u32)
    requires
        word & INITIALISED_MASK == INITIALISED,
    ensures
        is_initialised(word),
{
    assert(word & 0x0c31_003fu32 == 0x0020_0007u32 ==> word & 0x0020_0000u32 != 0 && word
        & 0x0010_0000u32 == 0 && word & 0x0c00_0000u32 == 0 && word & 0x0001_0000u32 == 0 && word
        & 0x0000_0020u32 == 0 && word & 0x0000_001fu32 == 7) by (bit_vector);
}

/// When an initialisation is over, the log shows the command register to hold the
/// initial mode with chip-select line 0 asserted: chip select by software, line 0 in
/// use and driven low, most significant bit first, unpacked, eight bits. This holds
/// as long as nothing but the initialisation changes the fields of the initial mode
/// while it runs.
pub proof fn law_init_configures_controller(controller: Spi, values: Seq<u32>)
    requires
        controller.wf(),
    ensures
        ({
            let end = TransactionView::start(controller, Kind::Init, 0, 0).run(values);
            end.finished() && steady(end.log, Register::Command, INITIAL_MODE_MASK) ==> (latest(
                end.log,
                Register::Command,
            ) matches Some(word) && is_initialised(word))
        }),
{
    let end = TransactionView::start(controller, Kind::Init, 0, 0).run(values);
    lemma_reachable_inv(controller, Kind::Init, 0, 0, values);
    lemma_run_keeps_kind(TransactionView::start(controller, Kind::Init, 0, 0), values);
    if end.finished() && steady(end.log, Register::Command, INITIAL_MODE_MASK) {
        lemma_initialised_fields(latest(end.log, Register::Command)->Some_0);
    }
}

/// While a flush waits for the FIFOs, the word written last to the FIFO status has
/// both flush triggers set: one write asks for both flushes.
pub proof fn law_flush_sets_both_triggers_in_one_write(
    controller: Spi,
    kind: Kind,
    word: u32,
    length: usize,
    values: Seq<u32>,
)
    requires
        controller.wf(),
        admissible(kind, length),
    ensures
        ({
            let now = TransactionView::start(controller, kind, word, length).run(values);
            now.step is AwaitFlushed ==> (written(now.log, Register::FifoStatus) matches Some(
                status,
            ) && is_set(status, FIFO_STATUS_TX_FIFO_FLUSH) && is_set(
                status,
                FIFO_STATUS_RX_FIFO_FLUSH,
            ))
        }),
{
    let now = TransactionView::start(controller, kind, word, length).run(values);
    lemma_reachable_inv(controller, kind, word, length, values);
    if now.step is AwaitFlushed {
        let status = written(now.log, Register::FifoStatus)->Some_0;
        assert(status & 0x0000_c000u32 == 0x0000_c000u32 ==> status & 0x0000_4000u32 != 0
            && status & 0x0000_8000u32 != 0) by (bit_vector);
    }
}

/// When an initialisation or a flush is over, the log shows the ready flag set and
/// both flush triggers clear. This holds of every flush: of one that follows an
/// initialisation, and of one that repeats a flush.
pub proof fn law_flush_leaves_ready_and_flushed(controller: Spi, kind: Kind, values: Seq<u32>)
    requires
        controller.wf(),
        kind is Init || kind is Flush,
    ensures
        ({
            let end = TransactionView::start(controller, kind, 0, 0).run(values);
            end.finished() ==> shows_set(end.log, Register::TransferStatus, TRANSFER_STATUS_RDY)
                && shows_clear(end.log, Register::FifoStatus, FIFO_STATUS_FLUSH)
        }),
{
    lemma_reachable_inv(controller, kind, 0, 0, values);
    lemma_run_keeps_kind(TransactionView::start(controller, kind, 0, 0), values);
}

/// A flush that follows an initialisation or a flush changes nothing any more. If the
/// flush finds the transfer status and the FIFO status as the transaction before it
/// has left them, and nothing but the flush changes the FIFO status while it runs,
/// then it leaves both registers as it found them: the ready flag set and both flush
/// triggers clear.
pub proof fn law_flush_is_idempotent(
    controller: Spi,
    kind: Kind,
    first: Seq<u32>,
    second: Seq<u32>,
)
    requires
        controller.wf(),
        kind is Init || kind is Flush,
    ensures
        ({
            let before = TransactionView::start(controller, kind, 0, 0).run(first);
            let after = TransactionView::start(controller, Kind::Flush, 0, 0).run(second);
            let polls = fetched(after.log, Register::TransferStatus);
            let status = fetched(after.log, Register::FifoStatus);
            before.finished() && after.finished() && steady(
                after.log,
                Register::FifoStatus,
                FIFO_STATUS_KEPT,
            ) && Some(polls[0]) == latest(before.log, Register::TransferStatus) && Some(status[0])
                == latest(before.log, Register::FifoStatus) ==> {
                &&& latest(after.log, Register::TransferStatus) == latest(
                    before.log,
                    Register::TransferStatus,
                )
                &&& latest(after.log, Register::FifoStatus) == latest(
                    before.log,
                    Register::FifoStatus,
                )
                &&& shows_set(after.log, Register::TransferStatus, TRANSFER_STATUS_RDY)
                &&& shows_clear(after.log, Register::FifoStatus, FIFO_STATUS_FLUSH)
            }
        }),
{
    let before = TransactionView::start(controller, kind, 0, 0).run(first);
    let after = TransactionView::start(controller, Kind::Flush, 0, 0).run(second);
    lemma_reachable_inv(controller, kind, 0, 0, first);
    lemma_reachable_inv(controller, Kind::Flush, 0, 0, second);
    lemma_run_keeps_kind(TransactionView::start(controller, kind, 0, 0), first);
    lemma_run_keeps_kind(TransactionView::start(controller, Kind::Flush, 0, 0), second);
    let polls = fetched(after.log, Register::TransferStatus);
    let status = fetched(after.log, Register::FifoStatus);
    if before.finished() && after.finished() && steady(
        after.log,
        Register::FifoStatus,
        FIFO_STATUS_KEPT,
    ) && Some(polls[0]) == latest(before.log, Register::TransferStatus) && Some(status[0])
        == latest(before.log, Register::FifoStatus) {
        assert(is_set(polls[0], TRANSFER_STATUS_RDY));
        assert(polls.len() == 1);
        let found: u32 = status[0];
        let left: u32 = latest(after.log, Register::FifoStatus)->Some_0;
        assert(left & 0xffff_3fffu32 == found & 0xffff_3fffu32 && left & 0x0000_c000u32 == 0 && found
            & 0x0000_c000u32 == 0 ==> left == found) by (bit_vector);
    }
}

/// An initialisation and a flush never fail.
pub proof fn law_flush_succeeds(controller: Spi, kind: Kind, values: Seq<u32>)
    requires
        controller.wf(),
        kind is Init || kind is Flush,
    ensures
        ({
            let end = TransactionView::start(controller, kind, 0, 0).run(values);
            end.finished() ==> end.request() == Request::Done(Ok(()))
        }),
{
    lemma_reachable_inv(controller, kind, 0, 0, values);
    lemma_run_keeps_kind(TransactionView::start(controller, kind, 0, 0), values);
}

/// Whether a transfer can go from state `from` directly to state `to`.
pub open spec fn directly_follows(from: State, to: State) -> bool {
    match from {
        State::Idle => to is Flushed,
        State::Flushed => to is Configured,
        State::Configured => to is Enabled,
        State::Enabled => to is Triggered,
        State::Triggered => to is AwaitingReady,
        State::AwaitingReady => to is Completed || to is Errored,
        State::Completed => false,
        State::Errored => false,
    }
}

/// A transfer begins idle, and each request either leaves its state as it is or
/// takes it to the next one: idle, flushed, configured, enabled, triggered, awaiting
/// ready, and then completed or errored. A transaction that is over stays as it is.
pub proof fn law_states_follow_in_order(
    controller: Spi,
    kind: Kind,
    word: u32,
    length: usize,
    values: Seq<u32>,
    value: u32,
)
    requires
        controller.wf(),
        kind is Send || kind is Receive,
        admissible(kind, length),
    ensures
        TransactionView::start(controller, kind, word, length).state() is Idle,
        ({
            let now = TransactionView::start(controller, kind, word, length).run(values);
            let then = now.next(value);
            &&& then.state() == now.state() || directly_follows(now.state(), then.state())
            &&& now.finished() <==> now.state() is Completed || now.state() is Errored
            &&& now.finished() ==> then == now
        }),
{
    lemma_reachable_inv(controller, kind, word, length, values);
    lemma_run_keeps_kind(TransactionView::start(controller, kind, word, length), values);
}

/// Whether a word of the command register holds what a transfer of `kind` needs
/// while it is under way: the enable bit of its direction, unpacked, eight bits.
pub open spec fn is_enabled(word: u32, kind: Kind) -> bool {
    &&& is_set(word, spec_enable_bit(kind))
    &&& !is_set(word, COMMAND_PACKED)
    &&& word & COMMAND_BIT_LENGTH == 7
}

/// A word that holds the enabled mode under the fields on which a transfer relies
/// holds it field by field.
pub proof fn lemma_enabled_fields(word: u32, kind: Kind)
    requires
        kind is Send || kind is Receive,
        word & relied_bits(kind) == enabled_mode(kind),
    ensures
        is_enabled(word, kind),
{
    let enable: u32 = spec_enable_bit(kind);
    let relied: u32 = relied_bits(kind);
    let enabled: u32 = enabled_mode(kind);
    assert(word & relied == enabled ==> word & enable != 0 && word & 0x0000_0020u32 == 0 && word
        & 0x0000_001fu32 == 7) by (bit_vector)
        requires
            (enable == 0x0000_0800u32 && relied == 0x0000_083fu32 && enabled == 0x0000_0807u32) || (
            enable == 0x0000_1000u32 && relied == 0x0000_103fu32 && enabled == 0x0000_1007u32),
    ;
}

/// When the PIO trigger has just been written, all is in place for the exchange.
/// The log ends with the delay of two microseconds, a read of the command register
/// and the write of the word read with the PIO trigger set; in a transmission the
/// load of the transmit FIFO lies directly before the delay. The log shows the block
/// size to be the length minus one, the ready flag clear and, in a transmission, the
/// transmit FIFO loaded with the word. As long as nothing but the transfer changes
/// the fields on which it relies, the word written with the trigger has the enable
/// bit of the direction set, packed mode clear and a bit length of eight.
pub proof fn law_exchange_starts_configured(
    controller: Spi,
    kind: Kind,
    word: u32,
    length: usize,
    values: Seq<u32>,
)
    requires
        controller.wf(),
        kind is Send || kind is Receive,
        admissible(kind, length),
        TransactionView::start(controller, kind, word, length).run(values).step is Process,
    ensures
        ({
            let now = TransactionView::start(controller, kind, word, length).run(values);
            let log = now.log;
            &&& log.len() >= 3
            &&& from_end(log, 2) == Access::Delay(SETTLE_MICROS)
            &&& from_end(log, 1) matches Access::Read(register, read) && register
                == Register::Command && from_end(log, 0) == Access::Write(
                Register::Command,
                replaced(read, COMMAND_PIO, COMMAND_PIO),
            )
            &&& kind is Send ==> log.len() >= 4 && from_end(log, 3) == Access::Write(
                Register::TxFifo,
                word,
            )
            &&& latest(log, Register::BlockSize) == Some((length - 1) as u32)
            &&& shows_clear(log, Register::TransferStatus, TRANSFER_STATUS_RDY)
            &&& kind is Send ==> latest(log, Register::TxFifo) == Some(word)
            &&& written(log, Register::Command) matches Some(trigger) && is_set(
                trigger,
                COMMAND_PIO,
            ) && (steady(log, Register::Command, relied_bits(kind)) ==> is_enabled(trigger, kind))
        }),
{
    let now = TransactionView::start(controller, kind, word, length).run(values);
    lemma_reachable_inv(controller, kind, word, length, values);
    lemma_run_keeps_kind(TransactionView::start(controller, kind, word, length), values);
    let trigger = written(now.log, Register::Command)->Some_0;
    assert(trigger & 0x8000_0000u32 == 0x8000_0000u32 ==> trigger & 0x8000_0000u32 != 0)
        by (bit_vector);
    if steady(now.log, Register::Command, relied_bits(kind)) {
        lemma_enabled_fields(trigger, kind);
    }
}

/// While a transfer polls for the end of the exchange, the log ends with the write
/// of the PIO trigger, the delay of one microsecond, one read of the command
/// register, and then nothing but the reads of the transfer status that have been
/// made so far: the read of the command register lies between the trigger and the
/// first poll.
pub proof fn law_dummy_read_precedes_polling(
    controller: Spi,
    kind: Kind,
    word: u32,
    length: usize,
    values: Seq<u32>,
)
    requires
        controller.wf(),
        kind is Send || kind is Receive,
        admissible(kind, length),
        TransactionView::start(controller, kind, word, length).run(values).step is AwaitReady,
    ensures
        ({
            let now = TransactionView::start(controller, kind, word, length).run(values);
            let log = now.log;
            let polls = trailing_reads(log, Register::TransferStatus) as int;
            &&& now.request() == Request::Read(Register::TransferStatus)
            &&& log.len() >= polls + 3
            &&& from_end(log, polls).word_from(Register::Command) is Some
            &&& from_end(log, polls + 1) == Access::Delay(PROCESS_MICROS)
            &&& from_end(log, polls + 2).word_to(Register::Command) matches Some(trigger)
                && is_set(trigger, COMMAND_PIO)
        }),
{
    let now = TransactionView::start(controller, kind, word, length).run(values);
    lemma_reachable_inv(controller, kind, word, length, values);
    lemma_run_keeps_kind(TransactionView::start(controller, kind, word, length), values);
    let trigger = written(now.log, Register::Command)->Some_0;
    assert(trigger & 0x8000_0000u32 == 0x8000_0000u32 ==> trigger & 0x8000_0000u32 != 0)
        by (bit_vector);
}

/// The error check decides the result: a transfer fails exactly if the word read at
/// the error check has the error flag set. Then, whatever follows, the transfer never
/// succeeds; when it is over it reports a transfer error, and the log shows the error
/// flag and all four overflow and underrun flags clear. Here `before` is a run up to
/// the error check, `status` the word that the check reads, and `after` the rest of
/// the run.
pub proof fn law_error_is_reported_and_cleared(
    controller: Spi,
    kind: Kind,
    word: u32,
    length: usize,
    before: Seq<u32>,
    status: u32,
    after: Seq<u32>,
)
    requires
        controller.wf(),
        kind is Send || kind is Receive,
        admissible(kind, length),
        TransactionView::start(controller, kind, word, length).run(before).step is CheckError,
    ensures
        ({
            let start = TransactionView::start(controller, kind, word, length);
            let check = start.run(before);
            let end = check.next(status).run(after);
            &&& end == start.run(before.push(status) + after)
            &&& check.request() == Request::Read(Register::FifoStatus)
            &&& end.failed == is_set(status, FIFO_STATUS_ERR)
            &&& end.finished() ==> end.request() == Request::Done(
                if is_set(status, FIFO_STATUS_ERR) {
                    Err(Error::Transfer)
                } else {
                    Ok(())
                },
            )
            &&& end.finished() && is_set(status, FIFO_STATUS_ERR) ==> shows_clear(
                end.log,
                Register::FifoStatus,
                FIFO_STATUS_ERRORS,
            )
        }),
{
    let start = TransactionView::start(controller, kind, word, length);
    let check = start.run(before);
    lemma_reachable_inv(controller, kind, word, length, before);
    lemma_next_inv(check, status);
    let checked = check.next(status);
    assert(before.push(status).drop_last() =~= before);
    lemma_run_split(start, before.push(status), after);
    lemma_run_inv(checked, after);
    if is_set(status, FIFO_STATUS_ERR) {
        lemma_failure_is_kept(checked, after);
    } else {
        lemma_success_is_kept(checked, after);
    }
}

/// In the completed state of a transfer the log shows the enable bit of its
/// direction clear and the error flag clear. In the errored state it shows the
/// enable bit clear and the error flag and all four overflow and underrun flags
/// clear, and the transfer reports a transfer error.
pub proof fn law_terminal_states(
    controller: Spi,
    kind: Kind,
    word: u32,
    length: usize,
    values: Seq<u32>,
)
    requires
        controller.wf(),
        kind is Send || kind is Receive,
        admissible(kind, length),
    ensures
        ({
            let end = TransactionView::start(controller, kind, word, length).run(values);
            &&& end.state() is Completed ==> {
                &&& end.request() == Request::Done(Ok(()))
                &&& shows_clear(end.log, Register::Command, spec_enable_bit(kind))
                &&& shows_clear(end.log, Register::FifoStatus, FIFO_STATUS_ERR)
                &&& shows_set(end.log, Register::TransferStatus, TRANSFER_STATUS_RDY)
            }
            &&& end.state() is Errored ==> {
                &&& end.request() == Request::Done(Err(Error::Transfer))
                &&& shows_clear(end.log, Register::Command, spec_enable_bit(kind))
                &&& shows_clear(end.log, Register::FifoStatus, FIFO_STATUS_ERRORS)
                &&& shows_set(end.log, Register::TransferStatus, TRANSFER_STATUS_RDY)
            }
        }),
{
    lemma_reachable_inv(controller, kind, word, length, values);
    lemma_run_keeps_kind(TransactionView::start(controller, kind, word, length), values);
}

/// When a transmission is over and has succeeded, the log shows transmit-enable
/// clear and the error flag clear.
pub proof fn law_send_success_leaves_controller_clean(controller: Spi, word: u32, values: Seq<u32>)
    requires
        controller.wf(),
    ensures
        ({
            let end = TransactionView::start(controller, Kind::Send, word, 4).run(values);
            end.request() == Request::Done(Ok(())) ==> shows_clear(
                end.log,
                Register::Command,
                COMMAND_TX_EN,
            ) && shows_clear(end.log, Register::FifoStatus, FIFO_STATUS_ERR)
        }),
{
    lemma_reachable_inv(controller, Kind::Send, word, 4, values);
    lemma_run_keeps_kind(TransactionView::start(controller, Kind::Send, word, 4), values);
}

/// When a reception of `length` bytes is over and has succeeded, the receive FIFO
/// has been read exactly `length` times, and the bytes received are the low bytes of
/// the words read, in the order in which they were read. Receive-enable and the error
/// flag are clear.
pub proof fn law_receive_reads_each_byte_once(controller: Spi, length: usize, values: Seq<u32>)
    requires
        controller.wf(),
        1 <= length <= FIFO_CAPACITY,
    ensures
        ({
            let end = TransactionView::start(controller, Kind::Receive, 0, length).run(values);
            let words = fetched(end.log, Register::RxFifo);
            end.request() == Request::Done(Ok(())) ==> {
                &&& words.len() == length
                &&& end.received.len() == length
                &&& forall|i: int| 0 <= i < length ==> end.received[i] == low_byte(words[i])
                &&& shows_clear(end.log, Register::Command, COMMAND_RX_EN)
                &&& shows_clear(end.log, Register::FifoStatus, FIFO_STATUS_ERR)
            }
        }),
{
    lemma_reachable_inv(controller, Kind::Receive, 0, length, values);
    lemma_run_keeps_kind(TransactionView::start(controller, Kind::Receive, 0, length), values);
}

/// A reception that fails receives nothing and never reads the receive FIFO.
pub proof fn law_failed_receive_reads_nothing(controller: Spi, length: usize, values: Seq<u32>)
    requires
        controller.wf(),
        1 <= length <= FIFO_CAPACITY,
    ensures
        ({
            let end = TransactionView::start(controller, Kind::Receive, 0, length).run(values);
            end.failed ==> end.received.len() == 0 && fetched(end.log, Register::RxFifo).len()
                == 0
        }),
{
    lemma_reachable_inv(controller, Kind::Receive, 0, length, values);
    lemma_run_keeps_kind(TransactionView::start(controller, Kind::Receive, 0, length), values);
}

/// What is sent comes back from a device that echoes it. When a transmission of
/// four bytes has succeeded, the log shows the transmit FIFO loaded with the word that
/// the bytes pack to. If a reception of four bytes succeeds in which the words read
/// from the receive FIFO carry the bytes of that word, least significant first, then
/// the bytes received are the bytes that were sent, in their order.
pub proof fn law_echo_returns_what_was_sent(
    controller: Spi,
    b0: u8,
    b1: u8,
    b2: u8,
    b3: u8,
    send_values: Seq<u32>,
    receive_values: Seq<u32>,
)
    requires
        controller.wf(),
    ensures
        ({
            let sent = TransactionView::start(
                controller,
                Kind::Send,
                le_word(b0, b1, b2, b3),
                4,
            ).run(send_values);
            let got = TransactionView::start(controller, Kind::Receive, 0, 4).run(receive_values);
            let words = fetched(got.log, Register::RxFifo);
            sent.request() == Request::Done(Ok(())) && got.request() == Request::Done(Ok(()))
                ==> (latest(sent.log, Register::TxFifo) matches Some(word) && word == le_word(
                b0,
                b1,
                b2,
                b3,
            ) && ((forall|i: int| 0 <= i < 4 ==> low_byte(#[trigger] words[i]) == byte_at(
                word,
                i as u32,
            )) ==> got.received == seq![b0, b1, b2, b3]))
        }),
{
    let word: u32 = le_word(b0, b1, b2, b3);
    let sent = TransactionView::start(controller, Kind::Send, word, 4).run(send_values);
    let got = TransactionView::start(controller, Kind::Receive, 0, 4).run(receive_values);
    let words = fetched(got.log, Register::RxFifo);
    lemma_reachable_inv(controller, Kind::Send, word, 4, send_values);
    lemma_reachable_inv(controller, Kind::Receive, 0, 4, receive_values);
    lemma_run_keeps_kind(TransactionView::start(controller, Kind::Send, word, 4), send_values);
    lemma_run_keeps_kind(TransactionView::start(controller, Kind::Receive, 0, 4), receive_values);
    lemma_pack_bytes(b0, b1, b2, b3);
    if sent.request() == Request::Done(Ok(())) && got.request() == Request::Done(Ok(())) && (
    forall|i: int| 0 <= i < 4 ==> low_byte(#[trigger] words[i]) == byte_at(word, i as u32)) {
        assert(got.received.len() == 4);
        assert(got.received[0] == low_byte(words[0]));
        assert(got.received[1] == low_byte(words[1]));
        assert(got.received[2] == low_byte(words[2]));
        assert(got.received[3] == low_byte(words[3]));
        assert(got.received =~= seq![b0, b1, b2, b3]);
    }
}

} // verus!
