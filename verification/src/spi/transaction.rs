//! A transaction with one controller, as a state machine.
//!
//! A [`Transaction`] always has one pending [`Request`]: the next access to the
//! register block, or the result. The caller performs the access and hands the word
//! that a read returned to [`Transaction::advance`], which gives the transaction's
//! next state. Polling is the caller's loop; a transaction never gives up waiting.

use crate::bits::{has_bit, is_set, le_word, low_byte, lowest_byte, pack, replace, replaced};
use crate::spi::Spi;
use crate::spi::history::Access;
use crate::spi::protocol::{
    first_step, operation, spec_first_step, spec_operation, spec_successor, successor, Kind,
    Operation, Step,
};
use crate::spi::reachable::{lemma_next_inv, lemma_start_inv};
use crate::spi::registers::{Register, FIFO_CAPACITY};
use vstd::prelude::*;

verus! {

/// Why a transfer did not take place or did not succeed.
#[derive(Clone, Copy, Debug, PartialEq, Eq, Structural)]
pub enum Error {
    /// The buffer does not have a length that the controller can transfer in one
    /// block.
    InvalidArgument,
    /// The controller reported an error after the exchange.
    Transfer,
}

/// What the caller of a transaction has to do next.
#[derive(Clone, Copy, Debug, PartialEq, Eq)]
pub enum Request {
    /// Read the register and hand the word to [`Transaction::advance`].
    Read(Register),
    /// Write the word to the register.
    Write(Register, u32),
    /// Wait for at least the given number of microseconds.
    Delay(u32),
    /// Nothing: the transaction is over, with this result.
    Done(Result<(), Error>),
}

/// How far a transaction has come.
#[derive(Clone, Copy, Debug, PartialEq, Eq, Structural)]
pub enum State {
    /// Nothing has been achieved yet; the FIFOs may hold old data.
    Idle,
    /// Both FIFOs have been flushed.
    Flushed,
    /// Mode and block size are set and the ready flag is cleared.
    Configured,
    /// The enable bit of the transfer's direction is set.
    Enabled,
    /// The PIO trigger is set.
    Triggered,
    /// The exchange is under way, or its result is being collected.
    AwaitingReady,
    /// The transaction is over and has succeeded.
    Completed,
    /// The transaction is over and has failed.
    Errored,
}

/// All that is known of a transaction at one moment.
pub struct TransactionView {
    /// The controller that the transaction is with.
    pub controller: Spi,
    /// What the transaction is for.
    pub kind: Kind,
    /// The step that is in progress.
    pub step: Step,
    /// The word that the step in progress has read and will write back modified.
    pub held: Option<u32>,
    /// The word to transmit.
    pub word: u32,
    /// The number of bytes to transfer.
    pub length: usize,
    /// Whether the controller has reported an error.
    pub failed: bool,
    /// The bytes received so far.
    pub received: Seq<u8>,
    /// All accesses performed so far, oldest first.
    pub log: Seq<Access>,
}

impl TransactionView {
    /// The state in which a transaction begins.
    pub open spec fn start(controller: Spi, kind: Kind, word: u32, length: usize) -> Self {
        TransactionView {
            controller,
            kind,
            step: spec_first_step(kind),
            held: None,
            word,
            length,
            failed: false,
            received: Seq::empty(),
            log: Seq::empty(),
        }
    }

    /// The operation of the step in progress.
    pub open spec fn operation(self) -> Operation {
        spec_operation(self.kind, self.step, self.word, self.length)
    }

    /// The step that follows the one in progress.
    pub open spec fn successor(self) -> Step {
        spec_successor(self.kind, self.step, self.failed)
    }

    /// Whether nothing is left to do.
    pub open spec fn finished(self) -> bool {
        self.step is Finished
    }

    /// The result that the transaction will report, as far as it is known.
    pub open spec fn outcome(self) -> Result<(), Error> {
        if self.failed {
            Err(Error::Transfer)
        } else {
            Ok(())
        }
    }

    /// What the caller has to do next.
    pub open spec fn request(self) -> Request {
        match self.operation() {
            Operation::Modify { register, mask, value } => match self.held {
                None => Request::Read(register),
                Some(word) => Request::Write(register, replaced(word, mask, value)),
            },
            Operation::Store { register, value } => Request::Write(register, value),
            Operation::Pause { micros } => Request::Delay(micros),
            Operation::Probe { register } => Request::Read(register),
            Operation::AwaitSet { register, mask } => Request::Read(register),
            Operation::AwaitClear { register, mask } => Request::Read(register),
            Operation::Check { register, mask } => Request::Read(register),
            Operation::Collect { register, count } => Request::Read(register),
            Operation::Halt => Request::Done(self.outcome()),
        }
    }

    /// The log once the pending request has been performed, where a read returned
    /// `value`.
    pub open spec fn logged(self, value: u32) -> Seq<Access> {
        match self.request() {
            Request::Read(register) => self.log.push(Access::Read(register, value)),
            Request::Write(register, word) => self.log.push(Access::Write(register, word)),
            Request::Delay(micros) => self.log.push(Access::Delay(micros)),
            Request::Done(_) => self.log,
        }
    }

    /// The state after the pending request has been performed, where a read returned
    /// `value`.
    pub open spec fn next(self, value: u32) -> Self {
        let log = self.logged(value);
        match self.operation() {
            Operation::Modify { register, mask, value: _ } => match self.held {
                None => TransactionView { held: Some(value), log, ..self },
                Some(_) => TransactionView { held: None, step: self.successor(), log, ..self },
            },
            Operation::Store { register, value: _ } => TransactionView {
                step: self.successor(),
                log,
                ..self
            },
            Operation::Pause { micros } => TransactionView { step: self.successor(), log, ..self },
            Operation::Probe { register } => TransactionView {
                step: self.successor(),
                log,
                ..self
            },
            Operation::AwaitSet { register, mask } => if is_set(value, mask) {
                TransactionView { step: self.successor(), log, ..self }
            } else {
                TransactionView { log, ..self }
            },
            Operation::AwaitClear { register, mask } => if is_set(value, mask) {
                TransactionView { log, ..self }
            } else {
                TransactionView { step: self.successor(), log, ..self }
            },
            Operation::Check { register, mask } => TransactionView {
                failed: is_set(value, mask),
                step: spec_successor(self.kind, self.step, is_set(value, mask)),
                log,
                ..self
            },
            Operation::Collect { register, count } => TransactionView {
                received: self.received.push(low_byte(value)),
                step: if self.received.len() + 1 >= count {
                    self.successor()
                } else {
                    self.step
                },
                log,
                ..self
            },
            Operation::Halt => self,
        }
    }

    /// How far the transaction has come.
    pub open spec fn state(self) -> State {
        match self.step {
            Step::InitMode => State::Idle,
            Step::AwaitIdle => State::Idle,
            Step::RequestFlush => State::Idle,
            Step::AwaitFlushed => State::Idle,
            Step::SelectChip => State::Flushed,
            Step::SetMode => State::Flushed,
            Step::SetBlockSize => State::Flushed,
            Step::ClearReady => State::Flushed,
            Step::Enable => State::Configured,
            Step::LoadFifo => State::Enabled,
            Step::Settle => State::Enabled,
            Step::Trigger => State::Enabled,
            Step::Process => State::Triggered,
            Step::DummyRead => State::Triggered,
            Step::AwaitReady => State::AwaitingReady,
            Step::Disable => State::AwaitingReady,
            Step::CheckError => State::AwaitingReady,
            Step::ClearErrors => State::AwaitingReady,
            Step::Drain => State::AwaitingReady,
            Step::Finished => if self.failed {
                State::Errored
            } else {
                State::Completed
            },
        }
    }

    /// The state after `values.len()` requests have been performed, of which the one
    /// performed as number `i`, if it was a read, returned `values[i]`.
    pub open spec fn run(self, values: Seq<u32>) -> Self
        decreases values.len(),
    {
        if values.len() == 0 {
            self
        } else {
            self.run(values.drop_last()).next(values.last())
        }
    }
}

/// A transaction with one controller: an initialisation, a flush, or the transfer of
/// one block.
pub struct Transaction {
    controller: Spi,
    kind: Kind,
    step: Step,
    held: Option<u32>,
    word: u32,
    length: usize,
    failed: bool,
    received: Vec<u8>,
    log: Ghost<Seq<Access>>,
}

impl View for Transaction {
    type V = TransactionView;

    closed spec fn view(&self) -> TransactionView {
        TransactionView {
            controller: self.controller,
            kind: self.kind,
            step: self.step,
            held: self.held,
            word: self.word,
            length: self.length,
            failed: self.failed,
            received: self.received@,
            log: self.log@,
        }
    }
}

impl Transaction {
    /// A transaction is always in a state that meets the invariant.
    #[verifier::type_invariant]
    pub open spec fn wf(&self) -> bool {
        self@.inv()
    }

    /// Begins a transaction.
    fn begin(controller: Spi, kind: Kind, word: u32, length: usize) -> (transaction: Transaction)
        requires
            kind is Send ==> length == 4,
            kind is Receive ==> 1 <= length <= FIFO_CAPACITY,
        ensures
            transaction@ == TransactionView::start(controller, kind, word, length),
            transaction.wf(),
    {
        proof {
            use_type_invariant(&controller);
            lemma_start_inv(controller, kind, word, length);
        }
        Transaction {
            controller,
            kind,
            step: first_step(kind),
            held: None,
            word,
            length,
            failed: false,
            received: Vec::new(),
            log: Ghost(Seq::empty()),
        }
    }

    /// What the caller has to do next.
    pub fn request(&self) -> (request: Request)
        ensures
            self.wf(),
            request == self@.request(),
    {
        proof {
            use_type_invariant(self);
        }
        match operation(self.kind, self.step, self.word, self.length) {
            Operation::Modify { register, mask, value } => match self.held {
                None => Request::Read(register),
                Some(word) => Request::Write(register, replace(word, mask, value)),
            },
            Operation::Store { register, value } => Request::Write(register, value),
            Operation::Pause { micros } => Request::Delay(micros),
            Operation::Probe { register } => Request::Read(register),
            Operation::AwaitSet { register, mask } => Request::Read(register),
            Operation::AwaitClear { register, mask } => Request::Read(register),
            Operation::Check { register, mask } => Request::Read(register),
            Operation::Collect { register, count } => Request::Read(register),
            Operation::Halt => if self.failed {
                Request::Done(Err(Error::Transfer))
            } else {
                Request::Done(Ok(()))
            },
        }
    }

    /// The transaction after the pending request has been performed. `value` is the
    /// word that was read, if the request was a read; after any other request it is
    /// ignored. A finished transaction stays as it is.
    pub fn advance(self, value: u32) -> (next: Transaction)
        ensures
            next@ == self@.next(value),
            next.wf(),
    {
        proof {
            use_type_invariant(&self);
            lemma_next_inv(self@, value);
        }
        let ghost log = self@.logged(value);
        let Transaction { controller, kind, step, held, word, length, failed, received, log: _ } =
            self;
        let follower = successor(kind, step, failed);
        let mut received = received;
        let (step, held, failed) = match operation(kind, step, word, length) {
            Operation::Modify { register, mask, value: _ } => match held {
                None => (step, Some(value), failed),
                Some(_) => (follower, None, failed),
            },
            Operation::AwaitSet { register, mask } => if has_bit(value, mask) {
                (follower, held, failed)
            } else {
                (step, held, failed)
            },
            Operation::AwaitClear { register, mask } => if has_bit(value, mask) {
                (step, held, failed)
            } else {
                (follower, held, failed)
            },
            Operation::Check { register, mask } => {
                let failed = has_bit(value, mask);
                (successor(kind, step, failed), held, failed)
            },
            Operation::Collect { register, count } => {
                received.push(lowest_byte(value));
                if received.len() >= count {
                    (follower, held, failed)
                } else {
                    (step, held, failed)
                }
            },
            Operation::Halt => (step, held, failed),
            _ => (follower, held, failed),
        };
        Transaction { controller, kind, step, held, word, length, failed, received, log: Ghost(log) }
    }

    /// Whether nothing is left to do.
    pub fn is_finished(&self) -> (finished: bool)
        ensures
            finished == self@.finished(),
    {
        match self.step {
            Step::Finished => true,
            _ => false,
        }
    }

    /// The controller that the transaction is with.
    pub fn controller(&self) -> (controller: Spi)
        ensures
            controller == self@.controller,
            controller.wf(),
    {
        proof {
            use_type_invariant(&self.controller);
        }
        self.controller
    }

    /// What the transaction is for.
    pub fn kind(&self) -> (kind: Kind)
        ensures
            kind == self@.kind,
    {
        self.kind
    }

    /// The bytes received so far, in the order in which they were read.
    pub fn received(&self) -> (bytes: &Vec<u8>)
        ensures
            bytes@ == self@.received,
    {
        &self.received
    }

    /// Ends the transaction and hands out the bytes that it has received.
    pub fn into_received(self) -> (bytes: Vec<u8>)
        ensures
            bytes@ == self@.received,
    {
        self.received
    }

    /// Copies the bytes received so far to the front of `buffer`, in the order in
    /// which they were read, and leaves the rest of `buffer` as it is. A buffer that
    /// is too short for them is refused and left as it is.
    pub fn deliver(&self, buffer: &mut [u8]) -> (result: Result<(), Error>)
        ensures
            final(buffer)@.len() == old(buffer)@.len(),
            result is Ok <==> self@.received.len() <= old(buffer)@.len(),
            result matches Err(error) ==> error == Error::InvalidArgument && final(buffer)@ == old(
                buffer,
            )@,
            result is Ok ==> final(buffer)@ == self@.received + old(buffer)@.skip(
                self@.received.len() as int,
            ),
    {
        let count: usize = self.received.len();
        if count > buffer.len() {
            return Err(Error::InvalidArgument);
        }
        let mut i: usize = 0;
        while i < count
            invariant
                i <= count,
                count == self.received@.len(),
                count <= buffer@.len(),
                buffer@.len() == old(buffer)@.len(),
                buffer@ == self.received@.take(i as int) + old(buffer)@.skip(i as int),
            decreases count - i,
        {
            buffer[i] = self.received[i];
            i += 1;
        }
        assert(self.received@.take(count as int) =~= self.received@);
        Ok(())
    }

    /// How far the transaction has come.
    pub fn state(&self) -> (state: State)
        ensures
            state == self@.state(),
    {
        match self.step {
            Step::InitMode => State::Idle,
            Step::AwaitIdle => State::Idle,
            Step::RequestFlush => State::Idle,
            Step::AwaitFlushed => State::Idle,
            Step::SelectChip => State::Flushed,
            Step::SetMode => State::Flushed,
            Step::SetBlockSize => State::Flushed,
            Step::ClearReady => State::Flushed,
            Step::Enable => State::Configured,
            Step::LoadFifo => State::Enabled,
            Step::Settle => State::Enabled,
            Step::Trigger => State::Enabled,
            Step::Process => State::Triggered,
            Step::DummyRead => State::Triggered,
            Step::AwaitReady => State::AwaitingReady,
            Step::Disable => State::AwaitingReady,
            Step::CheckError => State::AwaitingReady,
            Step::ClearErrors => State::AwaitingReady,
            Step::Drain => State::AwaitingReady,
            Step::Finished => if self.failed {
                State::Errored
            } else {
                State::Completed
            },
        }
    }
}

impl Spi {
    /// Begins the initialisation of the controller: chip select under software
    /// control and deasserted, most significant bit first, 8-bit unpacked transfers;
    /// then a flush of both FIFOs; then chip-select line 0 selected and asserted.
    ///
    /// A controller is to be initialised once, before any transfer, and after its
    /// pins have been configured.
    pub fn init(&self) -> (transaction: Transaction)
        ensures
            transaction.wf(),
            transaction@ == TransactionView::start(*self, Kind::Init, 0, 0),
    {
        Transaction::begin(*self, Kind::Init, 0, 0)
    }

    /// Begins a flush of both FIFOs: wait until the controller is ready, set both
    /// flush triggers in one write, wait until both have cleared. The controller then
    /// has discarded what the FIFOs held.
    pub fn flush_fifos(&self) -> (transaction: Transaction)
        ensures
            transaction.wf(),
            transaction@ == TransactionView::start(*self, Kind::Flush, 0, 0),
    {
        Transaction::begin(*self, Kind::Flush, 0, 0)
    }

    /// Begins the transmission of `data`, which must be exactly four bytes: they go
    /// into the transmit FIFO as one word, first byte least significant. Any other
    /// length is refused before anything is asked of the controller.
    pub fn send(&self, data: &[u8]) -> (result: Result<Transaction, Error>)
        ensures
            result is Ok <==> data@.len() == 4,
            result matches Err(error) ==> error == Error::InvalidArgument,
            result matches Ok(transaction) ==> transaction.wf() && transaction@
                == TransactionView::start(
                *self,
                Kind::Send,
                le_word(data@[0], data@[1], data@[2], data@[3]),
                4,
            ),
    {
        if data.len() != 4 {
            return Err(Error::InvalidArgument);
        }
        let word: u32 = pack(data[0], data[1], data[2], data[3]);
        Ok(Transaction::begin(*self, Kind::Send, word, 4))
    }

    /// Begins the reception of `length` bytes, which must be at least one and at most
    /// what the receive FIFO holds. Any other length is refused before anything is
    /// asked of the controller.
    pub fn receive(&self, length: usize) -> (result: Result<Transaction, Error>)
        ensures
            result is Ok <==> 1 <= length <= FIFO_CAPACITY,
            result matches Err(error) ==> error == Error::InvalidArgument,
            result matches Ok(transaction) ==> transaction.wf() && transaction@
                == TransactionView::start(*self, Kind::Receive, 0, length),
    {
        if length == 0 || length > FIFO_CAPACITY {
            return Err(Error::InvalidArgument);
        }
        Ok(Transaction::begin(*self, Kind::Receive, 0, length))
    }
}

} // verus!
