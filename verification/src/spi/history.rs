//! The record of what a transaction has exchanged with the register block.

use crate::spi::registers::Register;
use vstd::prelude::*;

verus! {

/// One access to the controller that has been performed.
#[derive(Clone, Copy, Debug, PartialEq, Eq, Structural)]
pub enum Access {
    /// `register` was read and held the word.
    Read(Register, u32),
    /// The word was written to `register`.
    Write(Register, u32),
    /// The given number of microseconds was waited for.
    Delay(u32),
}

impl Access {
    /// The word that this access read from or wrote to `register`, if it is an access
    /// to that register.
    pub open spec fn word_at(self, register: Register) -> Option<u32> {
        match self {
            Access::Read(r, word) => if r == register {
                Some(word)
            } else {
                None
            },
            Access::Write(r, word) => if r == register {
                Some(word)
            } else {
                None
            },
            Access::Delay(_) => None,
        }
    }

    /// The word that this access wrote to `register`, if it is a write to that
    /// register.
    pub open spec fn word_to(self, register: Register) -> Option<u32> {
        match self {
            Access::Write(r, word) => if r == register {
                Some(word)
            } else {
                None
            },
            _ => None,
        }
    }

    /// The word that this access read from `register`, if it is a read of that
    /// register.
    pub open spec fn word_from(self, register: Register) -> Option<u32> {
        match self {
            Access::Read(r, word) => if r == register {
                Some(word)
            } else {
                None
            },
            _ => None,
        }
    }
}

/// The word most recently read from or written to `register` in `log`: what the
/// register holds as far as the accesses show.
pub open spec fn latest(log: Seq<Access>, register: Register) -> Option<u32>
    decreases log.len(),
{
    if log.len() == 0 {
        None
    } else if log.last().word_at(register) is Some {
        log.last().word_at(register)
    } else {
        latest(log.drop_last(), register)
    }
}

/// The word most recently written to `register` in `log`.
pub open spec fn written(log: Seq<Access>, register: Register) -> Option<u32>
    decreases log.len(),
{
    if log.len() == 0 {
        None
    } else if log.last().word_to(register) is Some {
        log.last().word_to(register)
    } else {
        written(log.drop_last(), register)
    }
}

/// Whether, under `mask`, `register` held at every read in `log` what the log showed
/// just before: whether nothing but the writes in `log` changed those bits while the
/// log was made. A first access that is a read may have returned anything.
pub open spec fn steady(log: Seq<Access>, register: Register, mask: u32) -> bool
    decreases log.len(),
{
    if log.len() == 0 {
        true
    } else {
        &&& steady(log.drop_last(), register, mask)
        &&& log.last().word_from(register) matches Some(word) ==> (latest(
            log.drop_last(),
            register,
        ) matches Some(before) ==> word & mask == before & mask)
    }
}

/// The number of reads of `register` with which `log` ends.
pub open spec fn trailing_reads(log: Seq<Access>, register: Register) -> nat
    decreases log.len(),
{
    if log.len() == 0 {
        0
    } else if log.last().word_from(register) is Some {
        trailing_reads(log.drop_last(), register) + 1
    } else {
        0
    }
}

/// The words read from `register` in `log`, in the order in which they were read.
pub open spec fn fetched(log: Seq<Access>, register: Register) -> Seq<u32>
    decreases log.len(),
{
    if log.len() == 0 {
        Seq::empty()
    } else {
        match log.last().word_from(register) {
            Some(word) => fetched(log.drop_last(), register).push(word),
            None => fetched(log.drop_last(), register),
        }
    }
}

/// Whether `log` shows `register` to hold a word with a bit of `mask` set.
pub open spec fn shows_set(log: Seq<Access>, register: Register, mask: u32) -> bool {
    latest(log, register) matches Some(word) && word & mask != 0
}

/// Whether `log` shows `register` to hold a word with no bit of `mask` set.
pub open spec fn shows_clear(log: Seq<Access>, register: Register, mask: u32) -> bool {
    latest(log, register) matches Some(word) && word & mask == 0
}

/// One more access changes what the log shows of the register it goes to, and of no
/// other.
pub proof fn lemma_latest_push(log: Seq<Access>, access: Access, register: Register)
    ensures
        latest(log.push(access), register) == if access.word_at(register) is Some {
            access.word_at(register)
        } else {
            latest(log, register)
        },
{
    assert(log.push(access).drop_last() =~= log);
}

/// One more access changes the word most recently written to the register that it
/// writes to, and to no other.
pub proof fn lemma_written_push(log: Seq<Access>, access: Access, register: Register)
    ensures
        written(log.push(access), register) == if access.word_to(register) is Some {
            access.word_to(register)
        } else {
            written(log, register)
        },
{
    assert(log.push(access).drop_last() =~= log);
}

/// A log stays steady with one more access unless that access is a read that
/// returned other bits than the log showed.
pub proof fn lemma_steady_push(log: Seq<Access>, access: Access, register: Register, mask: u32)
    ensures
        steady(log.push(access), register, mask) == (steady(log, register, mask) && (
        access.word_from(register) matches Some(word) ==> (latest(log, register) matches Some(
            before,
        ) ==> word & mask == before & mask))),
{
    assert(log.push(access).drop_last() =~= log);
}

/// One more read of the register makes the trailing reads one more; any other access
/// leaves none.
pub proof fn lemma_trailing_reads_push(log: Seq<Access>, access: Access, register: Register)
    ensures
        trailing_reads(log.push(access), register) == if access.word_from(register) is Some {
            trailing_reads(log, register) + 1
        } else {
            0
        },
        trailing_reads(log, register) <= log.len(),
    decreases log.len(),
{
    assert(log.push(access).drop_last() =~= log);
    if log.len() > 0 {
        lemma_trailing_reads_push(log.drop_last(), log.last(), register);
        assert(log.drop_last().push(log.last()) =~= log);
    }
}

/// One more access adds a word to those read from a register exactly if it is a read
/// of that register.
pub proof fn lemma_fetched_push(log: Seq<Access>, access: Access, register: Register)
    ensures
        fetched(log.push(access), register) == match access.word_from(register) {
            Some(word) => fetched(log, register).push(word),
            None => fetched(log, register),
        },
{
    assert(log.push(access).drop_last() =~= log);
}

} // verus!
