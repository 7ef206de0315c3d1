//! The one-word channel: which backend strategy carries a word, and the
//! status-gated handshake of the direct strategy.

use vstd::prelude::*;

verus! {

/// Status bit of the control register: the previous word has not been drained yet.
pub const TX_BUSY: u32 = 1 << 29;

/// How a word reaches the hardware; exactly one is chosen per build.
#[derive(Clone, Copy, Debug, PartialEq, Eq, Structural)]
pub enum Strategy {
    /// The channel is known to be unavailable: words are dropped.
    Disabled,
    /// Poll the status register, then write the data register.
    Direct,
    /// Hand the word to an externally linked routine with the same contract.
    External,
}

impl Strategy {
    /// Whether a word given to this strategy reaches the host.
    pub open spec fn delivers(self) -> bool {
        !(self is Disabled)
    }
}

/// Whether a status register value reports the channel as occupied.
pub open spec fn is_busy(status: u32) -> bool {
    status & TX_BUSY != 0
}

/// One decision of the direct strategy.
#[derive(Clone, Copy, Debug, PartialEq, Eq, Structural)]
pub enum Handshake {
    /// The channel is occupied: read the status register again.
    ReadStatus,
    /// The channel is free: write this word to the data register; the transfer is over.
    WriteData(u32),
}

/// The decision of the direct strategy for `word` after reading `status`.
pub open spec fn handshake_spec(word: u32, status: u32) -> Handshake {
    if is_busy(status) {
        Handshake::ReadStatus
    } else {
        Handshake::WriteData(word)
    }
}

/// Decides, after a read of the status register, whether the direct strategy
/// polls again or writes `word`.
pub fn handshake(word: u32, status: u32) -> (r: Handshake)
    ensures
        r == handshake_spec(word, status),
{
    if status & TX_BUSY != 0 {
        Handshake::ReadStatus
    } else {
        Handshake::WriteData(word)
    }
}

/// The actions of one transfer of `word` when the status reads return
/// `statuses` in turn: one decision per read, up to and including the write.
pub open spec fn transfer(word: u32, statuses: Seq<u32>) -> Seq<Handshake>
    decreases statuses.len(),
{
    if statuses.len() == 0 {
        seq![]
    } else {
        let a = handshake_spec(word, statuses[0]);
        if a is WriteData {
            seq![a]
        } else {
            seq![a] + transfer(word, statuses.drop_first())
        }
    }
}

/// The direct strategy writes only right after a status read that found the
/// channel free, writes `word` and nothing else, writes at most once (the write
/// ends the transfer), and polls again exactly while the channel is occupied.
pub proof fn law_write_only_when_free(word: u32, statuses: Seq<u32>)
    ensures
        transfer(word, statuses).len() <= statuses.len(),
        forall|i: int|
            0 <= i < transfer(word, statuses).len() ==> {
                let a = #[trigger] transfer(word, statuses)[i];
                &&& (a is WriteData <==> !is_busy(statuses[i]))
                &&& (a is WriteData ==> a == Handshake::WriteData(word) && i == transfer(
                    word,
                    statuses,
                ).len() - 1)
            },
        forall|i: int|
            0 <= i < statuses.len() && !is_busy(statuses[i]) && (forall|j: int|
                0 <= j < i ==> is_busy(#[trigger] statuses[j])) ==> transfer(word, statuses).len()
                == i + 1,
    decreases statuses.len(),
{
    if statuses.len() > 0 && is_busy(statuses[0]) {
        let rest = statuses.drop_first();
        law_write_only_when_free(word, rest);
        assert forall|i: int|
            0 <= i < statuses.len() && !is_busy(statuses[i]) && (forall|j: int|
                0 <= j < i ==> is_busy(#[trigger] statuses[j])) implies transfer(
            word,
            statuses,
        ).len() == i + 1 by {
            assert(i > 0);
            assert(rest[i - 1] == statuses[i]);
            assert forall|j: int| 0 <= j < i - 1 implies is_busy(#[trigger] rest[j]) by {
                assert(rest[j] == statuses[j + 1]);
            }
        }
    }
}

} // verus!
