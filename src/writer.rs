//! The byte writer and text sink on top of the channel.
//!
//! Verified code cannot touch the hardware registers, so a `Writer` keeps the
//! words it has accepted, in order, until the caller hands them to the selected
//! backend with `take_pending`, right after each write.

use core::convert::Infallible;

use vstd::prelude::*;
use vstd::utf8::encode_utf8;

use crate::channel::Strategy;

verus! {

/// Each byte as a word, zero-extended, in order.
pub open spec fn widen_all(bytes: Seq<u8>) -> Seq<u32> {
    bytes.map_values(|b: u8| b as u32)
}

/// The bytes that the host writes to its log for the words it drains.
pub open spec fn host_bytes(words: Seq<u32>) -> Seq<u8> {
    words.map_values(|w: u32| w as u8)
}

/// What a channel with `strategy` carries of `words`.
pub open spec fn carried(strategy: Strategy, words: Seq<u32>) -> Seq<u32> {
    if strategy.delivers() {
        words
    } else {
        seq![]
    }
}

/// Writes words to the channel through one backend strategy.
pub struct Writer {
    strategy: Strategy,
    outbox: Vec<u32>,
}

impl Writer {
    /// The backend strategy that carries the words.
    pub closed spec fn strategy(&self) -> Strategy {
        self.strategy
    }

    /// The words accepted for the host and not yet handed to the hardware, oldest first.
    pub closed spec fn pending(&self) -> Seq<u32> {
        self.outbox@
    }

    /// A writer for `strategy` with nothing pending.
    pub fn new(strategy: Strategy) -> (w: Writer)
        ensures
            w.strategy() == strategy,
            w.pending() == Seq::<u32>::empty(),
    {
        Writer { strategy, outbox: Vec::new() }
    }

    /// The backend strategy that carries the words.
    pub fn backend(&self) -> (s: Strategy)
        ensures
            s == self.strategy(),
    {
        self.strategy
    }

    /// Writes one word; the disabled strategy drops it.
    pub fn write_word(&mut self, word: u32)
        ensures
            final(self).strategy() == old(self).strategy(),
            final(self).pending() == old(self).pending() + carried(old(self).strategy(), seq![word]),
    {
        match self.strategy {
            Strategy::Disabled => {},
            _ => {
                self.outbox.push(word);
            },
        }
    }

    /// Writes one byte, zero-extended to a word.
    pub fn write_byte(&mut self, b: u8)
        ensures
            final(self).strategy() == old(self).strategy(),
            final(self).pending() == old(self).pending() + carried(
                old(self).strategy(),
                widen_all(seq![b]),
            ),
    {
        self.write_word(b as u32);
        assert(widen_all(seq![b]) =~= seq![b as u32]);
    }

    /// Writes the UTF-8 bytes of `s` in order. As a text sink it never fails: its
    /// error type has no values.
    pub fn write_str(&mut self, s: &str) -> (r: Result<(), Infallible>)
        ensures
            r is Ok,
            final(self).strategy() == old(self).strategy(),
            final(self).pending() == old(self).pending() + carried(
                old(self).strategy(),
                widen_all(encode_utf8(s@)),
            ),
    {
        write_str(self, s);
        Ok(())
    }

    /// Hands over the pending words, oldest first, and leaves none pending.
    pub fn take_pending(&mut self) -> (words: Vec<u32>)
        ensures
            words@ == old(self).pending(),
            final(self).strategy() == old(self).strategy(),
            final(self).pending() == Seq::<u32>::empty(),
    {
        let mut words = Vec::new();
        std::mem::swap(&mut words, &mut self.outbox);
        words
    }
}

/// Writes `bytes` in order, each zero-extended to a word.
pub fn write_all(w: &mut Writer, bytes: &[u8])
    ensures
        final(w).strategy() == old(w).strategy(),
        final(w).pending() == old(w).pending() + carried(old(w).strategy(), widen_all(bytes@)),
{
    let mut i: usize = 0;
    while i < bytes.len()
        invariant
            0 <= i <= bytes@.len(),
            w.strategy() == old(w).strategy(),
            w.pending() == old(w).pending() + carried(
                old(w).strategy(),
                widen_all(bytes@.subrange(0, i as int)),
            ),
        decreases bytes@.len() - i,
    {
        w.write_byte(bytes[i]);
        assert(bytes@.subrange(0, i + 1) =~= bytes@.subrange(0, i as int).push(bytes@[i as int]));
        assert(widen_all(bytes@.subrange(0, i + 1)) =~= widen_all(bytes@.subrange(0, i as int))
            + widen_all(seq![bytes@[i as int]]));
        i = i + 1;
    }
    assert(bytes@.subrange(0, i as int) =~= bytes@);
}

/// Writes the UTF-8 bytes of `string` in order.
pub fn write_str(w: &mut Writer, string: &str)
    ensures
        final(w).strategy() == old(w).strategy(),
        final(w).pending() == old(w).pending() + carried(
            old(w).strategy(),
            widen_all(encode_utf8(string@)),
        ),
{
    write_all(w, string.as_bytes());
}

/// Zero-extension loses nothing: the host reads back every written byte, in
/// order, with none dropped or repeated, and successive writes reach it as one
/// stream in the order they were made.
pub proof fn law_host_sees_bytes(strategy: Strategy, first: Seq<u8>, second: Seq<u8>)
    requires
        strategy.delivers(),
    ensures
        host_bytes(carried(strategy, widen_all(first))) == first,
        host_bytes(carried(strategy, widen_all(first)) + carried(strategy, widen_all(second)))
            == first + second,
{
    assert(host_bytes(widen_all(first)) =~= first);
    assert(widen_all(first) + widen_all(second) =~= widen_all(first + second));
    assert(host_bytes(widen_all(first + second)) =~= first + second);
}

/// The disabled strategy takes any sequence of words, of any length, the empty
/// one included, and passes none of them on.
pub proof fn law_disabled_drops_all(words: Seq<u32>)
    ensures
        carried(Strategy::Disabled, words) == Seq::<u32>::empty(),
{
}

} // verus!
