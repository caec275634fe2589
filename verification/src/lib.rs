//! A counting byte sink: it measures how much data is written to it,
//! discarding the data itself. Useful to precompute how much space a
//! serialized value needs before allocating a real output buffer.

use vstd::prelude::*;

verus! {

/// Relies on `std::io::Error` only as the error half of `std::io::Result`,
/// for uniformity with real sinks. It stays opaque: no operation of this
/// crate ever constructs or inspects one.
#[verifier::external_type_specification]
#[verifier::external_body]
pub struct ExIoError(std::io::Error);

/// Simple wrapper around `u64` which counts how much data was written,
/// discarding the data itself.
#[derive(Clone, Copy, PartialEq, Eq, Structural, Hash, PartialOrd, Ord, Debug)]
pub struct WrittenSize(pub u64);

impl WrittenSize {
    /// Create a new instance with the counter initialized to zero.
    pub fn new() -> (r: WrittenSize)
        ensures
            r.0 == 0,
    {
        WrittenSize(0)
    }

    /// Get the computed size.
    pub fn size(self) -> (r: u64)
        ensures
            r == self.0,
    {
        self.0
    }

    /// Discard `buf`, add its length to the counter, and report every byte
    /// as accepted. Never fails: no I/O happens, so no I/O error can occur.
    pub fn write(&mut self, buf: &[u8]) -> (r: Result<usize, std::io::Error>)
        requires
            old(self).0 + buf@.len() <= u64::MAX,
        ensures
            final(self).0 == old(self).0 + buf@.len(),
            r is Ok,
            r->Ok_0 == buf@.len(),
    {
        self.0 = self.0 + buf.len() as u64;
        Ok(buf.len())
    }

    /// Discard `buf`, add its length to the counter, and signal that all of
    /// it was consumed. Never fails.
    pub fn write_all(&mut self, buf: &[u8]) -> (r: Result<(), std::io::Error>)
        requires
            old(self).0 + buf@.len() <= u64::MAX,
        ensures
            final(self).0 == old(self).0 + buf@.len(),
            r is Ok,
    {
        self.0 = self.0 + buf.len() as u64;
        Ok(())
    }

    /// No-op: there is nothing to flush. Always succeeds and leaves the
    /// counter untouched.
    pub fn flush(&mut self) -> (r: Result<(), std::io::Error>)
        ensures
            *final(self) == *old(self),
            r is Ok,
    {
        Ok(())
    }
}

/// The sum of a sequence of byte counts.
pub open spec fn sum_lens(lens: Seq<int>) -> int
    decreases lens.len(),
{
    if lens.len() == 0 {
        0
    } else {
        sum_lens(lens.drop_last()) + lens.last()
    }
}

/// After any run of writes whose byte counts are `lens`, starting from a
/// fresh sink, the recorded size is the sum of those counts. `states` is the
/// chain of sink values the run goes through: each step adds one count, as
/// the contracts of `write` and `write_all` state.
pub proof fn lemma_size_is_sum_of_writes(states: Seq<WrittenSize>, lens: Seq<int>)
    requires
        states.len() == lens.len() + 1,
        states[0].0 == 0,
        forall|i: int|
            0 <= i < lens.len() ==> states[i + 1].0 == states[i].0 + #[trigger] lens[i],
    ensures
        states.last().0 == sum_lens(lens),
    decreases lens.len(),
{
    if lens.len() > 0 {
        lemma_size_is_sum_of_writes(states.drop_last(), lens.drop_last());
        assert(states[lens.len() - 1].0 + lens[lens.len() - 1] == states[lens.len() as int].0);
    }
}

/// Only the total byte count matters, not how it is split into calls: two
/// runs of writes whose byte counts sum to the same value leave their sinks
/// with the same size.
pub proof fn lemma_total_ignores_call_boundaries(
    states1: Seq<WrittenSize>,
    lens1: Seq<int>,
    states2: Seq<WrittenSize>,
    lens2: Seq<int>,
)
    requires
        states1.len() == lens1.len() + 1,
        states1[0].0 == 0,
        forall|i: int|
            0 <= i < lens1.len() ==> states1[i + 1].0 == states1[i].0 + #[trigger] lens1[i],
        states2.len() == lens2.len() + 1,
        states2[0].0 == 0,
        forall|i: int|
            0 <= i < lens2.len() ==> states2[i + 1].0 == states2[i].0 + #[trigger] lens2[i],
        sum_lens(lens1) == sum_lens(lens2),
    ensures
        states1.last().0 == states2.last().0,
{
    lemma_size_is_sum_of_writes(states1, lens1);
    lemma_size_is_sum_of_writes(states2, lens2);
}

/// Flushing is idempotent: any run of flushes, each of which leaves the sink
/// as it was (the contract of `flush`), has no observable effect. `states` is
/// the chain of sink values the run goes through.
pub proof fn lemma_flush_run_has_no_effect(states: Seq<WrittenSize>)
    requires
        states.len() >= 1,
        forall|i: int| 0 <= i < states.len() - 1 ==> states[i + 1] == #[trigger] states[i],
    ensures
        states.last() == states[0],
    decreases states.len(),
{
    if states.len() > 1 {
        lemma_flush_run_has_no_effect(states.drop_last());
        assert(states[states.len() - 1] == states[states.len() - 2]);
    }
}

impl Default for WrittenSize {
    /// Same as `new`: a sink with the counter at zero.
    fn default() -> (r: WrittenSize)
        ensures
            r.0 == 0,
    {
        WrittenSize(0)
    }
}

} // verus!
