//! The per-module opaque state block.
//!
//! A module's state lives in a raw byte block owned by the host, so that the
//! bytes survive unloading and reloading the code unit that interprets them.
//! The block is sized on demand to whatever the loaded unit reports as its
//! required state size, rounded up to the platform word width; growing
//! zero-fills the new bytes, shrinking keeps the retained prefix, and in both
//! directions every byte inside the surviving range is preserved bit for bit.

use vstd::prelude::*;

verus! {

/// Word width, in bytes, that state sizes are rounded up to.
pub const WORD_BYTES: usize = 8;

/// The byte length a buffer has after being resized for a requested state
/// size of `n` bytes: `n` rounded up to a multiple of the word width.
pub open spec fn padded_len(n: int) -> int {
    ((n + 7) / 8) * 8
}

/// What one resize does to the stored bytes: truncate to the padded length,
/// or extend with zeroes up to it.
pub open spec fn spec_resize(s: Seq<u8>, n: int) -> Seq<u8> {
    if padded_len(n) <= s.len() {
        s.take(padded_len(n))
    } else {
        s + Seq::new((padded_len(n) - s.len()) as nat, |i: int| 0u8)
    }
}

/// The padded length is a multiple of the word width, is never smaller than
/// the requested size, and adds less than one word of slack.
pub proof fn lemma_padded_len(n: int)
    requires
        0 <= n,
    ensures
        n <= padded_len(n) < n + 8,
        padded_len(n) % 8 == 0,
{
    assert(n <= ((n + 7) / 8) * 8 < n + 8) by (nonlinear_arith);
    assert((((n + 7) / 8) * 8) % 8 == 0) by (nonlinear_arith);
}

/// A module-owned block of raw state bytes.
///
/// Only the loaded unit's own lifecycle functions may interpret the
/// contents; the host merely stores the bytes and resizes the block.
pub struct StateBuffer {
    data: Vec<u8>,
}

impl View for StateBuffer {
    type V = Seq<u8>;

    closed spec fn view(&self) -> Seq<u8> {
        self.data@
    }
}

impl StateBuffer {
    /// An empty block: no unit has ever reported a state size.
    pub fn new() -> (r: StateBuffer)
        ensures
            r@ == Seq::<u8>::empty(),
    {
        StateBuffer { data: Vec::new() }
    }

    /// Current size of the block in bytes.
    pub fn len(&self) -> (r: usize)
        ensures
            r == self@.len(),
    {
        self.data.len()
    }

    /// Reads one byte of the stored state.
    pub fn read(&self, i: usize) -> (r: u8)
        requires
            i < self@.len(),
        ensures
            r == self@[i as int],
    {
        self.data[i]
    }

    /// Overwrites one byte of the stored state.
    pub fn write(&mut self, i: usize, b: u8)
        requires
            i < old(self)@.len(),
        ensures
            final(self)@ == old(self)@.update(i as int, b),
    {
        self.data[i] = b;
    }

    /// Resizes the block for a reported state size of `new_size` bytes.
    ///
    /// The new length is `new_size` rounded up to the word width; bytes in
    /// the surviving prefix are preserved and newly exposed bytes are zero.
    pub fn resize(&mut self, new_size: usize)
        requires
            new_size <= usize::MAX - 7,
        ensures
            final(self)@ == spec_resize(old(self)@, new_size as int),
    {
        proof {
            lemma_padded_len(new_size as int);
        }
        let words = (new_size + 7) / WORD_BYTES;
        assert(words * 8 == padded_len(new_size as int)) by (nonlinear_arith)
            requires
                words == (new_size + 7) / 8,
                0 <= new_size,
        ;
        let target = words * WORD_BYTES;
        if target <= self.data.len() {
            self.data.truncate(target);
            assert(self@ =~= spec_resize(old(self)@, new_size as int));
        } else {
            while self.data.len() < target
                invariant
                    old(self)@.len() < target <= usize::MAX,
                    old(self)@.len() <= self.data@.len() <= target,
                    self.data@.subrange(0, old(self)@.len() as int) == old(self)@,
                    forall|i: int|
                        old(self)@.len() <= i < self.data@.len() ==> self.data@[i] == 0u8,
                decreases target - self.data@.len(),
            {
                self.data.push(0u8);
                assert(self.data@.subrange(0, old(self)@.len() as int) == old(self)@);
            }
            assert(self@ =~= spec_resize(old(self)@, new_size as int));
        }
    }

    /// Direct access to the stored bytes, for handing the block to a loaded
    /// unit as its opaque state.  The callee must treat the block as a fixed
    /// region: the unit side of the lifecycle boundary receives only a raw
    /// pointer and cannot reallocate it.
    pub fn bytes_mut(&mut self) -> (r: &mut Vec<u8>)
        ensures
            (*r)@ == old(self)@,
            final(self)@ == (*final(r))@,
    {
        &mut self.data
    }
}

/// Every byte that both the old and the new block can hold is preserved
/// exactly by a resize, whichever direction the size moved.
pub proof fn lemma_resize_preserves_prefix(s: Seq<u8>, n: int, i: int)
    requires
        0 <= n,
        0 <= i < s.len(),
        i < padded_len(n),
    ensures
        spec_resize(s, n)[i] == s[i],
{
    lemma_padded_len(n);
}

/// The bytes after a whole sequence of resizes, applied in order.
pub open spec fn apply_resizes(s: Seq<u8>, sizes: Seq<int>) -> Seq<u8>
    decreases sizes.len(),
{
    if sizes.len() == 0 {
        s
    } else {
        apply_resizes(spec_resize(s, sizes[0]), sizes.drop_first())
    }
}

/// Across any sequence of grows and shrinks, a byte that stays inside every
/// intermediate block is preserved bit for bit.
pub proof fn lemma_resize_sequence_preserves(s: Seq<u8>, sizes: Seq<int>, i: int)
    requires
        0 <= i < s.len(),
        forall|k: int| 0 <= k < sizes.len() ==> 0 <= #[trigger] sizes[k] && i < padded_len(sizes[k]),
    ensures
        i < apply_resizes(s, sizes).len(),
        apply_resizes(s, sizes)[i] == s[i],
    decreases sizes.len(),
{
    if sizes.len() > 0 {
        lemma_padded_len(sizes[0]);
        lemma_resize_preserves_prefix(s, sizes[0], i);
        assert(forall|k: int|
            0 <= k < sizes.drop_first().len() ==> 0 <= #[trigger] sizes.drop_first()[k]
                && i < padded_len(sizes.drop_first()[k])) by {
            assert(forall|k: int|
                0 <= k < sizes.drop_first().len() ==> sizes.drop_first()[k] == sizes[k + 1]);
        }
        lemma_resize_sequence_preserves(spec_resize(s, sizes[0]), sizes.drop_first(), i);
    }
}

/// Growing a block and then shrinking it back to a size with the original
/// padded length restores the original contents bit for bit.
pub proof fn lemma_resize_round_trip(s: Seq<u8>, grow: int, back: int)
    requires
        0 <= grow,
        0 <= back,
        padded_len(back) == s.len(),
        s.len() <= padded_len(grow),
    ensures
        spec_resize(spec_resize(s, grow), back) == s,
{
    lemma_padded_len(grow);
    lemma_padded_len(back);
    assert(spec_resize(spec_resize(s, grow), back) =~= s);
}

} // verus!
