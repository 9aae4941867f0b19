//! Growable, alignment-respecting staging byte buffer.
//!
//! The arena is a write-once scratch space: appends return the byte offset at
//! which the data landed, `clear` resets the used size without releasing
//! capacity, and capacity only ever grows to the exact peak requirement.

use vstd::prelude::*;

verus! {

/// Every offset handed out by the arena is a multiple of this.
pub const ARENA_ALIGNMENT: usize = 8;

/// `n` rounded up to the next multiple of the arena alignment.
pub open spec fn round_up_align(n: int) -> int {
    let a = ARENA_ALIGNMENT as int;
    n + ((a - n % a) % a)
}

pub proof fn lemma_round_up_align(n: int)
    requires
        n >= 0,
    ensures
        round_up_align(n) % (ARENA_ALIGNMENT as int) == 0,
        n <= round_up_align(n) < n + ARENA_ALIGNMENT,
{
}

pub struct Arena {
    data: Vec<u8>,
    used: usize,
}

impl Arena {
    /// Bytes appended so far, in append order.
    pub closed spec fn contents(&self) -> Seq<u8> {
        self.data@.subrange(0, self.used as int)
    }

    /// Bytes currently reserved; reallocation happens only above this.
    pub closed spec fn capacity(&self) -> int {
        self.data@.len() as int
    }

    /// Number of bytes in use, and the offset of the next append.
    pub closed spec fn used_size(&self) -> int {
        self.used as int
    }

    pub open spec fn wf(&self) -> bool {
        &&& 0 <= self.used_size() <= self.capacity()
        &&& self.used_size() % (ARENA_ALIGNMENT as int) == 0
    }

    /// How one append changes the arena: the old contents stay at their
    /// offsets, the new bytes land at the old used size, the used size
    /// advances by the rounded-up length, and capacity grows only when the
    /// new used size exceeds it, and then to exactly that size.
    pub open spec fn extended(pre: Arena, bytes: Seq<u8>, post: Arena) -> bool {
        &&& post.used_size() == pre.used_size() + round_up_align(bytes.len() as int)
        &&& post.capacity() == if pre.used_size() + round_up_align(bytes.len() as int)
                > pre.capacity() {
                pre.used_size() + round_up_align(bytes.len() as int)
            } else {
                pre.capacity()
            }
        &&& post.contents().subrange(0, pre.used_size()) == pre.contents()
        &&& post.contents().subrange(pre.used_size(), pre.used_size() + bytes.len()) == bytes
    }

    pub fn new(size: usize) -> (arena: Arena)
        ensures
            arena.wf(),
            arena.capacity() == size,
            arena.used_size() == 0,
            arena.contents() == Seq::<u8>::empty(),
    {
        let arena = Arena { data: vec![0u8; size], used: 0 };
        proof {
            assert(arena.contents() =~= Seq::<u8>::empty());
        }
        arena
    }

    /// Appends `bytes` and returns the byte offset at which they begin.
    #[verifier::loop_isolation(false)]
    pub fn extend(&mut self, bytes: &[u8]) -> (offset: usize)
        requires
            old(self).wf(),
            old(self).used_size() + bytes@.len() + ARENA_ALIGNMENT <= usize::MAX,
        ensures
            final(self).wf(),
            offset == old(self).used_size(),
            Arena::extended(*old(self), bytes@, *final(self)),
    {
        let offset = self.used;
        let padded = round_up(bytes.len());
        let new_used = offset + padded;
        let old_len = self.data.len();
        let target_len = if new_used > old_len {
            new_used
        } else {
            old_len
        };
        self.data.truncate(offset);
        self.data.extend_from_slice(bytes);
        while self.data.len() < target_len
            invariant
                offset + bytes@.len() <= self.data@.len() <= target_len,
                self.data@.subrange(0, offset + bytes@.len())
                    == old(self).data@.subrange(0, offset as int) + bytes@,
            decreases target_len - self.data@.len(),
        {
            self.data.push(0u8);
            proof {
                assert(self.data@.subrange(0, offset + bytes@.len())
                    =~= self.data@.drop_last().subrange(0, offset + bytes@.len()));
            }
        }
        self.used = new_used;
        proof {
            lemma_round_up_align(bytes@.len() as int);
            assert(self.contents().subrange(0, offset as int)
                =~= old(self).contents());
            assert(self.contents().subrange(offset as int, offset + bytes@.len())
                =~= bytes@);
        }
        offset
    }

    /// The raw backing bytes; the prefix up to the used size holds the
    /// appended contents.
    pub fn ptr(&self) -> (r: &Vec<u8>)
        ensures
            r@.len() == self.capacity(),
            self.wf() ==> r@.subrange(0, self.used_size()) == self.contents(),
    {
        &self.data
    }

    /// Bytes in use: the offset the next append will return.
    pub fn used(&self) -> (r: usize)
        ensures
            r == self.used_size(),
    {
        self.used
    }

    /// The arena's capacity in bytes (its allocation footprint).
    pub fn size(&self) -> (r: usize)
        ensures
            r == self.capacity(),
    {
        self.data.len()
    }

    /// Forgets the contents without releasing capacity.
    pub fn clear(&mut self)
        ensures
            final(self).wf(),
            final(self).used_size() == 0,
            final(self).capacity() == old(self).capacity(),
            final(self).contents() == Seq::<u8>::empty(),
    {
        self.used = 0;
        proof {
            assert(self.contents() =~= Seq::<u8>::empty());
        }
    }
}

fn round_up(n: usize) -> (r: usize)
    requires
        n + ARENA_ALIGNMENT <= usize::MAX,
    ensures
        r == round_up_align(n as int),
{
    let rem = n % ARENA_ALIGNMENT;
    if rem == 0 {
        n
    } else {
        n + (ARENA_ALIGNMENT - rem)
    }
}

/// Round trip: three byte runs appended in turn are each reproduced exactly
/// at the offsets the arena returned for them (the used size before each
/// append).
pub proof fn lemma_round_trip(
    s0: Arena,
    s1: Arena,
    s2: Arena,
    s3: Arena,
    a: Seq<u8>,
    b: Seq<u8>,
    c: Seq<u8>,
)
    requires
        s0.wf(),
        s1.wf(),
        s2.wf(),
        s3.wf(),
        Arena::extended(s0, a, s1),
        Arena::extended(s1, b, s2),
        Arena::extended(s2, c, s3),
    ensures
        s3.contents().subrange(s0.used_size(), s0.used_size() + a.len()) == a,
        s3.contents().subrange(s1.used_size(), s1.used_size() + b.len()) == b,
        s3.contents().subrange(s2.used_size(), s2.used_size() + c.len()) == c,
{
    lemma_round_up_align(a.len() as int);
    lemma_round_up_align(b.len() as int);
    lemma_round_up_align(c.len() as int);
    assert(s3.contents().subrange(s1.used_size(), s1.used_size() + b.len())
        =~= s3.contents().subrange(0, s2.used_size())
            .subrange(s1.used_size(), s1.used_size() + b.len()));
    assert(s2.contents().subrange(s1.used_size(), s1.used_size() + b.len()) == b);
    assert(s3.contents().subrange(s0.used_size(), s0.used_size() + a.len())
        =~= s3.contents().subrange(0, s2.used_size())
            .subrange(s0.used_size(), s0.used_size() + a.len()));
    assert(s2.contents().subrange(s0.used_size(), s0.used_size() + a.len())
        =~= s2.contents().subrange(0, s1.used_size())
            .subrange(s0.used_size(), s0.used_size() + a.len()));
}

/// Clearing and then appending no more than the former peak reuses the
/// existing capacity: no reallocation happens.
pub proof fn lemma_clear_reuses_capacity(s: Arena, t: Arena, u: Arena, d: Seq<u8>)
    requires
        t.used_size() == 0,
        t.capacity() == s.capacity(),
        Arena::extended(t, d, u),
        round_up_align(d.len() as int) <= s.capacity(),
    ensures
        u.capacity() == s.capacity(),
{
}

} // verus!
