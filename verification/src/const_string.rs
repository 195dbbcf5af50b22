//! The growable byte buffer used as a string.
//!
//! A [`ConstString`] owns one region obtained from [`ConstAlloc`], of
//! which the first `size` bytes are the buffer's visible content; the view
//! of the buffer is that byte sequence.  Appending reserves capacity by
//! rounding the needed size up to the next power of two, which gives
//! amortized constant-time growth, and never shrinks the region.  The
//! bytes are treated as text: every append keeps them in the ASCII range,
//! so the terminal [`ConstString::leak`] operation can hand the content
//! out as an exact-sized immutable `String`.

use vstd::prelude::*;
use vstd::pervasive::unreached;
use vstd::slice::slice_index_get;
use vstd::string::StringSliceAdditionalSpecFns;

use crate::CAP_LIMIT;
use crate::const_alloc::{is_power_of_two, Block, ConstAlloc, Layout};

verus! {

/// True when every byte is in the ASCII range.
pub open spec fn is_ascii_bytes(s: Seq<u8>) -> bool {
    forall|i: int| 0 <= i < s.len() ==> s[i] < 0x80
}

/// The characters spelled by a sequence of ASCII bytes.
pub open spec fn ascii_chars(s: Seq<u8>) -> Seq<char> {
    Seq::new(s.len(), |i: int| s[i] as char)
}

/// The bytes of an ASCII string are ASCII, one per character.
pub proof fn lemma_ascii_str_bytes(s: &str)
    requires
        s.is_ascii(),
    ensures
        is_ascii_bytes(s.spec_bytes()),
        s.spec_bytes().len() == s@.len(),
        forall|i: int| 0 <= i < s@.len() ==> s.spec_bytes()[i] == s@[i] as u8,
{
    broadcast use vstd::string::is_ascii_spec_bytes;
    broadcast use vstd::utf8::is_ascii_chars_nat_bound;

    assert(is_ascii_bytes(s.spec_bytes()));
}

/// The smallest power of two that is at least `n`, and at least one.
pub open spec fn next_power_of_two(n: nat) -> nat
    decreases n,
{
    if n <= 1 {
        1
    } else {
        2 * next_power_of_two(((n + 1) / 2) as nat)
    }
}

/// Two distinct powers of two are at least a factor of two apart.
proof fn lemma_pow2_gap(p: int, q: int)
    requires
        is_power_of_two(p),
        is_power_of_two(q),
        p < q,
    ensures
        2 * p <= q,
    decreases q,
{
    if p > 1 {
        lemma_pow2_gap(p / 2, q / 2);
    }
}

/// `next_power_of_two` yields a power of two no smaller than its argument.
pub proof fn lemma_next_pow2_bounds(n: nat)
    ensures
        next_power_of_two(n) >= 1,
        next_power_of_two(n) >= n,
        is_power_of_two(next_power_of_two(n) as int),
    decreases n,
{
    if n > 1 {
        lemma_next_pow2_bounds(((n + 1) / 2) as nat);
    }
}

/// `next_power_of_two` yields the smallest such power of two.
pub proof fn lemma_next_pow2_min(n: nat, q: int)
    requires
        is_power_of_two(q),
        q >= n,
    ensures
        next_power_of_two(n) <= q,
    decreases n,
{
    if n > 1 {
        lemma_next_pow2_min(((n + 1) / 2) as nat, q / 2);
    }
}

/// The capacity bound is itself a power of two, so capacities rounded up
/// from sizes within the bound stay within the bound; in particular a
/// reserve never moves the capacity past the bound.
pub proof fn lemma_next_pow2_within_cap(n: nat)
    requires
        n <= CAP_LIMIT,
    ensures
        next_power_of_two(n) <= CAP_LIMIT,
{
    assert(is_power_of_two(CAP_LIMIT as int)) by {
        reveal_with_fuel(is_power_of_two, 32);
    }
    lemma_next_pow2_min(n, CAP_LIMIT as int);
}

/// Computes `next_power_of_two` at runtime.
pub(crate) fn next_pow2(n: usize) -> (r: usize)
    requires
        n <= CAP_LIMIT,
    ensures
        r == next_power_of_two(n as nat),
        r <= CAP_LIMIT,
{
    proof {
        lemma_next_pow2_bounds(n as nat);
        lemma_next_pow2_within_cap(n as nat);
    }
    let mut p: usize = 1;
    while p < n
        invariant
            n <= CAP_LIMIT,
            p >= 1,
            is_power_of_two(p as int),
            p <= next_power_of_two(n as nat),
            next_power_of_two(n as nat) <= CAP_LIMIT,
            is_power_of_two(next_power_of_two(n as nat) as int),
            next_power_of_two(n as nat) >= n,
        decreases next_power_of_two(n as nat) - p,
    {
        proof {
            lemma_pow2_gap(p as int, next_power_of_two(n as nat) as int);
        }
        p = p * 2;
    }
    proof {
        lemma_next_pow2_min(n as nat, p as int);
    }
    p
}

/// Law: appends compose.  Each append operation's contract states that
/// the buffer holds its old content followed by the pushed fragment;
/// this lemma lifts two consecutive appends to the concatenation of the
/// fragments in call order, so a whole sequence of pushes leaves the
/// buffer holding the fragments concatenated in call order, with length
/// the sum of the fragment lengths.
pub proof fn lemma_append_order(base: Seq<u8>, first: Seq<u8>, second: Seq<u8>)
    ensures
        (base + first) + second == base + (first + second),
        ((base + first) + second).len() == base.len() + first.len() + second.len(),
{
    assert((base + first) + second =~= base + (first + second));
}

/// Law: reserving is idempotent with respect to observable content.  The
/// contract of `reserve` already states that the content and its length
/// never change; this lemma adds that the capacity `reserve` settles on
/// depends only on the content length and the request, so repeating the
/// same reservation changes nothing at all, capacity included.
pub proof fn lemma_reserve_idempotent(cap: nat, len: nat, additional: nat)
    ensures
        ({
            let once = if cap >= next_power_of_two(len + additional) {
                cap
            } else {
                next_power_of_two(len + additional)
            };
            let twice = if once >= next_power_of_two(len + additional) {
                once
            } else {
                next_power_of_two(len + additional)
            };
            twice == once
        }),
{
}

/// The growable byte buffer.  Its view is the sequence of content bytes.
pub struct ConstString {
    buf: Block,
    size: usize,
    alloc: ConstAlloc,
}

impl View for ConstString {
    type V = Seq<u8>;

    closed spec fn view(&self) -> Seq<u8> {
        self.buf@.take(self.size as int)
    }
}

impl ConstString {
    /// The element capacity of the backing region.
    pub closed spec fn spec_cap(&self) -> nat {
        self.buf@.len()
    }

    /// The buffer owns a region at least as large as its content, stays
    /// within the capacity bound, draws on the runtime strategy, and holds
    /// only ASCII bytes.
    pub closed spec fn wf(&self) -> bool {
        &&& self.size <= self.buf@.len()
        &&& self.buf@.len() <= CAP_LIMIT
        &&& self.buf.spec_align() == 1
        &&& self.alloc.spec_mode() is Runtime
        &&& is_ascii_bytes(self@)
    }

    /// The content is never longer than the capacity bound.
    pub proof fn lemma_wf_len(&self)
        requires
            self.wf(),
        ensures
            self@.len() <= CAP_LIMIT,
            is_ascii_bytes(self@),
    {
    }

    /// Ensures the backing region can take `additional` more bytes after
    /// the current content.  The target capacity is the next power of two
    /// at or above `size + additional`; if the buffer already has that
    /// much, nothing changes, and otherwise a fresh region of exactly the
    /// target size replaces the old one.  The content is unaffected.
    pub fn reserve(&mut self, additional: usize)
        requires
            old(self).wf(),
            old(self)@.len() + additional <= CAP_LIMIT,
        ensures
            final(self).wf(),
            final(self)@ == old(self)@,
            final(self).spec_cap() == if old(self).spec_cap() >= next_power_of_two(
                (old(self)@.len() + additional) as nat,
            ) {
                old(self).spec_cap()
            } else {
                next_power_of_two((old(self)@.len() + additional) as nat)
            },
            final(self).spec_cap() >= old(self)@.len() + additional,
    {
        proof {
            lemma_next_pow2_bounds((old(self)@.len() + additional) as nat);
            lemma_next_pow2_within_cap((old(self)@.len() + additional) as nat);
        }
        let next_cap = next_pow2(self.size + additional);
        if self.buf.len() >= next_cap {
            return ;
        }
        let old_layout = match Layout::from_size_align(self.buf.len(), 1) {
            Some(l) => l,
            None => unreached(),
        };
        let new_layout = match Layout::from_size_align(next_cap, 1) {
            Some(l) => l,
            None => unreached(),
        };
        let mut taken = Block::sentinel();
        core::mem::swap(&mut self.buf, &mut taken);
        let grown = if taken.len() > 0 {
            self.alloc.grow(taken, old_layout, new_layout)
        } else {
            self.alloc.allocate(new_layout)
        };
        match grown {
            Ok(b) => {
                self.buf = b;
            },
            Err(_) => unreached(),
        }
        proof {
            assert(self@ =~= old(self)@);
        }
    }

    /// Appends the bytes of `part`, which must all be ASCII.
    pub fn push_bytes(&mut self, part: &[u8])
        requires
            old(self).wf(),
            is_ascii_bytes(part@),
            old(self)@.len() + part@.len() <= CAP_LIMIT,
        ensures
            final(self).wf(),
            final(self)@ == old(self)@ + part@,
    {
        self.reserve(part.len());
        let count = part.len();
        let ghost base = self@;
        let mut i: usize = 0;
        while i < count
            invariant
                i <= count,
                count == part@.len(),
                self.size + count <= self.buf@.len(),
                self.buf@.len() <= CAP_LIMIT,
                self.buf.spec_align() == 1,
                self.alloc.spec_mode() is Runtime,
                is_ascii_bytes(part@),
                self@ == base,
                is_ascii_bytes(base),
                forall|j: int| 0 <= j < i ==> self.buf@[self.size + j] == part@[j],
            decreases count - i,
        {
            let b = *slice_index_get(part, i);
            self.buf.write(self.size + i, b);
            proof {
                assert(self@ =~= base);
            }
            i = i + 1;
        }
        self.size = self.size + count;
        proof {
            assert(self@ =~= base + part@);
        }
    }

    /// Appends the text of `part`, which must be ASCII, as its bytes.
    pub fn push_str(&mut self, part: &str)
        requires
            old(self).wf(),
            part.is_ascii(),
            old(self)@.len() + part@.len() <= CAP_LIMIT,
        ensures
            final(self).wf(),
            final(self)@ == old(self)@ + part.spec_bytes(),
            final(self)@.len() == old(self)@.len() + part@.len(),
    {
        proof {
            broadcast use vstd::string::is_ascii_spec_bytes;
            broadcast use vstd::utf8::is_ascii_chars_nat_bound;

            assert(is_ascii_bytes(part.spec_bytes()));
        }
        self.push_bytes(part.as_bytes());
    }

    /// Appends one ASCII byte.
    pub fn push_ascii(&mut self, ch: u8)
        requires
            old(self).wf(),
            ch < 0x80,
            old(self)@.len() + 1 <= CAP_LIMIT,
        ensures
            final(self).wf(),
            final(self)@ == old(self)@.push(ch),
    {
        self.reserve(1);
        self.buf.write(self.size, ch);
        let ghost base = old(self)@;
        self.size = self.size + 1;
        proof {
            assert(self@ =~= base.push(ch));
        }
    }

    /// A read-only borrow of the current content bytes.
    pub fn as_bytes(&self) -> (r: &[u8])
        requires
            self.wf(),
        ensures
            r@ == self@,
    {
        self.buf.prefix(self.size)
    }

    /// Shrinks the backing region to exactly the content size.
    fn shrink_to_size(&mut self)
        requires
            old(self).wf(),
        ensures
            final(self).wf(),
            final(self)@ == old(self)@,
            final(self).spec_cap() == old(self)@.len(),
    {
        let old_layout = match Layout::from_size_align(self.buf.len(), 1) {
            Some(l) => l,
            None => unreached(),
        };
        let new_layout = match Layout::from_size_align(self.size, 1) {
            Some(l) => l,
            None => unreached(),
        };
        let mut taken = Block::sentinel();
        core::mem::swap(&mut self.buf, &mut taken);
        match self.alloc.shrink(taken, old_layout, new_layout) {
            Ok(b) => {
                self.buf = b;
            },
            Err(_) => unreached(),
        }
        proof {
            assert(self@ =~= old(self)@);
        }
    }

    /// Freezes the buffer: the region is cut down to exactly the content
    /// size and the content is surrendered as an immutable `String`.  The
    /// buffer is consumed; no deallocation follows.
    pub fn leak(self) -> (r: String)
        requires
            self.wf(),
        ensures
            r@ == ascii_chars(self@),
            r@.len() == self@.len(),
    {
        let mut this = self;
        this.shrink_to_size();
        let ghost content = this@;
        let ConstString { buf, size: _, alloc: _ } = this;
        proof {
            assert(buf@ =~= content);
        }
        string_from_ascii(buf.into_bytes())
    }
}

impl Default for ConstString {
    /// An empty buffer with the default capacity of sixteen bytes.
    fn default() -> (r: ConstString)
        ensures
            r.wf(),
            r@ =~= Seq::<u8>::empty(),
            r.spec_cap() == 16,
    {
        let layout = match Layout::array(1, 1, 16) {
            Some(l) => l,
            None => unreached(),
        };
        let mut alloc = ConstAlloc::new_runtime();
        let buf = match alloc.allocate(layout) {
            Ok(b) => b,
            Err(_) => unreached(),
        };
        let r = ConstString { buf, size: 0, alloc };
        proof {
            assert(r@ =~= Seq::<u8>::empty());
        }
        r
    }
}

/// Relies on `String::from_utf8`: a byte sequence in the ASCII range is
/// valid UTF-8, and converts to the string of exactly those characters.
#[verifier::external_body]
fn string_from_ascii(bytes: Vec<u8>) -> (r: String)
    requires
        is_ascii_bytes(bytes@),
    ensures
        r@ == ascii_chars(bytes@),
{
    match String::from_utf8(bytes) {
        Ok(s) => s,
        Err(_) => String::new(),
    }
}

} // verus!
