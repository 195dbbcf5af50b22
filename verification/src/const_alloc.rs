//! The dual-strategy allocator underlying the buffer types.
//!
//! [`ConstAlloc`] presents one allocation contract over two backing
//! strategies, chosen when the allocator is constructed.  The *static*
//! strategy carves regions out of a bounded arena budget and never returns
//! memory to it: deallocation is accepted for symmetry but reclaims
//! nothing, and allocation fails exactly when the remaining budget is too
//! small.  The *runtime* strategy draws on the ordinary process heap and
//! never reports failure.  Both strategies hand out regions as [`Block`]
//! values sized per the requested [`Layout`]; growing preserves the
//! previously valid bytes, the zeroed operations guarantee zero bytes
//! beyond them, and shrinking keeps the prefix.

use vstd::prelude::*;

verus! {

/// True when `n` is a power of two.
pub open spec fn is_power_of_two(n: int) -> bool
    decreases n,
{
    if n <= 0 {
        false
    } else if n == 1 {
        true
    } else {
        n % 2 == 0 && is_power_of_two(n / 2)
    }
}

/// A size/alignment pair describing one allocation request.
///
/// A layout is well formed when its alignment is a power of two; sizes are
/// plain byte counts.
#[derive(Clone, Copy, Debug)]
pub struct Layout {
    pub size: usize,
    pub align: usize,
}

impl Layout {
    pub open spec fn wf(&self) -> bool {
        is_power_of_two(self.align as int)
    }

    /// Checks at runtime that `align` is a power of two.
    pub fn check_power_of_two(align: usize) -> (r: bool)
        ensures
            r == is_power_of_two(align as int),
    {
        let mut a: usize = align;
        while a > 1
            invariant
                is_power_of_two(align as int) == is_power_of_two(a as int),
            decreases a,
        {
            if a % 2 == 1 {
                return false;
            }
            a = a / 2;
        }
        a == 1
    }

    /// Builds a layout, rejecting alignments that are not powers of two.
    pub fn from_size_align(size: usize, align: usize) -> (r: Option<Layout>)
        ensures
            r is Some <==> is_power_of_two(align as int),
            r is Some ==> r->Some_0 == (Layout { size, align }),
    {
        if Layout::check_power_of_two(align) {
            Some(Layout { size, align })
        } else {
            None
        }
    }

    /// The layout of an array of `count` elements, each of size
    /// `elem_size` and alignment `align`.  Rejected when the total byte
    /// count overflows or the alignment is invalid; such a request must
    /// never reach the allocator.
    pub fn array(elem_size: usize, align: usize, count: usize) -> (r: Option<Layout>)
        ensures
            r is Some <==> is_power_of_two(align as int) && elem_size * count <= usize::MAX,
            r is Some ==> r->Some_0 == (Layout { size: (elem_size * count) as usize, align }),
    {
        match elem_size.checked_mul(count) {
            Some(size) => Layout::from_size_align(size, align),
            None => None,
        }
    }
}

/// Reported when the backing strategy cannot satisfy a request.
#[derive(Debug)]
pub struct AllocError;

/// The evaluation context an allocator serves.
#[derive(Clone, Copy, Debug)]
pub enum AllocMode {
    /// A bounded, single-pass evaluation with no conventional heap: memory
    /// comes from an arena and is never physically released.
    Static,
    /// The ordinary process runtime, backed by the system heap.
    Runtime,
}

/// An owned region of memory handed out by [`ConstAlloc`].
///
/// A block remembers the alignment it was requested with, so that the
/// caller contract of `deallocate`, `grow` and `shrink` — the layout passed
/// back must be the one the block was obtained with — can be stated and
/// checked.  Its view is the byte contents of the region.
pub struct Block {
    bytes: Vec<u8>,
    align: usize,
}

impl View for Block {
    type V = Seq<u8>;

    closed spec fn view(&self) -> Seq<u8> {
        self.bytes@
    }
}

impl Block {
    /// The alignment this block was allocated with.
    pub closed spec fn spec_align(&self) -> usize {
        self.align
    }

    /// True when the block was obtained with the given layout.
    pub open spec fn fits(&self, layout: Layout) -> bool {
        self@.len() == layout.size && self.spec_align() == layout.align
    }

    pub fn len(&self) -> (r: usize)
        ensures
            r == self@.len(),
    {
        self.bytes.len()
    }

    /// Reads the byte at index `i`.
    pub fn read(&self, i: usize) -> (r: u8)
        requires
            i < self@.len(),
        ensures
            r == self@[i as int],
    {
        self.bytes[i]
    }

    /// Overwrites the byte at index `i`.
    pub fn write(&mut self, i: usize, b: u8)
        requires
            i < old(self)@.len(),
        ensures
            final(self)@ == old(self)@.update(i as int, b),
            final(self).spec_align() == old(self).spec_align(),
    {
        self.bytes.set(i, b);
    }

    /// Surrenders the region's bytes, ending the allocator's involvement.
    pub fn into_bytes(self) -> (r: Vec<u8>)
        ensures
            r@ == self@,
    {
        self.bytes
    }

    /// A read-only borrow of the first `n` bytes of the region.
    pub fn prefix(&self, n: usize) -> (r: &[u8])
        requires
            n <= self@.len(),
        ensures
            r@ == self@.take(n as int),
    {
        vstd::slice::slice_subrange(self.bytes.as_slice(), 0, n)
    }

    /// An empty region with byte alignment, standing in where a buffer's
    /// storage is momentarily absent during an ownership hand-over.
    pub fn sentinel() -> (r: Block)
        ensures
            r@.len() == 0,
            r.spec_align() == 1,
    {
        Block { bytes: Vec::new(), align: 1 }
    }
}

/// The allocator capability.  One uniform contract, two strategies.
pub struct ConstAlloc {
    mode: AllocMode,
    arena_left: usize,
}

impl ConstAlloc {
    pub closed spec fn spec_mode(&self) -> AllocMode {
        self.mode
    }

    /// The bytes still available to the static strategy.  The runtime
    /// strategy ignores it.
    pub closed spec fn spec_arena_left(&self) -> usize {
        self.arena_left
    }

    /// True when a request of `size` bytes will be satisfied.
    pub open spec fn can_allocate(&self, size: usize) -> bool {
        match self.spec_mode() {
            AllocMode::Static => size <= self.spec_arena_left(),
            AllocMode::Runtime => true,
        }
    }

    /// An allocator for a bounded static evaluation pass, with `region`
    /// bytes of arena to carve from.
    pub fn new_static(region: usize) -> (r: ConstAlloc)
        ensures
            r.spec_mode() is Static,
            r.spec_arena_left() == region,
    {
        ConstAlloc { mode: AllocMode::Static, arena_left: region }
    }

    /// An allocator backed by the process heap.
    pub fn new_runtime() -> (r: ConstAlloc)
        ensures
            r.spec_mode() is Runtime,
    {
        ConstAlloc { mode: AllocMode::Runtime, arena_left: 0 }
    }

    /// Obtains a fresh region of `layout.size` bytes with unspecified
    /// contents.  Succeeds if and only if the strategy can satisfy the
    /// request; the static strategy consumes that much of its arena.
    pub fn allocate(&mut self, layout: Layout) -> (r: Result<Block, AllocError>)
        requires
            layout.wf(),
        ensures
            final(self).spec_mode() == old(self).spec_mode(),
            r is Ok <==> old(self).can_allocate(layout.size),
            r is Ok ==> r->Ok_0.fits(layout),
            old(self).spec_mode() is Runtime ==> final(self).spec_arena_left() == old(
                self,
            ).spec_arena_left(),
            old(self).spec_mode() is Static ==> final(self).spec_arena_left() == if r is Ok {
                (old(self).spec_arena_left() - layout.size) as usize
            } else {
                old(self).spec_arena_left()
            },
    {
        match self.mode {
            AllocMode::Static => {
                if layout.size <= self.arena_left {
                    self.arena_left = self.arena_left - layout.size;
                    Ok(Block { bytes: fresh_region(layout.size), align: layout.align })
                } else {
                    Err(AllocError)
                }
            },
            AllocMode::Runtime => {
                Ok(Block { bytes: fresh_region(layout.size), align: layout.align })
            },
        }
    }

    /// Like [`ConstAlloc::allocate`], but every byte of the region is
    /// guaranteed to be zero.
    pub fn allocate_zeroed(&mut self, layout: Layout) -> (r: Result<Block, AllocError>)
        requires
            layout.wf(),
        ensures
            final(self).spec_mode() == old(self).spec_mode(),
            r is Ok <==> old(self).can_allocate(layout.size),
            r is Ok ==> r->Ok_0.fits(layout),
            r is Ok ==> forall|i: int| 0 <= i < layout.size ==> r->Ok_0@[i] == 0u8,
            old(self).spec_mode() is Runtime ==> final(self).spec_arena_left() == old(
                self,
            ).spec_arena_left(),
            old(self).spec_mode() is Static ==> final(self).spec_arena_left() == if r is Ok {
                (old(self).spec_arena_left() - layout.size) as usize
            } else {
                old(self).spec_arena_left()
            },
    {
        match self.mode {
            AllocMode::Static => {
                if layout.size <= self.arena_left {
                    self.arena_left = self.arena_left - layout.size;
                    Ok(Block { bytes: fresh_region(layout.size), align: layout.align })
                } else {
                    Err(AllocError)
                }
            },
            AllocMode::Runtime => {
                Ok(Block { bytes: fresh_region(layout.size), align: layout.align })
            },
        }
    }

    /// Returns a region to the allocator.  The layout must be the one the
    /// block was obtained with.  The runtime strategy releases the memory
    /// to the heap; the static strategy accepts the call for symmetry but
    /// never reclaims arena space.
    pub fn deallocate(&mut self, block: Block, layout: Layout)
        requires
            layout.wf(),
            block.fits(layout),
        ensures
            final(self).spec_mode() == old(self).spec_mode(),
            final(self).spec_arena_left() == old(self).spec_arena_left(),
    {
        let _ = block;
    }

    /// Moves a region to a larger layout, preserving its bytes.  The old
    /// layout must be the one the block was obtained with.  On failure of
    /// the static strategy the old region is forfeited, as the arena keeps
    /// no record to return.
    pub fn grow(&mut self, block: Block, old_layout: Layout, new_layout: Layout) -> (r: Result<
        Block,
        AllocError,
    >)
        requires
            old_layout.wf(),
            new_layout.wf(),
            block.fits(old_layout),
            old_layout.size <= new_layout.size,
        ensures
            final(self).spec_mode() == old(self).spec_mode(),
            r is Ok <==> old(self).can_allocate(new_layout.size),
            r is Ok ==> r->Ok_0.fits(new_layout),
            r is Ok ==> r->Ok_0@.take(old_layout.size as int) == block@,
            old(self).spec_mode() is Runtime ==> final(self).spec_arena_left() == old(
                self,
            ).spec_arena_left(),
            old(self).spec_mode() is Static ==> final(self).spec_arena_left() == if r is Ok {
                (old(self).spec_arena_left() - new_layout.size) as usize
            } else {
                old(self).spec_arena_left()
            },
    {
        let r = self.allocate(new_layout);
        match r {
            Ok(mut fresh) => {
                copy_prefix(&block, &mut fresh, old_layout.size);
                let _ = block;
                Ok(fresh)
            },
            Err(e) => {
                let _ = block;
                Err(e)
            },
        }
    }

    /// Like [`ConstAlloc::grow`], and in addition every byte past the old
    /// region's extent is zero.
    pub fn grow_zeroed(&mut self, block: Block, old_layout: Layout, new_layout: Layout) -> (r:
        Result<Block, AllocError>)
        requires
            old_layout.wf(),
            new_layout.wf(),
            block.fits(old_layout),
            old_layout.size <= new_layout.size,
        ensures
            final(self).spec_mode() == old(self).spec_mode(),
            r is Ok <==> old(self).can_allocate(new_layout.size),
            r is Ok ==> r->Ok_0.fits(new_layout),
            r is Ok ==> r->Ok_0@.take(old_layout.size as int) == block@,
            r is Ok ==> forall|i: int|
                old_layout.size <= i < new_layout.size ==> r->Ok_0@[i] == 0u8,
            old(self).spec_mode() is Runtime ==> final(self).spec_arena_left() == old(
                self,
            ).spec_arena_left(),
            old(self).spec_mode() is Static ==> final(self).spec_arena_left() == if r is Ok {
                (old(self).spec_arena_left() - new_layout.size) as usize
            } else {
                old(self).spec_arena_left()
            },
    {
        let r = self.allocate_zeroed(new_layout);
        match r {
            Ok(mut fresh) => {
                copy_prefix(&block, &mut fresh, old_layout.size);
                let _ = block;
                Ok(fresh)
            },
            Err(e) => {
                let _ = block;
                Err(e)
            },
        }
    }

    /// Moves a region to a smaller layout, keeping the prefix that still
    /// fits.  The old layout must be the one the block was obtained with.
    pub fn shrink(&mut self, block: Block, old_layout: Layout, new_layout: Layout) -> (r: Result<
        Block,
        AllocError,
    >)
        requires
            old_layout.wf(),
            new_layout.wf(),
            block.fits(old_layout),
            new_layout.size <= old_layout.size,
        ensures
            final(self).spec_mode() == old(self).spec_mode(),
            r is Ok <==> old(self).can_allocate(new_layout.size),
            r is Ok ==> r->Ok_0.fits(new_layout),
            r is Ok ==> r->Ok_0@ == block@.take(new_layout.size as int),
            old(self).spec_mode() is Runtime ==> final(self).spec_arena_left() == old(
                self,
            ).spec_arena_left(),
            old(self).spec_mode() is Static ==> final(self).spec_arena_left() == if r is Ok {
                (old(self).spec_arena_left() - new_layout.size) as usize
            } else {
                old(self).spec_arena_left()
            },
    {
        let r = self.allocate(new_layout);
        match r {
            Ok(mut fresh) => {
                copy_prefix(&block, &mut fresh, new_layout.size);
                proof {
                    assert(fresh@ =~= block@.take(new_layout.size as int));
                }
                let _ = block;
                Ok(fresh)
            },
            Err(e) => {
                let _ = block;
                Err(e)
            },
        }
    }
}

/// A zero-filled region of `size` bytes.
fn fresh_region(size: usize) -> (r: Vec<u8>)
    ensures
        r@.len() == size,
        forall|i: int| 0 <= i < size ==> r@[i] == 0u8,
{
    let r: Vec<u8> = vec![0u8; size];
    r
}

/// Copies the first `count` bytes of `src` over the start of `dst`.
pub(crate) fn copy_prefix(src: &Block, dst: &mut Block, count: usize)
    requires
        count <= src@.len(),
        count <= old(dst)@.len(),
    ensures
        final(dst)@.len() == old(dst)@.len(),
        final(dst)@.take(count as int) == src@.take(count as int),
        forall|i: int| count <= i < final(dst)@.len() ==> final(dst)@[i] == old(dst)@[i],
        final(dst).spec_align() == old(dst).spec_align(),
{
    let mut i: usize = 0;
    while i < count
        invariant
            i <= count,
            count <= src@.len(),
            count <= dst@.len(),
            dst@.len() == old(dst)@.len(),
            dst.spec_align() == old(dst).spec_align(),
            forall|j: int| 0 <= j < i ==> dst@[j] == src@[j],
            forall|j: int| i <= j < dst@.len() ==> dst@[j] == old(dst)@[j],
        decreases count - i,
    {
        let b = src.read(i);
        dst.write(i, b);
        i = i + 1;
    }
    proof {
        assert(dst@.take(count as int) =~= src@.take(count as int));
    }
}

} // verus!
