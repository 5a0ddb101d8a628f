//! The early allocator: a double-ended bump allocator over one contiguous
//! address range.
//!
//! ```text
//! [ bytes-in-use | free space | pages-in-use ]
//!  start        b_pos        p_pos          end
//! ```
//!
//! Byte allocations grow forward from `b_pos`; page allocations grow
//! backward from `p_pos`. A count of outstanding byte-allocation volume is
//! kept, and when it returns to zero the whole byte region is reclaimed at
//! once by resetting `b_pos` to `start`. Pages are never reclaimed.

use crate::align::align_down;
use crate::align::align_up;
use crate::align::is_pow2;
use crate::align::lemma_align_down;
use crate::align::lemma_align_up;
use crate::align::lemma_div_ordered;
use crate::align::lemma_multiple_difference;
use crate::align::lemma_multiple_of_divisor;
use crate::align::lemma_pow2_divides;
use crate::align::lemma_pow2_pos;
use vstd::arithmetic::div_mod::lemma_mod_multiples_basic;
use vstd::prelude::*;

verus! {

/// The ways a request can fail: the free span cannot hold the request, or
/// the request has no sound representation in this allocator's model.
#[derive(Clone, Copy, Debug, PartialEq, Eq, Structural)]
pub enum AllocError {
    NoMemory,
    Unsupported,
}

/// Result type of the allocation entry points.
pub type AllocResult<T = ()> = Result<T, AllocError>;

/// The mathematical state of an allocator: five cursors and the page size,
/// as unbounded integers.
pub ghost struct AllocatorModel {
    pub page_size: int,
    pub start: int,
    pub end: int,
    pub b_pos: int,
    pub p_pos: int,
    pub bytes_alloced: int,
}

impl AllocatorModel {
    /// Structural invariant of every reachable, initialized state: the
    /// cursors sit in order inside the region, the page-side cursors stay
    /// on page boundaries, and the outstanding byte count never exceeds
    /// the volume of the byte region.
    pub open spec fn inv(self) -> bool {
        &&& is_pow2(self.page_size)
        &&& 0 <= self.start
        &&& self.start <= self.b_pos
        &&& self.b_pos <= self.p_pos
        &&& self.p_pos <= self.end
        &&& self.end <= usize::MAX
        &&& self.end % self.page_size == 0
        &&& self.p_pos % self.page_size == 0
        &&& 0 <= self.bytes_alloced
        &&& self.bytes_alloced <= self.b_pos - self.start
    }

    /// The state `init(start, size)` establishes: both byte cursors at
    /// `start`, both page cursors at the last page boundary inside the
    /// region, nothing outstanding.
    pub open spec fn init_model(page_size: int, start: int, size: int) -> AllocatorModel {
        let end = align_down(start + size, page_size);
        AllocatorModel { page_size, start, end, b_pos: start, p_pos: end, bytes_alloced: 0 }
    }

    /// Bytes handed out so far: the span below the byte cursor.
    pub open spec fn used_bytes(self) -> int {
        self.b_pos - self.start
    }

    /// The free middle span, available to byte requests.
    pub open spec fn available_bytes(self) -> int {
        self.p_pos - self.b_pos
    }

    /// The byte-capable span at this instant; it shrinks as pages are claimed.
    pub open spec fn total_bytes(self) -> int {
        self.p_pos - self.start
    }

    /// Pages handed out so far: the span above the page cursor.
    pub open spec fn used_pages(self) -> int {
        (self.end - self.p_pos) / self.page_size
    }

    /// Whole pages the region can hold.
    pub open spec fn total_pages(self) -> int {
        (self.end - self.start) / self.page_size
    }

    /// Pages not yet handed out.
    pub open spec fn available_pages(self) -> int {
        self.total_pages() - self.used_pages()
    }

    /// Where the next byte allocation with this alignment would start.
    pub open spec fn byte_candidate(self, align: int) -> int {
        align_up(self.b_pos, align)
    }

    /// A byte request fits if the aligned candidate plus the size stays at
    /// or below the page cursor.
    pub open spec fn can_alloc_bytes(self, size: int, align: int) -> bool {
        self.byte_candidate(align) + size <= self.p_pos
    }

    /// The state after a successful byte allocation.
    pub open spec fn alloc_bytes_model(self, size: int, align: int) -> AllocatorModel {
        AllocatorModel {
            b_pos: self.byte_candidate(align) + size,
            bytes_alloced: self.bytes_alloced + size,
            ..self
        }
    }

    /// The state after returning `size` bytes: the outstanding count drops
    /// (saturating at zero), and the instant it reaches zero the whole byte
    /// region is reclaimed by resetting the byte cursor to `start`.
    pub open spec fn dealloc_bytes_model(self, size: int) -> AllocatorModel {
        let remaining = if size <= self.bytes_alloced {
            self.bytes_alloced - size
        } else {
            0
        };
        if remaining == 0 {
            AllocatorModel { bytes_alloced: 0, b_pos: self.start, ..self }
        } else {
            AllocatorModel { bytes_alloced: remaining, ..self }
        }
    }

    /// Where the next page allocation would start: `num_pages` pages below
    /// the page cursor, rounded down to the requested alignment where that
    /// is coarser than a page.
    pub open spec fn page_candidate(self, num_pages: int, align: int) -> int {
        let eff = if align > self.page_size {
            align
        } else {
            self.page_size
        };
        align_down(self.p_pos - num_pages * self.page_size, eff)
    }

    /// A page request fits if its candidate stays at or above the byte cursor.
    pub open spec fn can_alloc_pages(self, num_pages: int, align: int) -> bool {
        self.b_pos <= self.page_candidate(num_pages, align)
    }

    /// The state after a successful page allocation.
    pub open spec fn alloc_pages_model(self, num_pages: int, align: int) -> AllocatorModel {
        AllocatorModel { p_pos: self.page_candidate(num_pages, align), ..self }
    }
}

/// Law: the byte-side gauges always account for the whole byte-capable
/// span: `used_bytes() + available_bytes() == total_bytes()`.
pub proof fn lemma_byte_accounting(s: AllocatorModel)
    requires
        s.inv(),
    ensures
        s.used_bytes() + s.available_bytes() == s.total_bytes(),
        0 <= s.used_bytes(),
        0 <= s.available_bytes(),
{
}

/// Law: the page-side gauges always account for the whole region:
/// `used_pages() + available_pages() == total_pages()`.
pub proof fn lemma_page_accounting(s: AllocatorModel)
    requires
        s.inv(),
    ensures
        s.used_pages() + s.available_pages() == s.total_pages(),
        0 <= s.used_pages() <= s.total_pages(),
{
    lemma_pow2_pos(s.page_size);
    assert(0int / s.page_size == 0) by (nonlinear_arith)
        requires
            s.page_size >= 1,
    ;
    lemma_div_ordered(0, s.end - s.p_pos, s.page_size);
    lemma_div_ordered(s.end - s.p_pos, s.end - s.start, s.page_size);
}

/// Law: bulk reclamation. Returning at least the whole outstanding volume
/// (the last of N frees, whatever their order) empties the byte region:
/// the used count drops to zero, the invariant still holds, and a
/// following byte allocation is served from `start` again, succeeding
/// exactly when it fits the reclaimed span.
pub proof fn lemma_bulk_reclamation(
    s: AllocatorModel,
    last_size: int,
    next_size: int,
    next_align: int,
)
    requires
        s.inv(),
        s.bytes_alloced <= last_size,
        next_align >= 1,
    ensures
        ({
            let t = s.dealloc_bytes_model(last_size);
            &&& t.used_bytes() == 0
            &&& t.inv()
            &&& t.byte_candidate(next_align) == align_up(s.start, next_align)
            &&& (t.can_alloc_bytes(next_size, next_align) <==> align_up(s.start, next_align)
                + next_size <= s.p_pos)
        }),
{
}

/// The early allocator. `PAGE_SIZE` is fixed at compile time and must be a
/// power of two. The struct starts zeroed; `init` must establish the
/// managed region before any allocation call.
pub struct EarlyAllocator<const PAGE_SIZE: usize> {
    start: usize,
    b_pos: usize,
    p_pos: usize,
    end: usize,
    bytes_alloced: usize,
}

impl<const PAGE_SIZE: usize> View for EarlyAllocator<PAGE_SIZE> {
    type V = AllocatorModel;

    closed spec fn view(&self) -> AllocatorModel {
        AllocatorModel {
            page_size: PAGE_SIZE as int,
            start: self.start as int,
            end: self.end as int,
            b_pos: self.b_pos as int,
            p_pos: self.p_pos as int,
            bytes_alloced: self.bytes_alloced as int,
        }
    }
}

impl<const PAGE_SIZE: usize> EarlyAllocator<PAGE_SIZE> {
    /// A zeroed, not-yet-initialized allocator.
    pub fn new() -> (r: Self)
        ensures
            r@.page_size == PAGE_SIZE as int,
            r@.start == 0 && r@.b_pos == 0 && r@.p_pos == 0 && r@.end == 0,
            r@.bytes_alloced == 0,
            is_pow2(PAGE_SIZE as int) ==> r@.inv(),
    {
        proof {
            if is_pow2(PAGE_SIZE as int) {
                lemma_pow2_pos(PAGE_SIZE as int);
                lemma_mod_multiples_basic(0, PAGE_SIZE as int);
            }
        }
        Self { start: 0, b_pos: 0, p_pos: 0, end: 0, bytes_alloced: 0 }
    }

    /// Establish the managed region `[start, start + size)`. The byte cursor
    /// starts at `start`; the page cursor starts at the last page boundary
    /// inside the region. A valid region must reach a page boundary at or
    /// above `start`.
    pub fn init(&mut self, start: usize, size: usize)
        requires
            is_pow2(PAGE_SIZE as int),
            start + size <= usize::MAX,
            start <= align_down(start + size, PAGE_SIZE as int),
        ensures
            final(self)@ == AllocatorModel::init_model(PAGE_SIZE as int, start as int, size as int),
            final(self)@.inv(),
            final(self)@.used_bytes() == 0,
            final(self)@.used_pages() == 0,
    {
        proof {
            lemma_pow2_pos(PAGE_SIZE as int);
            lemma_align_down(start + size, PAGE_SIZE as int);
            assert(0int / PAGE_SIZE as int == 0) by (nonlinear_arith)
                requires
                    PAGE_SIZE as int >= 1,
            ;
        }
        let total: usize = start + size;
        let end: usize = total / PAGE_SIZE * PAGE_SIZE;
        self.start = start;
        self.b_pos = start;
        self.p_pos = end;
        self.end = end;
        self.bytes_alloced = 0;
    }

    /// A second, disjoint range has no sound representation in this
    /// allocator's single contiguous span, so the request is refused.
    pub fn add_memory(&mut self, _start: usize, _size: usize) -> (r: AllocResult)
        ensures
            *final(self) == *old(self),
            r == Err::<(), AllocError>(AllocError::Unsupported),
    {
        Err(AllocError::Unsupported)
    }

    /// Allocate `size` bytes aligned to `align`, bumping the byte cursor
    /// forward. Fails with `NoMemory` exactly when the aligned candidate
    /// plus the size would pass the page cursor, and a failure changes
    /// nothing.
    pub fn alloc_bytes(&mut self, size: usize, align: usize) -> (r: AllocResult<usize>)
        requires
            old(self)@.inv(),
            align >= 1,
        ensures
            final(self)@.inv(),
            r is Ok <==> old(self)@.can_alloc_bytes(size as int, align as int),
            r matches Ok(addr) ==> {
                &&& addr == old(self)@.byte_candidate(align as int)
                &&& addr as int % align as int == 0
                &&& old(self)@.b_pos <= addr
                &&& final(self)@ == old(self)@.alloc_bytes_model(size as int, align as int)
            },
            r is Err ==> *final(self) == *old(self) && r == Err::<usize, AllocError>(
                AllocError::NoMemory,
            ),
            old(self)@.b_pos <= final(self)@.b_pos,
            final(self)@.p_pos == old(self)@.p_pos,
            final(self)@.start == old(self)@.start,
            final(self)@.end == old(self)@.end,
            final(self)@.page_size == old(self)@.page_size,
    {
        proof {
            lemma_align_up(self.b_pos as int, align as int);
        }
        let rem: usize = self.b_pos % align;
        let pad: usize = if rem == 0 {
            0
        } else {
            align - rem
        };
        let cand: usize = match self.b_pos.checked_add(pad) {
            Some(c) => c,
            None => {
                return Err(AllocError::NoMemory);
            },
        };
        let new_b: usize = match cand.checked_add(size) {
            Some(n) => n,
            None => {
                return Err(AllocError::NoMemory);
            },
        };
        if new_b > self.p_pos {
            return Err(AllocError::NoMemory);
        }
        self.b_pos = new_b;
        self.bytes_alloced = self.bytes_alloced + size;
        Ok(cand)
    }

    /// Return `size` bytes. Individual byte allocations are never reclaimed
    /// at their own address: only the outstanding volume is tracked, and the
    /// instant it reaches zero the whole byte region is reclaimed at once by
    /// resetting the byte cursor to `start`. Returning more than is
    /// outstanding is misuse of the capability contract; the counter
    /// saturates at zero rather than underflowing.
    pub fn dealloc(&mut self, _pos: usize, size: usize)
        requires
            old(self)@.inv(),
        ensures
            final(self)@.inv(),
            final(self)@ == old(self)@.dealloc_bytes_model(size as int),
            size < old(self)@.bytes_alloced ==> final(self)@.b_pos == old(self)@.b_pos,
            old(self)@.bytes_alloced <= size ==> final(self)@.b_pos == old(self)@.start
                && final(self)@.used_bytes() == 0,
            final(self)@.b_pos <= old(self)@.b_pos,
            final(self)@.p_pos == old(self)@.p_pos,
            final(self)@.start == old(self)@.start,
            final(self)@.end == old(self)@.end,
            final(self)@.page_size == old(self)@.page_size,
    {
        let remaining: usize = if size <= self.bytes_alloced {
            self.bytes_alloced - size
        } else {
            0
        };
        self.bytes_alloced = remaining;
        if remaining == 0 {
            self.b_pos = self.start;
        }
    }

    /// Bytes handed out so far.
    pub fn used_bytes(&self) -> (r: usize)
        requires
            self@.inv(),
        ensures
            r == self@.used_bytes(),
    {
        self.b_pos - self.start
    }

    /// Bytes still available to byte requests.
    pub fn available_bytes(&self) -> (r: usize)
        requires
            self@.inv(),
        ensures
            r == self@.available_bytes(),
    {
        self.p_pos - self.b_pos
    }

    /// The byte-capable span at this instant.
    pub fn total_bytes(&self) -> (r: usize)
        requires
            self@.inv(),
        ensures
            r == self@.total_bytes(),
    {
        self.p_pos - self.start
    }

    /// Allocate `num_pages` pages aligned to `align_pow2`, bumping the page
    /// cursor backward. Alignments coarser than a page are honored by
    /// rounding the candidate further down. Fails with `NoMemory` exactly
    /// when the candidate would pass the byte cursor, and a failure changes
    /// nothing.
    pub fn alloc_pages(&mut self, num_pages: usize, align_pow2: usize) -> (r: AllocResult<usize>)
        requires
            old(self)@.inv(),
            is_pow2(align_pow2 as int),
        ensures
            final(self)@.inv(),
            r is Ok <==> old(self)@.can_alloc_pages(num_pages as int, align_pow2 as int),
            r matches Ok(addr) ==> {
                &&& addr == old(self)@.page_candidate(num_pages as int, align_pow2 as int)
                &&& addr as int % align_pow2 as int == 0
                &&& addr as int % PAGE_SIZE as int == 0
                &&& final(self)@ == old(self)@.alloc_pages_model(
                    num_pages as int,
                    align_pow2 as int,
                )
            },
            r is Err ==> *final(self) == *old(self) && r == Err::<usize, AllocError>(
                AllocError::NoMemory,
            ),
            final(self)@.p_pos <= old(self)@.p_pos,
            final(self)@.b_pos == old(self)@.b_pos,
            final(self)@.bytes_alloced == old(self)@.bytes_alloced,
            final(self)@.start == old(self)@.start,
            final(self)@.end == old(self)@.end,
            final(self)@.page_size == old(self)@.page_size,
    {
        proof {
            lemma_pow2_pos(PAGE_SIZE as int);
            lemma_pow2_pos(align_pow2 as int);
        }
        let ghost eff: int = if align_pow2 as int > PAGE_SIZE as int {
            align_pow2 as int
        } else {
            PAGE_SIZE as int
        };
        let total: usize = match num_pages.checked_mul(PAGE_SIZE) {
            Some(t) => t,
            None => {
                proof {
                    lemma_align_down(self.p_pos - num_pages * PAGE_SIZE as int, eff);
                }
                return Err(AllocError::NoMemory);
            },
        };
        let cand0: usize = match self.p_pos.checked_sub(total) {
            Some(c) => c,
            None => {
                proof {
                    lemma_align_down(self.p_pos - num_pages * PAGE_SIZE as int, eff);
                }
                return Err(AllocError::NoMemory);
            },
        };
        let cand: usize = if align_pow2 > PAGE_SIZE {
            proof {
                lemma_align_down(cand0 as int, align_pow2 as int);
                lemma_pow2_divides(PAGE_SIZE as int, align_pow2 as int);
                lemma_multiple_of_divisor(
                    align_down(cand0 as int, align_pow2 as int),
                    align_pow2 as int,
                    PAGE_SIZE as int,
                );
            }
            cand0 / align_pow2 * align_pow2
        } else {
            proof {
                lemma_mod_multiples_basic(num_pages as int, PAGE_SIZE as int);
                lemma_multiple_difference(self.p_pos as int, total as int, PAGE_SIZE as int);
                lemma_align_down(cand0 as int, PAGE_SIZE as int);
                lemma_pow2_divides(align_pow2 as int, PAGE_SIZE as int);
                lemma_multiple_of_divisor(cand0 as int, PAGE_SIZE as int, align_pow2 as int);
            }
            cand0
        };
        if cand < self.b_pos {
            return Err(AllocError::NoMemory);
        }
        self.p_pos = cand;
        Ok(cand)
    }

    /// Pages are never reclaimed by this allocator: the call succeeds
    /// trivially and changes nothing. The page region lives until the whole
    /// early allocator is discarded.
    pub fn dealloc_pages(&mut self, _pos: usize, _num_pages: usize)
        ensures
            *final(self) == *old(self),
    {
    }

    /// Pages handed out so far.
    pub fn used_pages(&self) -> (r: usize)
        requires
            self@.inv(),
        ensures
            r == self@.used_pages(),
    {
        proof {
            lemma_pow2_pos(PAGE_SIZE as int);
        }
        (self.end - self.p_pos) / PAGE_SIZE
    }

    /// Pages not yet handed out.
    pub fn available_pages(&self) -> (r: usize)
        requires
            self@.inv(),
        ensures
            r == self@.available_pages(),
    {
        proof {
            lemma_page_accounting(self@);
        }
        self.total_pages() - self.used_pages()
    }

    /// Whole pages the region can hold.
    pub fn total_pages(&self) -> (r: usize)
        requires
            self@.inv(),
        ensures
            r == self@.total_pages(),
    {
        proof {
            lemma_pow2_pos(PAGE_SIZE as int);
        }
        (self.end - self.start) / PAGE_SIZE
    }
}

} // verus!
