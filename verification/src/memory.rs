//! Memory allocation: the stub firmware's page and pool allocator, and the
//! arithmetic by which the global allocator serves alignments larger than
//! the pool's.

use crate::align::{offset_up, Align, PageAlignment};
use crate::status::{Status, SUCCESS};
use crate::firmware::LOADER_DATA;
use vstd::prelude::*;

verus! {

/// The size of a memory page.
pub const PAGE_SIZE: usize = 4096;

/// The alignment that pool allocations always have.
pub const POOL_ALIGN: usize = 8;

/// A run of pages: a zeroed allocation one page larger than asked for, so
/// that a page-aligned run of the asked-for length lies inside it wherever
/// the allocation starts.
pub struct Pages {
    data: Vec<u8>,
}

/// The address of the first byte of a vector's buffer, read with
/// `Vec::as_ptr`. It depends on where the allocator put the buffer, so only
/// what every allocation meets is stated: the buffer does not wrap around
/// the end of the address space.
#[verifier::external_body]
fn vec_addr(v: &Vec<u8>) -> (addr: usize)
    ensures
        addr + v@.len() <= usize::MAX,
{
    v.as_ptr() as usize
}

impl Pages {
    /// A run of pages holds at least one page.
    #[verifier::type_invariant]
    closed spec fn wf(&self) -> bool {
        self.data@.len() >= PAGE_SIZE
    }

    /// The number of bytes allocated.
    pub closed spec fn len(&self) -> nat {
        self.data@.len()
    }

    /// Allocates room for `num_pages` pages.
    pub fn new(num_pages: usize) -> (p: Pages)
        requires
            PAGE_SIZE * (num_pages + 1) <= usize::MAX,
        ensures
            p.len() == PAGE_SIZE * (num_pages + 1),
    {
        Pages { data: vec![0u8; PAGE_SIZE * (num_pages + 1)] }
    }

    /// The address of the first page boundary in the allocation. A run of
    /// `num_pages` pages from there lies inside the allocation when the
    /// allocation was made for `num_pages` pages.
    pub fn as_mut_ptr(&mut self) -> (addr: usize)
        ensures
            exists|start: usize|
                {
                    &&& #[trigger] offset_up(start as int, PAGE_SIZE as int) == addr - start
                    &&& addr as int % (PAGE_SIZE as int) == 0
                    &&& addr - start < PAGE_SIZE
                    &&& start + old(self).len() <= usize::MAX
                },
            final(self).len() == old(self).len(),
    {
        proof {
            use_type_invariant(&*self);
        }
        let start = vec_addr(&self.data);
        page_start(start)
    }
}

/// The first page boundary at or after `start`.
pub fn page_start(start: usize) -> (addr: usize)
    requires
        start + PAGE_SIZE <= usize::MAX,
    ensures
        addr == start + offset_up(start as int, PAGE_SIZE as int),
        addr as int % (PAGE_SIZE as int) == 0,
        addr - start < PAGE_SIZE,
{
    let offset = PageAlignment::offset_up_to_alignment(start);
    start + offset
}

/// The run of `num_pages` pages that [`Pages::as_mut_ptr`] points to lies
/// inside an allocation made by [`Pages::new`] for `num_pages` pages.
pub proof fn lemma_pages_fit(start: int, num_pages: int)
    requires
        start >= 0,
        num_pages >= 0,
    ensures
        (start + offset_up(start, PAGE_SIZE as int)) % (PAGE_SIZE as int) == 0,
        start + offset_up(start, PAGE_SIZE as int) + PAGE_SIZE * num_pages <= start + PAGE_SIZE * (
        num_pages + 1),
{
    crate::align::lemma_round_up_idempotent(start, PAGE_SIZE as int);
    crate::align::lemma_round_up_is_least_multiple(start, PAGE_SIZE as int, start + offset_up(start, PAGE_SIZE as int));
}

/// The stub firmware's page allocator: every allocation is kept for as long
/// as the allocator lives.
pub struct PageAllocator {
    pages: Vec<Pages>,
}

impl PageAllocator {
    /// The sizes in bytes of the allocations made so far.
    pub closed spec fn allocations(&self) -> Seq<nat> {
        self.pages@.map_values(|p: Pages| p.len())
    }

    /// An allocator with no allocations.
    pub fn new() -> (a: PageAllocator)
        ensures
            a.allocations() == Seq::<nat>::empty(),
    {
        let a = PageAllocator { pages: Vec::new() };
        assert(a.allocations() =~= Seq::<nat>::empty());
        a
    }

    /// Allocates `count` pages and returns the address of the first.
    pub fn allocate_pages(&mut self, count: usize) -> (r: (Status, usize))
        requires
            PAGE_SIZE * (count + 1) <= usize::MAX,
        ensures
            r.0.0 == SUCCESS,
            r.1 as int % (PAGE_SIZE as int) == 0,
            final(self).allocations() == old(self).allocations().push(
                (PAGE_SIZE * (count + 1)) as nat,
            ),
    {
        let mut new_pages = Pages::new(count);
        let addr = new_pages.as_mut_ptr();
        let ghost before = self.allocations();
        self.pages.push(new_pages);
        assert(self.allocations() =~= before.push((PAGE_SIZE * (count + 1)) as nat));
        (Status(SUCCESS), addr)
    }

    /// Allocates pool memory for `size` bytes. The stub takes as many
    /// pages as `size` rounded up to a whole page counts bytes.
    pub fn allocate_pool(&mut self, pool_type: u32, size: usize) -> (r: (Status, usize))
        requires
            PAGE_SIZE * (size + offset_up(size as int, PAGE_SIZE as int) + 1) <= usize::MAX,
        ensures
            r.0.0 == SUCCESS,
            r.1 as int % (PAGE_SIZE as int) == 0,
            final(self).allocations() == old(self).allocations().push(
                (PAGE_SIZE * (pool_page_count(size as int) + 1)) as nat,
            ),
    {
        let num_pages = PageAlignment::round_up_to_alignment(size);
        let (status, addr) = self.allocate_pages(num_pages);
        if status.0 != SUCCESS {
            return (status, 0);
        }
        (Status(SUCCESS), addr)
    }
}

/// The number of pages the stub allocates for a pool request of `size`
/// bytes: `size` rounded up to a whole page.
pub open spec fn pool_page_count(size: int) -> int {
    size + offset_up(size, PAGE_SIZE as int)
}

/// Whether `n` is a power of two.
pub open spec fn is_power_of_two(n: int) -> bool
    decreases n,
{
    if n <= 0 {
        false
    } else if n == 1 {
        true
    } else {
        n % 2 == 0 && is_power_of_two(n / 2)
    }
}

/// The size asked of the pool for `size` bytes aligned to `align`: padded
/// by the alignment when it exceeds the pool's.
pub open spec fn pool_request(size: usize, align: usize) -> usize {
    if align > POOL_ALIGN {
        (size + align) as usize
    } else {
        size
    }
}

/// Where the pool memory behind `ptr` starts: at the stashed address
/// `stored` when the alignment exceeds the pool's, else at `ptr`.
pub open spec fn pool_start(ptr: usize, align: usize, stored: usize) -> usize {
    if align > POOL_ALIGN {
        stored
    } else {
        ptr
    }
}

/// Where an allocation made through the pool lands.
#[derive(Clone, Copy, Debug, PartialEq, Eq, Structural)]
pub struct AllocPlacement {
    /// The address handed to the caller, or 0 if the pool failed.
    pub ptr: usize,
    /// Where the address of the pool allocation must be stored so that it
    /// can be freed: the word right before `ptr`. Only set when the
    /// alignment exceeds the pool's.
    pub stash: Option<usize>,
}

/// Allocates `size` bytes aligned to `align` from a pool whose memory is
/// always 8-byte aligned; the pool is asked for loader data.
///
/// For alignments up to 8 the pool's memory is used as it is. For larger
/// ones the request is padded by the alignment, the returned address is the
/// first aligned address after the start of the pool memory (one whole
/// alignment on if the start is aligned already), and the start of the pool
/// memory is to be stored in the word before the returned address.
pub fn alloc_from_pool<F: FnOnce(u32, usize) -> Result<usize, Status>>(
    size: usize,
    align: usize,
    alloc_pool: F,
) -> (r: AllocPlacement)
    requires
        is_power_of_two(align as int),
        size + align <= isize::MAX,
        call_requires(alloc_pool, (LOADER_DATA, pool_request(size, align))),
        forall|res: Result<usize, Status>|
            #[trigger] call_ensures(
                alloc_pool,
                (LOADER_DATA, pool_request(size, align)),
                res,
            ) ==> (res matches Ok(p) ==> p as int % (POOL_ALIGN as int) == 0 && p + size + align
                <= usize::MAX),
    ensures
        exists|res: Result<usize, Status>|
            #[trigger] call_ensures(
                alloc_pool,
                (LOADER_DATA, pool_request(size, align)),
                res,
            ) && r == alloc_placement(res, align as int),
{
    if align > POOL_ALIGN {
        let res = alloc_pool(LOADER_DATA, size + align);
        let ghost got = res;
        let r = match res {
            Ok(ptr) => {
                proof {
                    lemma_align_stash(ptr as int, align as int);
                }
                let mut offset = ptr % align;
                offset = if offset == 0 {
                    align
                } else {
                    align - offset
                };
                let return_ptr = ptr + offset;
                AllocPlacement { ptr: return_ptr, stash: Some(return_ptr - POOL_ALIGN) }
            },
            Err(_) => AllocPlacement { ptr: 0, stash: None },
        };
        proof {
            if let Ok(p) = got {
                lemma_align_stash(p as int, align as int);
            }
        }
        assert(r == alloc_placement(got, align as int));
        r
    } else {
        let res = alloc_pool(LOADER_DATA, size);
        let ghost got = res;
        let r = match res {
            Ok(ptr) => AllocPlacement { ptr, stash: None },
            Err(_) => AllocPlacement { ptr: 0, stash: None },
        };
        assert(r == alloc_placement(got, align as int));
        r
    }
}

/// Where an allocation lands when the pool answered `res`.
pub open spec fn alloc_placement(res: Result<usize, Status>, align: int) -> AllocPlacement {
    match res {
        Ok(p) => if align > POOL_ALIGN {
            let offset = if p as int % align == 0 {
                align
            } else {
                align - p as int % align
            };
            AllocPlacement { ptr: (p + offset) as usize, stash: Some((p + offset - POOL_ALIGN) as usize) }
        } else {
            AllocPlacement { ptr: p, stash: None }
        },
        Err(_) => AllocPlacement { ptr: 0, stash: None },
    }
}

/// For an alignment above 8 that is a power of two, a multiple of 8 is a
/// whole number of 8-byte words short of the next multiple of the
/// alignment, so the word before the returned address lies inside the pool
/// memory.
proof fn lemma_align_stash(p: int, align: int)
    requires
        p >= 0,
        p % 8 == 0,
        align > 8,
        is_power_of_two(align),
    ensures
        p % align != 0 ==> align - p % align >= 8,
{
    lemma_power_of_two_multiple_of_8(align);
    if p % align != 0 {
        let r = p % align;
        let q = p / align;
        let k = align / 8;
        assert(p == q * align + r) by (nonlinear_arith)
            requires
                align > 0,
                q == p / align,
                r == p % align,
        ;
        assert(align == 8 * k);
        assert(r % 8 == 0) by (nonlinear_arith)
            requires
                p == q * align + r,
                align == 8 * k,
                p % 8 == 0,
                0 <= r,
        {
            assert(p == 8 * (q * k) + r);
        }
        assert(0 < r < align);
        assert(r <= align - 8) by (nonlinear_arith)
            requires
                r % 8 == 0,
                align == 8 * k,
                0 < r < align,
        ;
    }
}

/// A power of two above 8 is a multiple of 8.
proof fn lemma_power_of_two_multiple_of_8(n: int)
    requires
        n > 8,
        is_power_of_two(n),
    ensures
        n % 8 == 0,
    decreases n,
{
    if n / 2 > 8 {
        lemma_power_of_two_multiple_of_8(n / 2);
    } else {
        assert(n / 2 == 8) by {
            reveal_with_fuel(is_power_of_two, 4);
        }
    }
}

/// The aligned allocation lies inside the pool memory, starts at a
/// multiple of the alignment, and leaves room for the stashed address right
/// before it, also inside the pool memory.
pub proof fn lemma_alloc_placement_fits(p: int, size: int, align: int)
    requires
        p >= 0,
        size >= 0,
        p % 8 == 0,
        align > 8,
        is_power_of_two(align),
        p + size + align <= usize::MAX,
    ensures
        ({
            let r = alloc_placement(Ok(p as usize), align);
            &&& r.ptr as int % align == 0
            &&& p + 8 <= r.ptr
            &&& r.ptr + size <= p + size + align
            &&& r.stash == Some((r.ptr - 8) as usize)
        }),
{
    lemma_align_stash(p, align);
    let q = p / align;
    let rem = p % align;
    assert(p == q * align + rem) by (nonlinear_arith)
        requires
            align > 0,
            q == p / align,
            rem == p % align,
    ;
    if rem == 0 {
        assert((p + align) % align == 0) by (nonlinear_arith)
            requires
                p == q * align,
                align > 0,
        {
            assert(p + align == (q + 1) * align);
        }
    } else {
        assert((p + (align - rem)) % align == 0) by (nonlinear_arith)
            requires
                p == q * align + rem,
                align > 0,
        {
            assert(p + (align - rem) == (q + 1) * align);
        }
    }
}

/// Freeing what an allocation placed frees the pool memory it came from:
/// for alignments up to 8 the returned address is the pool's, and for
/// larger ones the address stashed right before it is.
pub proof fn lemma_dealloc_frees_allocation(p: int, align: int)
    requires
        p >= 0,
        p % 8 == 0,
        align > 0,
        is_power_of_two(align),
        p + align <= usize::MAX,
    ensures
        ({
            let r = alloc_placement(Ok(p as usize), align);
            &&& align > POOL_ALIGN ==> r.stash == Some((r.ptr - POOL_ALIGN) as usize)
                && pool_start(r.ptr, align as usize, p as usize) == p
            &&& align <= POOL_ALIGN ==> r.ptr == p && pool_start(r.ptr, align as usize, 0) == p
        }),
{
}

/// Frees memory allocated by [`alloc_from_pool`]: for alignments above 8 the pool
/// memory starts at the address `stored` that was stashed before `ptr`;
/// otherwise at `ptr`. The pool must free it; what it answered is returned.
pub fn dealloc<F: FnOnce(usize) -> Result<(), Status>>(
    ptr: usize,
    align: usize,
    stored: usize,
    free_pool: F,
) -> (r: Result<(), Status>)
    requires
        call_requires(free_pool, (pool_start(ptr, align, stored),)),
        forall|res: Result<(), Status>|
            #[trigger] call_ensures(free_pool, (pool_start(ptr, align, stored),), res)
                ==> res is Ok,
    ensures
        call_ensures(free_pool, (pool_start(ptr, align, stored),), r),
        r is Ok,
{
    let start = if align > POOL_ALIGN {
        stored
    } else {
        ptr
    };
    free_pool(start)
}


/// The global allocator: it serves allocations from the pool of the boot
/// services while they are available, that is after [`Allocator::init`]
/// and before [`Allocator::exit_boot_services`].
pub struct Allocator {
    boot_services: Option<usize>,
}

impl Allocator {
    /// The boot services the allocator uses, by the address of their table.
    pub closed spec fn boot_services(&self) -> Option<usize> {
        self.boot_services
    }

    /// An allocator with no boot services yet.
    pub fn new() -> (a: Allocator)
        ensures
            a.boot_services() is None,
    {
        Allocator { boot_services: None }
    }

    /// Starts using the boot services whose table is at `boot_services`.
    pub fn init(&mut self, boot_services: usize)
        ensures
            final(self).boot_services() == Some(boot_services),
    {
        self.boot_services = Some(boot_services);
    }

    /// Stops using the boot services: they are about to be exited.
    pub fn exit_boot_services(&mut self)
        ensures
            final(self).boot_services() is None,
    {
        self.boot_services = None;
    }

    /// Allocates through the boot services' pool, as [`alloc_from_pool`]
    /// does. The boot services must be available.
    pub fn allocate<F: FnOnce(u32, usize) -> Result<usize, Status>>(
        &self,
        size: usize,
        align: usize,
        allocate_pool: F,
    ) -> (r: AllocPlacement)
        requires
            self.boot_services() is Some,
            is_power_of_two(align as int),
            size + align <= isize::MAX,
            call_requires(allocate_pool, (LOADER_DATA, pool_request(size, align))),
            forall|res: Result<usize, Status>|
                #[trigger] call_ensures(
                    allocate_pool,
                    (LOADER_DATA, pool_request(size, align)),
                    res,
                ) ==> (res matches Ok(p) ==> p as int % (POOL_ALIGN as int) == 0 && p + size + align
                    <= usize::MAX),
        ensures
            exists|res: Result<usize, Status>|
                #[trigger] call_ensures(
                    allocate_pool,
                    (LOADER_DATA, pool_request(size, align)),
                    res,
                ) && r == alloc_placement(res, align as int),
    {
        alloc_from_pool(size, align, allocate_pool)
    }

    /// Frees through the boot services' pool, as [`dealloc`] does. The boot
    /// services must be available.
    pub fn dealloc<F: FnOnce(usize) -> Result<(), Status>>(
        &self,
        ptr: usize,
        align: usize,
        stored: usize,
        free_pool: F,
    ) -> (r: Result<(), Status>)
        requires
            self.boot_services() is Some,
            call_requires(free_pool, (pool_start(ptr, align, stored),)),
            forall|res: Result<(), Status>|
                #[trigger] call_ensures(free_pool, (pool_start(ptr, align, stored),), res)
                    ==> res is Ok,
        ensures
            call_ensures(free_pool, (pool_start(ptr, align, stored),), r),
            r is Ok,
    {
        dealloc(ptr, align, stored, free_pool)
    }
}

} // verus!
