//! Alignment of sizes and buffers.

use vstd::prelude::*;

verus! {

/// The offset that rounds `val` up to a multiple of `align`: zero when `val`
/// is a multiple already, else the distance to the next multiple.
pub open spec fn offset_up(val: int, align: int) -> int {
    if val % align == 0 {
        0
    } else {
        align - val % align
    }
}

/// Trait for querying the alignment of a type.
///
/// For a statically-sized type the alignment can be retrieved with
/// `align_of`. For a dynamically-sized type it is helpful to know the
/// alignment before having a value, for example when a value is made in a
/// `[u8]` buffer whose alignment must be checked. `Align` lets the
/// alignment be stated by hand.
pub trait Align {
    /// The alignment that [`Align::alignment`] returns.
    spec fn spec_alignment() -> nat;

    /// Required memory alignment for this type.
    fn alignment() -> (a: usize)
        ensures
            a == Self::spec_alignment(),
    ;

    /// Calculate the offset from `val` necessary to make it aligned,
    /// rounding up. For example, if `val` is 1 and the alignment is 8,
    /// this will return 7. Returns 0 if `val == 0`.
    fn offset_up_to_alignment(val: usize) -> (r: usize)
        requires
            Self::spec_alignment() != 0,
        ensures
            r == offset_up(val as int, Self::spec_alignment() as int),
            r < Self::spec_alignment(),
            (val + r) % (Self::spec_alignment() as int) == 0,
    {
        let a = Self::alignment();
        proof {
            lemma_offset_up(val as int, a as int);
        }
        let r = val % a;
        if r == 0 {
            0
        } else {
            a - r
        }
    }

    /// Round `val` up so that it is aligned.
    fn round_up_to_alignment(val: usize) -> (r: usize)
        requires
            Self::spec_alignment() != 0,
            val + offset_up(val as int, Self::spec_alignment() as int) <= usize::MAX,
        ensures
            r == val + offset_up(val as int, Self::spec_alignment() as int),
            r as int % (Self::spec_alignment() as int) == 0,
            val <= r < val + Self::spec_alignment(),
    {
        val + Self::offset_up_to_alignment(val)
    }

    /// Get a subslice of `buf` where the address of the first element
    /// is aligned. Returns `None` if no element of the buffer is
    /// aligned.
    fn align_buf(buf: &[u8]) -> (r: Option<&[u8]>)
        requires
            Self::spec_alignment() != 0,
        ensures
            exists|addr: usize|
                #[trigger] aligned_part(buf@, addr as int, Self::spec_alignment() as int) == match r {
                    Some(s) => Some(s@),
                    None => None,
                },
    {
        let addr = slice_addr(buf);
        Self::align_buf_at(buf, addr)
    }

    /// The subslice of `buf` whose first element is aligned, given that
    /// `buf` starts at the address `addr`; `None` if no element is aligned.
    fn align_buf_at(buf: &[u8], addr: usize) -> (r: Option<&[u8]>)
        requires
            Self::spec_alignment() != 0,
        ensures
            aligned_part(buf@, addr as int, Self::spec_alignment() as int) == match r {
                Some(s) => Some(s@),
                None => None,
            },
    {
        let offset = Self::offset_up_to_alignment(addr);
        if offset < buf.len() {
            Some(vstd::slice::slice_subrange(buf, offset, buf.len()))
        } else {
            None
        }
    }
}

/// Whether `addr` is a multiple of `align`.
pub fn is_aligned(addr: usize, align: usize) -> (r: bool)
    requires
        align != 0,
    ensures
        r == (addr % align == 0),
{
    addr % align == 0
}

/// The part of `buf`, which starts at address `addr`, from its first
/// element whose address is a multiple of `align`; `None` if there is
/// none.
pub open spec fn aligned_part(buf: Seq<u8>, addr: int, align: int) -> Option<Seq<u8>> {
    if offset_up(addr, align) < buf.len() {
        Some(buf.subrange(offset_up(addr, align), buf.len() as int))
    } else {
        None
    }
}

/// The address of the first byte of a slice, read with `<[u8]>::as_ptr`.
/// It depends on where the slice lies in memory, so nothing is stated of it.
#[verifier::external_body]
fn slice_addr(buf: &[u8]) -> (addr: usize) {
    buf.as_ptr() as usize
}

impl Align for [u8] {
    open spec fn spec_alignment() -> nat {
        1
    }

    fn alignment() -> (a: usize) {
        1
    }
}

/// The alignment of memory pages, 4 KiB.
pub struct PageAlignment;

impl Align for PageAlignment {
    open spec fn spec_alignment() -> nat {
        4096
    }

    fn alignment() -> (a: usize) {
        4096
    }
}

/// An alignment given as a number: `N` bytes.
pub struct FixedAlignment<const N: usize>;

impl<const N: usize> Align for FixedAlignment<N> {
    open spec fn spec_alignment() -> nat {
        N as nat
    }

    fn alignment() -> (a: usize) {
        N
    }
}

/// Rounding up gives the least multiple of the alignment that is at least
/// the value: it is a multiple, it is no smaller, and no multiple lies
/// between the value and it.
pub proof fn lemma_round_up_is_least_multiple(val: int, align: int, m: int)
    requires
        align > 0,
        val >= 0,
        m >= val,
        m % align == 0,
    ensures
        (val + offset_up(val, align)) % align == 0,
        val <= val + offset_up(val, align) <= m,
{
    lemma_offset_up(val, align);
    if m < val + offset_up(val, align) {
        assert(false) by {
            lemma_no_multiple_between(val, align, m);
        }
    }
}

/// Rounding up an aligned value leaves it unchanged, so rounding up twice
/// rounds up once.
pub proof fn lemma_round_up_idempotent(val: int, align: int)
    requires
        align > 0,
        val >= 0,
    ensures
        offset_up(val + offset_up(val, align), align) == 0,
        offset_up(val, align) == 0 <==> val % align == 0,
{
    lemma_offset_up(val, align);
}

/// The rounded-up value is a multiple of the alignment and lies less than
/// one alignment above the value.
proof fn lemma_offset_up(val: int, align: int)
    requires
        align > 0,
        val >= 0,
    ensures
        0 <= offset_up(val, align) < align,
        (val + offset_up(val, align)) % align == 0,
{
    let q = val / align;
    let r = val % align;
    assert(val == q * align + r && 0 <= r < align) by (nonlinear_arith)
        requires
            align > 0,
            q == val / align,
            r == val % align,
    ;
    if r != 0 {
        assert((val + (align - r)) % align == 0) by (nonlinear_arith)
            requires
                val == q * align + r,
                align > 0,
        {
            assert(val + (align - r) == (q + 1) * align);
        }
    }
}

/// No multiple of the alignment lies at or above a value and below its
/// rounded-up value.
proof fn lemma_no_multiple_between(val: int, align: int, m: int)
    requires
        align > 0,
        val >= 0,
        val <= m < val + offset_up(val, align),
    ensures
        m % align != 0,
{
    let q = val / align;
    let r = val % align;
    assert(val == q * align + r && 0 <= r < align) by (nonlinear_arith)
        requires
            align > 0,
            q == val / align,
            r == val % align,
    ;
    assert(r != 0);
    assert(q * align < m < (q + 1) * align) by (nonlinear_arith)
        requires
            val == q * align + r,
            0 < r < align,
            val <= m < val + (align - r),
    ;
    if m % align == 0 {
        let k = m / align;
        assert(m == k * align) by (nonlinear_arith)
            requires
                align > 0,
                m % align == 0,
                k == m / align,
        ;
        assert(false) by (nonlinear_arith)
            requires
                q * align < k * align < (q + 1) * align,
                align > 0,
        ;
    }
}


/// Whether an address is a multiple of an alignment.
pub open spec fn aligned_address(addr: int, align: int) -> bool {
    addr % align == 0
}

/// The part that [`aligned_part`] gives starts at an aligned address, and
/// no element before it is aligned.
pub proof fn lemma_aligned_part_is_aligned(buf: Seq<u8>, addr: int, align: int)
    requires
        addr >= 0,
        align > 0,
    ensures
        aligned_part(buf, addr, align) is Some ==> (addr + offset_up(addr, align)) % align == 0,
        forall|k: int| 0 <= k < offset_up(addr, align) ==> !#[trigger] aligned_address(addr + k, align),
{
    lemma_offset_up(addr, align);
    assert forall|k: int| 0 <= k < offset_up(addr, align) implies !#[trigger] aligned_address(addr + k, align) by {
        if (addr + k) % align == 0 {
            lemma_round_up_is_least_multiple(addr, align, addr + k);
        }
    }
}

} // verus!
