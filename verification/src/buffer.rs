//! Buffers that UEFI functions write their output into.
//!
//! A UEFI function that returns data of varying size is given the size of the
//! space it may write (in bytes). It either writes its data and reports how
//! many bytes it wrote with `SUCCESS`, or reports with `BUFFER_TOO_SMALL` how
//! many bytes it would need, or fails with some other status. A [`Buffer`]
//! hands its free space to such a function (a *producer*) and keeps track of
//! how much of it now holds data.

use crate::align::Align;
use crate::status::{Status, BUFFER_TOO_SMALL, SUCCESS};
use core::marker::PhantomData;
use vstd::layout::size_of;
use vstd::prelude::*;

verus! {

/// What a producer reports: its status, the size in bytes that goes with it
/// (written on success, needed on `BUFFER_TOO_SMALL`), and the elements it
/// wrote.
pub struct Fill<T> {
    /// The producer's status.
    pub status: Status,
    /// The size in bytes written, or needed.
    pub size_in_bytes: usize,
    /// The elements written; only read on success.
    pub data: Vec<T>,
}

/// An error status together with data that depends on the status.
#[derive(Debug, PartialEq, Eq)]
pub struct StatusError<D> {
    /// The status of the failed operation.
    pub status: Status,
    /// Data that goes with the status.
    pub data: D,
}

impl<D> StatusError<D> {
    /// Creates an error from a status and its data.
    pub fn new(status: Status, data: D) -> (e: Self)
        ensures
            e.status == status,
            e.data == data,
    {
        StatusError { status, data }
    }

    /// The status of the error.
    pub fn status(&self) -> (s: Status)
        ensures
            s == self.status,
    {
        self.status
    }

    /// The data of the error.
    pub fn data(self) -> (d: D)
        ensures
            d == self.data,
    {
        self.data
    }
}

/// The result of a write into a buffer: on `BUFFER_TOO_SMALL` the error holds
/// the size in bytes that would be needed.
pub type WriteResult = Result<(), StatusError<Option<usize>>>;

/// The result that a write reports for a producer's status and the size in
/// bytes that it reported.
pub open spec fn write_result(status: Status, size_in_bytes: int) -> WriteResult {
    if status.0 == SUCCESS {
        Ok(())
    } else if status.0 == BUFFER_TOO_SMALL {
        Err(StatusError { status, data: Some(size_in_bytes as usize) })
    } else {
        Err(StatusError { status, data: None })
    }
}

/// What a producer must meet on every outcome when it is offered `avail`
/// bytes: its size is a whole number of elements, and on success it wrote
/// no more than it was offered, exactly the elements that the size counts.
pub open spec fn fill_obeys<T>(out: Fill<T>, avail: int) -> bool {
    &&& out.size_in_bytes as nat % size_of::<T>() == 0
    &&& out.status.0 == SUCCESS ==> {
        &&& out.size_in_bytes <= avail
        &&& out.data@.len() * size_of::<T>() == out.size_in_bytes
    }
}

/// A producer that may be called with `avail` bytes and meets
/// [`fill_obeys`] on every outcome.
pub open spec fn producer_obeys<T, F: FnOnce(usize) -> Fill<T>>(f: F, avail: usize) -> bool {
    &&& call_requires(f, (avail,))
    &&& forall|out: Fill<T>| call_ensures(f, (avail,), out) ==> fill_obeys::<T>(out, avail as int)
}

/// A producer that may be called with any number of bytes, meets
/// [`fill_obeys`] on every outcome, and never reports more than `limit`
/// bytes.
pub open spec fn producer_obeys_always<T, F: FnOnce(usize) -> Fill<T>>(
    f: F,
    limit: int,
) -> bool {
    forall|avail: usize|
        #![trigger call_requires(f, (avail,))]
        {
            &&& call_requires(f, (avail,))
            &&& forall|out: Fill<T>|
                call_ensures(f, (avail,), out) ==> fill_obeys::<T>(out, avail as int)
                    && out.size_in_bytes <= limit
        }
}

/// A producer that obeys for every size obeys for the size it was called
/// with.
proof fn lemma_obeys_always_at<T, F: FnOnce(usize) -> Fill<T>>(
    f: F,
    limit: int,
    avail: usize,
    out: Fill<T>,
)
    requires
        producer_obeys_always::<T, F>(f, limit),
        call_ensures(f, (avail,), out),
    ensures
        fill_obeys::<T>(out, avail as int),
        out.size_in_bytes <= limit,
{
    assert(call_requires(f, (avail,)));
}

/// A producer that obeys for every size obeys for any one size.
proof fn lemma_obeys_always_from<T, F: FnOnce(usize) -> Fill<T>>(f: F, limit: int, avail: usize)
    requires
        producer_obeys_always::<T, F>(f, limit),
    ensures
        producer_obeys::<T, F>(f, avail),
{
    assert(call_requires(f, (avail,)));
}

/// How a buffer's contents and the write's result follow from one call of
/// the producer `f` with `avail` bytes that returned `out`.
pub open spec fn write_outcome<T, F: FnOnce(usize) -> Fill<T>>(
    f: F,
    avail: usize,
    out: Fill<T>,
    old_contents: Seq<T>,
    new_contents: Seq<T>,
    r: WriteResult,
) -> bool {
    &&& call_ensures(f, (avail,), out)
    &&& r == write_result(out.status, out.size_in_bytes as int)
    &&& new_contents == if out.status.0 == SUCCESS {
        out.data@
    } else {
        old_contents
    }
}

/// Data whose size in bytes fits in `max_len` elements is no longer than
/// `max_len`.
proof fn lemma_len_within(len: nat, max_len: nat, elem: nat)
    requires
        elem > 0,
        len * elem <= max_len * elem,
    ensures
        len <= max_len,
{
    if len > max_len {
        assert(len * elem > max_len * elem) by (nonlinear_arith)
            requires
                len > max_len,
                elem > 0,
        ;
    }
}

/// How a buffer's contents and the result of a write that may grow the
/// buffer follow from the last call of the producer `f`: that call started
/// either from the old contents or, after the buffer was emptied to grow,
/// from no contents.
pub open spec fn resize_outcome<T, F: FnOnce(usize) -> Fill<T>>(
    f: F,
    old_contents: Seq<T>,
    new_contents: Seq<T>,
    r: WriteResult,
) -> bool {
    exists|avail: usize, out: Fill<T>, prior: Seq<T>|
        (prior == old_contents || prior == Seq::<T>::empty()) && #[trigger] write_outcome::<T, F>(
            f,
            avail,
            out,
            prior,
            new_contents,
            r,
        )
}

/// Offers `max_len` elements of space to `f` and takes over what it wrote.
///
/// `storage` holds the buffer's data: it is replaced by the elements that
/// `f` wrote on success and left alone otherwise.
fn write_impl<T, F: FnOnce(usize) -> Fill<T>>(
    f: F,
    max_len: usize,
    storage: &mut Vec<T>,
) -> (r: WriteResult)
    requires
        size_of::<T>() > 0,
        max_len * size_of::<T>() <= usize::MAX,
        producer_obeys::<T, F>(f, (max_len * size_of::<T>()) as usize),
    ensures
        exists|out: Fill<T>|
            #[trigger] write_outcome::<T, F>(
                f,
                (max_len * size_of::<T>()) as usize,
                out,
                old(storage)@,
                final(storage)@,
                r,
            ),
        final(storage)@.len() <= max_len || final(storage)@ == old(storage)@,
{
    let elem = core::mem::size_of::<T>();
    let size_in_bytes = max_len * elem;
    let out = f(size_in_bytes);
    let ghost produced = out;
    assert(fill_obeys::<T>(out, size_in_bytes as int));
    let status = out.status;
    let r = if status.0 == SUCCESS {
        let mut data = out.data;
        storage.truncate(0);
        storage.append(&mut data);
        assert(storage@ =~= produced.data@);
        proof {
            lemma_len_within(produced.data@.len(), max_len as nat, elem as nat);
        }
        Ok(())
    } else if status.0 == BUFFER_TOO_SMALL {
        Err(StatusError::new(status, Some(out.size_in_bytes)))
    } else {
        Err(StatusError::new(status, None))
    };
    assert(write_outcome::<T, F>(f, size_in_bytes, produced, old(storage)@, storage@, r));
    r
}

/// Generic buffer interface for UEFI functions that write data into a
/// buffer: a statically sized buffer or a growable [`Vec`] alike.
///
/// The buffer's contents are the elements that the last successful write
/// produced; nothing else can be read from it.
pub trait Buffer<T>: Sized {
    /// The elements that the buffer holds.
    spec fn contents(&self) -> Seq<T>;

    /// The elements that the buffer holds.
    fn as_slice(&self) -> (s: &[T])
        ensures
            s@ == self.contents(),
    ;

    /// Offers the buffer's space to `f` once. Data is always written starting
    /// at the beginning of the buffer, replacing any existing data.
    ///
    /// On `SUCCESS` the buffer then holds what `f` wrote and `Ok(())` is
    /// returned. On `BUFFER_TOO_SMALL` the error holds the size in bytes
    /// that `f` reported it needs. On any other status the error
    /// holds no data. Unless the write succeeded, the contents are unchanged.
    fn write<F: FnOnce(usize) -> Fill<T>>(&mut self, f: F) -> (r: WriteResult)
        requires
            size_of::<T>() > 0,
            forall|avail: usize| #[trigger] producer_obeys::<T, F>(f, avail),
        ensures
            exists|avail: usize, out: Fill<T>|
                #[trigger] write_outcome::<T, F>(f, avail, out, old(self).contents(), final(self).contents(), r),
    ;

    /// Writes with [`Buffer::write_with_padded_auto_resize`] and no padding.
    fn write_with_auto_resize<F: Fn(usize) -> Fill<T>>(&mut self, f: F) -> (r: WriteResult)
        requires
            size_of::<T>() > 0,
            producer_obeys_always::<T, F>(f, isize::MAX as int),
        ensures
            resize_outcome::<T, F>(f, old(self).contents(), final(self).contents(), r),
    {
        self.write_with_padded_auto_resize(f, 0)
    }

    /// Writes into the buffer, growing it first if `f` reports that it is too
    /// small and the buffer can grow; `extra_len` more elements than needed
    /// are then made room for. A buffer that cannot grow writes once.
    fn write_with_padded_auto_resize<F: Fn(usize) -> Fill<T>>(
        &mut self,
        f: F,
        extra_len: usize,
    ) -> (r: WriteResult)
        requires
            size_of::<T>() > 0,
            producer_obeys_always::<T, F>(f, isize::MAX - extra_len * size_of::<T>()),
        ensures
            resize_outcome::<T, F>(f, old(self).contents(), final(self).contents(), r),
    {
        let ghost before = self.contents();
        let r = self.write(f);
        proof {
            let (avail, out) = choose|avail: usize, out: Fill<T>|
                #[trigger] write_outcome::<T, F>(f, avail, out, before, self.contents(), r);
            assert(write_outcome::<T, F>(f, avail, out, before, self.contents(), r));
        }
        r
    }
}

/// A buffer over space the size of a given slice.
pub struct SliceBuffer<'a, T: 'a> {
    data: Vec<T>,
    max_len: usize,
    phantom: PhantomData<&'a mut [T]>,
}

impl<'a, T> SliceBuffer<'a, T> {
    /// The buffer's well-formedness: it holds no more than its space.
    #[verifier::type_invariant]
    pub closed spec fn wf(&self) -> bool {
        &&& self.data@.len() <= self.max_len
        &&& self.max_len * size_of::<T>() <= isize::MAX
    }

    /// The number of elements of space.
    pub closed spec fn max_len(&self) -> nat {
        self.max_len as nat
    }

    /// Create a new `SliceBuffer` from a slice.
    pub fn new(slice: &'a mut [T]) -> (b: Self)
        requires
            old(slice)@.len() * size_of::<T>() <= isize::MAX,
        ensures
            b.wf(),
            b.contents() == Seq::<T>::empty(),
            b.max_len() == old(slice)@.len(),
    {
        SliceBuffer { data: Vec::new(), max_len: slice.len(), phantom: PhantomData }
    }

    /// Create a new `SliceBuffer` from a slice of possibly uninitialized
    /// elements.
    pub fn from_maybe_uninit(slice: &'a mut [core::mem::MaybeUninit<T>]) -> (b: Self)
        requires
            old(slice)@.len() * size_of::<T>() <= isize::MAX,
        ensures
            b.wf(),
            b.contents() == Seq::<T>::empty(),
            b.max_len() == old(slice)@.len(),
    {
        SliceBuffer { data: Vec::new(), max_len: slice.len(), phantom: PhantomData }
    }
}

impl<'a, T> Buffer<T> for SliceBuffer<'a, T> {
    closed spec fn contents(&self) -> Seq<T> {
        self.data@
    }

    fn as_slice(&self) -> (s: &[T]) {
        self.data.as_slice()
    }

    fn write<F: FnOnce(usize) -> Fill<T>>(&mut self, f: F) -> (r: WriteResult)
        ensures
            final(self).max_len() == old(self).max_len(),
            exists|out: Fill<T>|
                #[trigger] write_outcome::<T, F>(
                    f,
                    (old(self).max_len() * size_of::<T>()) as usize,
                    out,
                    old(self).contents(),
                    final(self).contents(),
                    r,
                ),
    {
        proof {
            use_type_invariant(&*self);
        }
        let mut data = Vec::new();
        core::mem::swap(&mut data, &mut self.data);
        let ghost before = data@;
        let r = write_impl(f, self.max_len, &mut data);
        proof {
            let avail = (self.max_len * size_of::<T>()) as usize;
            let out = choose|out: Fill<T>|
                #[trigger] write_outcome::<T, F>(f, avail, out, before, data@, r);
            assert(write_outcome::<T, F>(f, avail, out, before, data@, r));
        }
        self.data = data;
        assert(before == old(self).contents());
        assert(self.contents() == data@);
        assert(self.max_len == old(self).max_len);
        proof {
            let avail = (old(self).max_len() * size_of::<T>()) as usize;
            let out = choose|out: Fill<T>|
                #[trigger] write_outcome::<T, F>(f, avail, out, before, data@, r);
            assert(write_outcome::<T, F>(f, avail, out, old(self).contents(), self.contents(), r));
        }
        r
    }

    /// Writes once: a slice cannot grow.
    fn write_with_auto_resize<F: Fn(usize) -> Fill<T>>(&mut self, f: F) -> (r: WriteResult)
        ensures
            final(self).max_len() == old(self).max_len(),
            exists|out: Fill<T>|
                #[trigger] write_outcome::<T, F>(
                    f,
                    (old(self).max_len() * size_of::<T>()) as usize,
                    out,
                    old(self).contents(),
                    final(self).contents(),
                    r,
                ),
    {
        self.write(f)
    }

    /// Writes once: a slice cannot grow.
    fn write_with_padded_auto_resize<F: Fn(usize) -> Fill<T>>(
        &mut self,
        f: F,
        extra_len: usize,
    ) -> (r: WriteResult)
        ensures
            final(self).max_len() == old(self).max_len(),
            exists|out: Fill<T>|
                #[trigger] write_outcome::<T, F>(
                    f,
                    (old(self).max_len() * size_of::<T>()) as usize,
                    out,
                    old(self).contents(),
                    final(self).contents(),
                    r,
                ),
    {
        proof {
            assert forall|avail: usize| #[trigger] producer_obeys::<T, F>(f, avail) by {
                lemma_obeys_always_from::<T, F>(f, isize::MAX - extra_len * size_of::<T>(), avail);
            }
        }
        self.write(f)
    }
}

/// A buffer with room for `N` elements.
pub struct ArrayBuffer<T, const N: usize> {
    data: Vec<T>,
}

impl<T, const N: usize> ArrayBuffer<T, N> {
    /// The buffer's well-formedness: it holds no more than `N` elements.
    #[verifier::type_invariant]
    pub closed spec fn wf(&self) -> bool {
        &&& self.data@.len() <= N
        &&& N * size_of::<T>() <= isize::MAX
    }

    /// Create a new `ArrayBuffer`.
    pub fn new() -> (b: Self)
        requires
            N * size_of::<T>() <= isize::MAX,
        ensures
            b.contents() == Seq::<T>::empty(),
    {
        ArrayBuffer { data: Vec::new() }
    }
}

impl<T, const N: usize> Buffer<T> for ArrayBuffer<T, N> {
    closed spec fn contents(&self) -> Seq<T> {
        self.data@
    }

    fn as_slice(&self) -> (s: &[T]) {
        self.data.as_slice()
    }

    fn write<F: FnOnce(usize) -> Fill<T>>(&mut self, f: F) -> (r: WriteResult)
        ensures
            exists|out: Fill<T>|
                #[trigger] write_outcome::<T, F>(
                    f,
                    (N * size_of::<T>()) as usize,
                    out,
                    old(self).contents(),
                    final(self).contents(),
                    r,
                ),
    {
        proof {
            use_type_invariant(&*self);
        }
        let mut data = Vec::new();
        core::mem::swap(&mut data, &mut self.data);
        let ghost before = data@;
        let r = write_impl(f, N, &mut data);
        proof {
            let avail = (N * size_of::<T>()) as usize;
            let out = choose|out: Fill<T>|
                #[trigger] write_outcome::<T, F>(f, avail, out, before, data@, r);
            assert(write_outcome::<T, F>(f, avail, out, before, data@, r));
        }
        self.data = data;
        assert(before == old(self).contents());
        assert(self.contents() == data@);
        r
    }

    /// Writes once: an array cannot grow.
    fn write_with_auto_resize<F: Fn(usize) -> Fill<T>>(&mut self, f: F) -> (r: WriteResult)
        ensures
            exists|out: Fill<T>|
                #[trigger] write_outcome::<T, F>(
                    f,
                    (N * size_of::<T>()) as usize,
                    out,
                    old(self).contents(),
                    final(self).contents(),
                    r,
                ),
    {
        self.write(f)
    }

    /// Writes once: an array cannot grow.
    fn write_with_padded_auto_resize<F: Fn(usize) -> Fill<T>>(
        &mut self,
        f: F,
        extra_len: usize,
    ) -> (r: WriteResult)
        ensures
            exists|out: Fill<T>|
                #[trigger] write_outcome::<T, F>(
                    f,
                    (N * size_of::<T>()) as usize,
                    out,
                    old(self).contents(),
                    final(self).contents(),
                    r,
                ),
    {
        proof {
            assert forall|avail: usize| #[trigger] producer_obeys::<T, F>(f, avail) by {
                lemma_obeys_always_from::<T, F>(f, isize::MAX - extra_len * size_of::<T>(), avail);
            }
        }
        self.write(f)
    }
}

impl<T, const N: usize> core::ops::Deref for ArrayBuffer<T, N> {
    type Target = [T];

    fn deref(&self) -> (s: &[T])
        ensures
            s@ == self.contents(),
    {
        self.data.as_slice()
    }
}

impl<'a, T> core::ops::Deref for SliceBuffer<'a, T> {
    type Target = [T];

    fn deref(&self) -> (s: &[T])
        ensures
            s@ == self.contents(),
    {
        self.data.as_slice()
    }
}

/// `Vec::capacity`: the number of elements the vector can hold without
/// reallocating. The standard library documents that it is at least the
/// length and that a vector never holds more than `isize::MAX` bytes; the
/// exact value depends on the allocator and is left unsaid.
#[verifier::external_body]
fn vec_capacity<T>(v: &Vec<T>) -> (c: usize)
    ensures
        c >= v@.len(),
        size_of::<T>() > 0 ==> c * size_of::<T>() <= isize::MAX,
{
    v.capacity()
}

/// `Vec::reserve_exact`: makes room for `additional` more elements. The
/// elements are unchanged; the standard library panics when the new capacity
/// overflows `usize` or exceeds `isize::MAX` bytes, which `requires` rules
/// out. The capacity it leaves depends on the allocator and is not stated.
#[verifier::external_body]
fn vec_reserve_exact<T>(v: &mut Vec<T>, additional: usize)
    requires
        old(v)@.len() + additional <= usize::MAX,
        (old(v)@.len() + additional) * size_of::<T>() <= isize::MAX,
    ensures
        final(v)@ == old(v)@,
{
    v.reserve_exact(additional)
}

impl<T> Buffer<T> for Vec<T> {
    open spec fn contents(&self) -> Seq<T> {
        self@
    }

    fn as_slice(&self) -> (s: &[T]) {
        self.as_slice()
    }

    /// Offers the vector's whole capacity to `f`: at least room for the
    /// elements it holds.
    fn write<F: FnOnce(usize) -> Fill<T>>(&mut self, f: F) -> (r: WriteResult)
        ensures
            exists|avail: usize, out: Fill<T>|
                avail >= old(self)@.len() * size_of::<T>() && #[trigger] write_outcome::<T, F>(
                    f,
                    avail,
                    out,
                    old(self)@,
                    final(self)@,
                    r,
                ),
    {
        let cap = vec_capacity(self);
        let ghost before = self@;
        let r = write_impl(f, cap, self);
        proof {
            let avail = (cap * size_of::<T>()) as usize;
            let out = choose|out: Fill<T>|
                #[trigger] write_outcome::<T, F>(f, avail, out, before, self@, r);
            assert(write_outcome::<T, F>(f, avail, out, before, self@, r));
            assert(write_outcome::<T, F>(f, avail, out, old(self).contents(), self.contents(), r));
            let n = before.len();
            let e = size_of::<T>();
            assert(cap * e >= n * e) by (nonlinear_arith)
                requires
                    cap >= n,
            ;
            assert(avail >= old(self)@.len() * size_of::<T>());
        }
        r
    }

    fn write_with_auto_resize<F: Fn(usize) -> Fill<T>>(&mut self, f: F) -> (r: WriteResult)
        ensures
            vec_resize_outcome::<T, F>(f, 0, old(self)@, final(self)@, r),
    {
        self.write_with_padded_auto_resize(f, 0)
    }

    /// Writes with the current capacity; if `f` reports `BUFFER_TOO_SMALL`,
    /// empties the vector, makes room for the needed number of elements plus
    /// `extra_len`, and writes once more, offering `f` that many elements.
    fn write_with_padded_auto_resize<F: Fn(usize) -> Fill<T>>(
        &mut self,
        f: F,
        extra_len: usize,
    ) -> (r: WriteResult)
        ensures
            vec_resize_outcome::<T, F>(f, extra_len, old(self)@, final(self)@, r),
    {
        let ghost before = self@;
        let g = |avail: usize| -> (out: Fill<T>)
            requires
                call_requires(f, (avail,)),
            ensures
                call_ensures(f, (avail,), out),
            { f(avail) };
        let ghost gg = g;
        let r = self.write(g);
        let ghost (a1, o1) = choose|avail: usize, out: Fill<T>|
            #[trigger] write_outcome(gg, avail, out, before, self@, r);
        proof {
            assert(write_outcome::<T, F>(f, a1, o1, before, self@, r));
        }
        let required_bytes = match &r {
            Err(e) => {
                if e.status.0 == BUFFER_TOO_SMALL {
                    match e.data {
                        Some(n) => n,
                        None => {
                            return r;
                        },
                    }
                } else {
                    return r;
                }
            },
            Ok(()) => {
                return r;
            },
        };
        let required_len = required_bytes / core::mem::size_of::<T>();
        proof {
            lemma_obeys_always_at::<T, F>(f, isize::MAX - extra_len * size_of::<T>(), a1, o1);
            assert(required_bytes == o1.size_in_bytes);
            lemma_div_bound(o1.size_in_bytes as int, size_of::<T>() as int, extra_len as int);
        }
        self.truncate(0);
        vec_reserve_exact(self, required_len + extra_len);
        let ghost emptied = self@;
        let h = |avail: usize| -> (out: Fill<T>)
            requires
                call_requires(f, (avail,)),
            ensures
                call_ensures(f, (avail,), out),
            { f(avail) };
        let ghost hh = h;
        proof {
            let avail2 = ((required_len + extra_len) * size_of::<T>()) as usize;
            assert(call_requires(f, (avail2,)));
            assert forall|out: Fill<T>| call_ensures(hh, (avail2,), out) implies fill_obeys::<T>(
                out,
                avail2 as int,
            ) by {
                lemma_obeys_always_at::<T, F>(f, isize::MAX - extra_len * size_of::<T>(), avail2, out);
            }
        }
        let r2 = write_impl(h, required_len + extra_len, self);
        proof {
            let avail2 = ((required_len + extra_len) * size_of::<T>()) as usize;
            let out = choose|out: Fill<T>| #[trigger] write_outcome(hh, avail2, out, emptied, self@, r2);
            assert(write_outcome::<T, F>(f, avail2, out, emptied, self@, r2));
            assert(emptied == Seq::<T>::empty());
            assert(call_ensures(f, (a1,), o1));
        }
        r2
    }
}

/// How a write into a vector that may grow it ends: the first call of `f`
/// is offered the current capacity; unless it reports `BUFFER_TOO_SMALL`,
/// its outcome is the write's. Otherwise the vector is emptied and `f` is
/// called once more, offered room for the elements it asked for plus
/// `extra_len`, and that outcome is the write's.
pub open spec fn vec_resize_outcome<T, F: FnOnce(usize) -> Fill<T>>(
    f: F,
    extra_len: usize,
    old_contents: Seq<T>,
    new_contents: Seq<T>,
    r: WriteResult,
) -> bool {
    exists|avail: usize, out: Fill<T>|
        #[trigger] call_ensures(f, (avail,), out) && if out.status.0 == BUFFER_TOO_SMALL {
            exists|out2: Fill<T>|
                #[trigger] write_outcome::<T, F>(
                    f,
                    ((out.size_in_bytes as nat / size_of::<T>() + extra_len) * size_of::<T>()) as usize,
                    out2,
                    Seq::<T>::empty(),
                    new_contents,
                    r,
                )
        } else {
            write_outcome::<T, F>(f, avail, out, old_contents, new_contents, r)
        }
}

/// A producer that needs `need` bytes: offered fewer, it reports
/// `BUFFER_TOO_SMALL` with that size; offered enough, it succeeds.
pub open spec fn needs_exactly<T, F: FnOnce(usize) -> Fill<T>>(f: F, need: usize) -> bool {
    forall|avail: usize, out: Fill<T>|
        #[trigger] call_ensures(f, (avail,), out) ==> (avail >= need ==> out.status.0 == SUCCESS) && (
        avail < need ==> out.status.0 == BUFFER_TOO_SMALL && out.size_in_bytes == need)
}

/// A write that offers `avail` bytes to a producer needing `need` bytes
/// succeeds if they are enough, and otherwise reports `BUFFER_TOO_SMALL`
/// with the size needed, keeping the contents.
pub proof fn lemma_fixed_write<T, F: FnOnce(usize) -> Fill<T>>(
    f: F,
    need: usize,
    avail: usize,
    old_contents: Seq<T>,
    new_contents: Seq<T>,
    r: WriteResult,
)
    requires
        needs_exactly::<T, F>(f, need),
        exists|out: Fill<T>| #[trigger] write_outcome::<T, F>(f, avail, out, old_contents, new_contents, r),
    ensures
        avail >= need ==> r is Ok,
        avail < need ==> r == Err::<(), StatusError<Option<usize>>>(
            StatusError { status: Status(BUFFER_TOO_SMALL), data: Some(need) },
        ) && new_contents == old_contents,
{
    let out = choose|out: Fill<T>| #[trigger] write_outcome::<T, F>(f, avail, out, old_contents, new_contents, r);
    assert(call_ensures(f, (avail,), out));
}

/// A vector grows enough for a producer that needs a fixed whole number of
/// elements: writing with room to grow succeeds.
pub proof fn lemma_vec_write_succeeds<T, F: FnOnce(usize) -> Fill<T>>(
    f: F,
    need: usize,
    extra_len: usize,
    old_contents: Seq<T>,
    new_contents: Seq<T>,
    r: WriteResult,
)
    requires
        size_of::<T>() > 0,
        need as nat % size_of::<T>() == 0,
        (need as nat / size_of::<T>() + extra_len) * size_of::<T>() <= usize::MAX,
        needs_exactly::<T, F>(f, need),
        vec_resize_outcome::<T, F>(f, extra_len, old_contents, new_contents, r),
    ensures
        r is Ok,
{
    let (avail, out) = choose|avail: usize, out: Fill<T>|
        #[trigger] call_ensures(f, (avail,), out) && if out.status.0 == BUFFER_TOO_SMALL {
            exists|out2: Fill<T>|
                #[trigger] write_outcome::<T, F>(
                    f,
                    ((out.size_in_bytes as nat / size_of::<T>() + extra_len) * size_of::<T>()) as usize,
                    out2,
                    Seq::<T>::empty(),
                    new_contents,
                    r,
                )
        } else {
            write_outcome::<T, F>(f, avail, out, old_contents, new_contents, r)
        };
    if out.status.0 == BUFFER_TOO_SMALL {
        let e = size_of::<T>();
        let n = need as nat;
        assert((n / e + extra_len) * e >= n) by (nonlinear_arith)
            requires
                e > 0,
                n % e == 0,
        {
            assert(n == (n / e) * e);
            assert((n / e + extra_len) * e == (n / e) * e + extra_len * e);
        }
        let avail2 = ((out.size_in_bytes as nat / size_of::<T>() + extra_len) * size_of::<T>()) as usize;
        let out2 = choose|out2: Fill<T>|
            #[trigger] write_outcome::<T, F>(f, avail2, out2, Seq::<T>::empty(), new_contents, r);
        assert(call_ensures(f, (avail2,), out2));
    }
}

/// A growable byte buffer whose contents are meant to hold values of the
/// alignment that `A` states.
pub struct AlignedByteVec<A: Align> {
    _align: PhantomData<A>,
    data: Vec<u8>,
}

impl<A: Align> AlignedByteVec<A> {
    /// The bytes held.
    pub closed spec fn bytes(&self) -> Seq<u8> {
        self.data@
    }

    /// An empty buffer.
    pub fn new() -> (v: Self)
        ensures
            v.bytes() == Seq::<u8>::empty(),
    {
        AlignedByteVec { _align: PhantomData, data: Vec::new() }
    }
}

/// A size that fits below the limit left by `extra` padding elements counts
/// few enough elements that they and the padding fit in `isize::MAX` bytes.
proof fn lemma_div_bound(size: int, elem: int, extra: int)
    requires
        elem > 0,
        size >= 0,
        extra >= 0,
        size <= isize::MAX - extra * elem,
    ensures
        (size / elem + extra) * elem <= isize::MAX,
        size / elem + extra <= isize::MAX,
{
    assert((size / elem) * elem <= size) by (nonlinear_arith)
        requires
            elem > 0,
            size >= 0,
    ;
    assert((size / elem + extra) * elem == (size / elem) * elem + extra * elem) by (nonlinear_arith);
    assert(size / elem + extra <= (size / elem + extra) * elem) by (nonlinear_arith)
        requires
            elem > 0,
            size >= 0,
            extra >= 0,
    ;
}

} // verus!
