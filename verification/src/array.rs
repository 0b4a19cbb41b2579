//! Array attributes: every element has its own number of values. They are
//! held as two flat arrays, the values of all elements back to back and the
//! size of each element. An element is had by running a cursor over the
//! sizes; that cursor never leaves the values, because the sizes are checked
//! against the values when the array is made.

use crate::errors::{ErrorModel, HapiError, HapiResult, Kind};
use crate::session::NativeSession;
use vstd::prelude::*;
use vstd::slice::{slice_subrange, slice_to_vec};

verus! {

/// The sum of the sizes.
pub open spec fn total(sizes: Seq<i32>) -> int
    decreases sizes.len(),
{
    if sizes.len() == 0 {
        0
    } else {
        total(sizes.drop_last()) + sizes.last()
    }
}

/// Whether no size is negative.
pub open spec fn non_negative(sizes: Seq<i32>) -> bool {
    forall|i: int| 0 <= i < sizes.len() ==> sizes[i] >= 0
}

/// Whether the sizes describe exactly `len` values: none is negative, and
/// they add up to `len`.
pub open spec fn sizes_fit(sizes: Seq<i32>, len: nat) -> bool {
    non_negative(sizes) && total(sizes) == len
}

/// Where element `i` begins among the values.
pub open spec fn offset(sizes: Seq<i32>, i: int) -> int {
    total(sizes.take(i))
}

/// The values of element `i`.
pub open spec fn element<T>(data: Seq<T>, sizes: Seq<i32>, i: int) -> Seq<T> {
    data.subrange(offset(sizes, i), offset(sizes, i) + sizes[i])
}

/// The values of the first `n` elements, back to back.
pub open spec fn elements_upto<T>(data: Seq<T>, sizes: Seq<i32>, n: int) -> Seq<T>
    decreases n,
{
    if n <= 0 {
        Seq::empty()
    } else {
        elements_upto(data, sizes, n - 1) + element(data, sizes, n - 1)
    }
}

/// The sum over a prefix grows by the size that follows it.
pub proof fn lemma_offset_step(sizes: Seq<i32>, i: int)
    requires
        0 <= i < sizes.len(),
    ensures
        offset(sizes, i + 1) == offset(sizes, i) + sizes[i],
        offset(sizes, 0) == 0,
{
    assert(sizes.take(i + 1).drop_last() =~= sizes.take(i));
    assert(sizes.take(i + 1).last() == sizes[i]);
    assert(sizes.take(0) =~= Seq::<i32>::empty());
}

/// Where no size is negative, the elements lie one after the other within
/// the total.
pub proof fn lemma_offsets_ordered(sizes: Seq<i32>, i: int)
    requires
        non_negative(sizes),
        0 <= i <= sizes.len(),
    ensures
        0 <= offset(sizes, i) <= total(sizes),
    decreases sizes.len() - i,
{
    if i == sizes.len() {
        assert(sizes.take(i) =~= sizes);
        lemma_total_non_negative(sizes);
    } else {
        lemma_offset_step(sizes, i);
        lemma_offsets_ordered(sizes, i + 1);
        lemma_total_non_negative(sizes.take(i));
    }
}

/// A sum of sizes of which none is negative is not negative.
pub proof fn lemma_total_non_negative(sizes: Seq<i32>)
    requires
        non_negative(sizes),
    ensures
        total(sizes) >= 0,
    decreases sizes.len(),
{
    if sizes.len() > 0 {
        lemma_total_non_negative(sizes.drop_last());
    }
}

/// Every element of a well-sized array lies within the values: reading
/// it never leaves them.
pub proof fn lemma_element_in_range(sizes: Seq<i32>, len: nat, i: int)
    requires
        sizes_fit(sizes, len),
        0 <= i < sizes.len(),
    ensures
        0 <= offset(sizes, i),
        offset(sizes, i) + sizes[i] <= len,
{
    lemma_offset_step(sizes, i);
    lemma_offsets_ordered(sizes, i);
    lemma_offsets_ordered(sizes, i + 1);
}

/// The elements of a well-sized array, back to back, are all the values:
/// walking the sizes neither skips a value nor reads one twice.
pub proof fn lemma_elements_cover<T>(data: Seq<T>, sizes: Seq<i32>)
    requires
        sizes_fit(sizes, data.len()),
    ensures
        elements_upto(data, sizes, sizes.len() as int) == data,
{
    lemma_elements_prefix(data, sizes, sizes.len() as int);
    assert(sizes.take(sizes.len() as int) =~= sizes);
    assert(data.take(data.len() as int) =~= data);
}

proof fn lemma_elements_prefix<T>(data: Seq<T>, sizes: Seq<i32>, n: int)
    requires
        sizes_fit(sizes, data.len()),
        0 <= n <= sizes.len(),
    ensures
        elements_upto(data, sizes, n) == data.take(offset(sizes, n)),
    decreases n,
{
    if n == 0 {
        lemma_offset_step_zero(sizes);
        assert(data.take(0) =~= Seq::<T>::empty());
    } else {
        lemma_elements_prefix(data, sizes, n - 1);
        lemma_offset_step(sizes, n - 1);
        lemma_element_in_range(sizes, data.len(), n - 1);
        assert(data.take(offset(sizes, n - 1)) + element(data, sizes, n - 1) =~= data.take(
            offset(sizes, n),
        ));
    }
}

proof fn lemma_offset_step_zero(sizes: Seq<i32>)
    ensures
        offset(sizes, 0) == 0,
{
    assert(sizes.take(0) =~= Seq::<i32>::empty());
}

/// Checks sizes against a number of values.
pub fn check_sizes(sizes: &[i32], len: usize) -> (ok: bool)
    ensures
        ok == sizes_fit(sizes@, len as nat),
{
    let mut sum: usize = 0;
    let mut i: usize = 0;
    while i < sizes.len()
        invariant
            i <= sizes.len(),
            non_negative(sizes@.take(i as int)),
            sum == offset(sizes@, i as int),
            sum <= len,
        decreases sizes.len() - i,
    {
        proof {
            lemma_offset_step(sizes@, i as int);
        }
        let size = sizes[i];
        if size < 0 {
            proof {
                assert(!non_negative(sizes@));
            }
            return false;
        }
        if size as usize > len - sum {
            proof {
                // The sum of what follows is not negative, so the total
                // exceeds the number of values.
                if non_negative(sizes@) {
                    lemma_offsets_ordered(sizes@, i + 1);
                }
            }
            return false;
        }
        sum = sum + size as usize;
        proof {
            let done = sizes@.take(i as int);
            let next = sizes@.take(i + 1);
            assert forall|j: int| 0 <= j < next.len() implies next[j] >= 0 by {
                if j < i {
                    assert(done[j] == next[j]);
                }
            }
        }
        i += 1;
    }
    proof {
        assert(sizes@.take(sizes@.len() as int) =~= sizes@);
    }
    sum == len
}

/// The error for sizes that do not describe the values they come with.
pub fn size_mismatch() -> (e: HapiError)
    ensures
        e@ == (ErrorModel {
            kind: Kind::Hapi(HapiResult::InvalidArgument),
            message: Some("Sizes do not add up to the number of values"@),
            session: None,
        }),
{
    HapiError::local(HapiResult::InvalidArgument, "Sizes do not add up to the number of values")
}

/// The values of an array attribute and the size of each element.
#[derive(Debug)]
pub struct DataArray<T> {
    data: Vec<T>,
    sizes: Vec<i32>,
}

/// An array attribute as plain values: all values, and the sizes.
pub struct ArrayModel<T> {
    pub data: Seq<T>,
    pub sizes: Seq<i32>,
}

impl<T> View for DataArray<T> {
    type V = ArrayModel<T>;

    closed spec fn view(&self) -> ArrayModel<T> {
        ArrayModel { data: self.data@, sizes: self.sizes@ }
    }
}

/// Walks the elements of an array attribute.
pub struct ArrayIter<'a, T> {
    data: &'a [T],
    sizes: &'a [i32],
    /// The number of elements handed out.
    index: usize,
    /// Where the next element begins among the values.
    cursor: usize,
}

impl<T> DataArray<T> {
    #[verifier::type_invariant]
    spec fn well_formed(self) -> bool {
        sizes_fit(self.sizes@, self.data@.len())
    }

    /// An array over a copy of the given values and sizes. Sizes that do not
    /// describe exactly these values are refused.
    pub fn new(dat: &[T], sizes: &[i32]) -> (r: Result<DataArray<T>, HapiError>) where T: Copy
        ensures
            r is Ok <==> sizes_fit(sizes@, dat@.len()),
            r matches Ok(a) ==> a@.data == dat@ && a@.sizes == sizes@,
            r matches Err(e) ==> e@ == (ErrorModel {
                kind: Kind::Hapi(HapiResult::InvalidArgument),
                message: Some("Sizes do not add up to the number of values"@),
                session: None,
            }),
    {
        DataArray::new_owned(slice_to_vec(dat), slice_to_vec(sizes))
    }

    /// An array over the given values and sizes. Sizes that do not describe
    /// exactly these values are refused.
    pub fn new_owned(dat: Vec<T>, sizes: Vec<i32>) -> (r: Result<DataArray<T>, HapiError>)
        ensures
            r is Ok <==> sizes_fit(sizes@, dat@.len()),
            r matches Ok(a) ==> a@.data == dat@ && a@.sizes == sizes@,
            r matches Err(e) ==> e@ == (ErrorModel {
                kind: Kind::Hapi(HapiResult::InvalidArgument),
                message: Some("Sizes do not add up to the number of values"@),
                session: None,
            }),
    {
        if check_sizes(sizes.as_slice(), dat.len()) {
            Ok(DataArray { data: dat, sizes })
        } else {
            Err(size_mismatch())
        }
    }

    /// All values, back to back.
    pub fn data(&self) -> (d: &[T])
        ensures
            d@ == self@.data,
    {
        self.data.as_slice()
    }

    /// The size of each element. They describe exactly the values.
    pub fn sizes(&self) -> (s: &[i32])
        ensures
            s@ == self@.sizes,
            sizes_fit(self@.sizes, self@.data.len()),
    {
        proof {
            use_type_invariant(self);
        }
        self.sizes.as_slice()
    }

    /// Replaces one value. The shape of the array stays.
    pub fn set(&mut self, i: usize, value: T)
        requires
            i < old(self)@.data.len(),
        ensures
            final(self)@.sizes == old(self)@.sizes,
            final(self)@.data == old(self)@.data.update(i as int, value),
    {
        proof {
            use_type_invariant(&*self);
        }
        let mut whole = DataArray { data: Vec::new(), sizes: Vec::new() };
        core::mem::swap(self, &mut whole);
        let DataArray { data, sizes } = whole;
        let mut data = data;
        data.set(i, value);
        *self = DataArray { data, sizes };
    }

    /// The number of elements.
    pub fn len(&self) -> (n: usize)
        ensures
            n == self@.sizes.len(),
    {
        self.sizes.len()
    }

    /// Walks the elements, from the first.
    pub fn iter(&self) -> (it: ArrayIter<'_, T>)
        ensures
            it.data() == self@.data,
            it.sizes() == self@.sizes,
            it.position() == 0,
    {
        self.iter_values()
    }

    /// Walks the elements, from the first.
    pub fn iter_values(&self) -> (it: ArrayIter<'_, T>)
        ensures
            it.data() == self@.data,
            it.sizes() == self@.sizes,
            it.position() == 0,
    {
        proof {
            use_type_invariant(self);
            lemma_offset_step_zero(self.sizes@);
        }
        ArrayIter { data: self.data.as_slice(), sizes: self.sizes.as_slice(), index: 0, cursor: 0 }
    }

    /// The values of element `i`.
    pub fn get(&self, i: usize) -> (values: Option<&[T]>)
        ensures
            match values {
                Some(v) => i < self@.sizes.len() && v@ == element(self@.data, self@.sizes, i as int),
                None => i >= self@.sizes.len(),
            },
    {
        let mut it = self.iter_values();
        let mut k: usize = 0;
        while k < i
            invariant
                k <= i,
                it.data() == self@.data,
                it.sizes() == self@.sizes,
                it.position() == if k <= self@.sizes.len() {
                    k as int
                } else {
                    self@.sizes.len() as int
                },
            decreases i - k,
        {
            let _ = it.next();
            k += 1;
        }
        it.next()
    }
}

impl<'a, T> ArrayIter<'a, T> {
    #[verifier::type_invariant]
    spec fn well_formed(self) -> bool {
        &&& sizes_fit(self.sizes@, self.data@.len())
        &&& self.index <= self.sizes@.len()
        &&& self.cursor == offset(self.sizes@, self.index as int)
    }

    /// All values of the array that is walked.
    pub closed spec fn data(&self) -> Seq<T> {
        self.data@
    }

    /// All sizes of the array that is walked.
    pub closed spec fn sizes(&self) -> Seq<i32> {
        self.sizes@
    }

    /// The number of elements handed out so far.
    pub closed spec fn position(&self) -> int {
        self.index as int
    }

    /// The values of the next element, or `None` after the last. The walk
    /// stays within the values.
    pub fn next(&mut self) -> (r: Option<&'a [T]>)
        ensures
            final(self).data() == old(self).data(),
            final(self).sizes() == old(self).sizes(),
            old(self).position() < old(self).sizes().len() ==> final(self).position() == old(
                self,
            ).position() + 1 && (r matches Some(v) && v@ == element(
                old(self).data(),
                old(self).sizes(),
                old(self).position(),
            )),
            old(self).position() >= old(self).sizes().len() ==> r is None && final(self).position()
                == old(self).position(),
    {
        proof {
            use_type_invariant(&*self);
        }
        if self.index >= self.sizes.len() {
            return None;
        }
        proof {
            lemma_element_in_range(self.sizes@, self.data@.len(), self.index as int);
            lemma_offset_step(self.sizes@, self.index as int);
        }
        let len = self.data.len();
        let size = self.sizes[self.index];
        assert(size >= 0);
        let start = self.cursor;
        let end = start + size as usize;
        let values = slice_subrange(self.data, start, end);
        *self = ArrayIter {
            data: self.data,
            sizes: self.sizes,
            index: self.index + 1,
            cursor: end,
        };
        Some(values)
    }
}

/// The string handles of a string array attribute and the size of each
/// element, with the session whose string table resolves the handles.
#[derive(Debug)]
pub struct StringMultiArray {
    handles: Vec<i32>,
    sizes: Vec<i32>,
    session: NativeSession,
}

/// Walks the elements of a string array attribute. Each element is a run of
/// string handles, to be resolved as one batch.
pub struct MultiArrayIter<'a> {
    inner: ArrayIter<'a, i32>,
    session: NativeSession,
}

impl View for StringMultiArray {
    type V = ArrayModel<i32>;

    closed spec fn view(&self) -> ArrayModel<i32> {
        ArrayModel { data: self.handles@, sizes: self.sizes@ }
    }
}

impl StringMultiArray {
    #[verifier::type_invariant]
    spec fn well_formed(self) -> bool {
        sizes_fit(self.sizes@, self.handles@.len())
    }

    /// The session whose string table resolves the handles.
    pub closed spec fn session_of(&self) -> NativeSession {
        self.session
    }

    /// A string array over the handles and sizes that the engine handed
    /// back. Sizes that do not describe exactly these handles are refused.
    pub fn new(handles: Vec<i32>, sizes: Vec<i32>, session: NativeSession) -> (r: Result<
        StringMultiArray,
        HapiError,
    >)
        ensures
            r is Ok <==> sizes_fit(sizes@, handles@.len()),
            r matches Ok(a) ==> a@.data == handles@ && a@.sizes == sizes@ && a.session_of()
                == session,
            r matches Err(e) ==> e@ == (ErrorModel {
                kind: Kind::Hapi(HapiResult::InvalidArgument),
                message: Some("Sizes do not add up to the number of values"@),
                session: None,
            }),
    {
        if check_sizes(sizes.as_slice(), handles.len()) {
            Ok(StringMultiArray { handles, sizes, session })
        } else {
            Err(size_mismatch())
        }
    }

    pub fn handles(&self) -> (h: &[i32])
        ensures
            h@ == self@.data,
    {
        self.handles.as_slice()
    }

    pub fn sizes(&self) -> (s: &[i32])
        ensures
            s@ == self@.sizes,
            sizes_fit(self@.sizes, self@.data.len()),
    {
        proof {
            use_type_invariant(self);
        }
        self.sizes.as_slice()
    }

    pub fn session(&self) -> (s: NativeSession)
        ensures
            s == self.session_of(),
    {
        self.session
    }

    /// Walks the elements, from the first.
    pub fn iter(&self) -> (it: MultiArrayIter<'_>)
        ensures
            it.handles() == self@.data,
            it.sizes() == self@.sizes,
            it.position() == 0,
            it.session_of() == self.session_of(),
    {
        proof {
            use_type_invariant(self);
            lemma_offset_step_zero(self.sizes@);
        }
        MultiArrayIter {
            inner: ArrayIter {
                data: self.handles.as_slice(),
                sizes: self.sizes.as_slice(),
                index: 0,
                cursor: 0,
            },
            session: self.session,
        }
    }
}

impl<'a> MultiArrayIter<'a> {
    pub closed spec fn handles(&self) -> Seq<i32> {
        self.inner.data()
    }

    pub closed spec fn sizes(&self) -> Seq<i32> {
        self.inner.sizes()
    }

    pub closed spec fn position(&self) -> int {
        self.inner.position()
    }

    pub closed spec fn session_of(&self) -> NativeSession {
        self.session
    }

    pub fn session(&self) -> (s: NativeSession)
        ensures
            s == self.session_of(),
    {
        self.session
    }

    /// The string handles of the next element, or `None` after the last.
    pub fn next(&mut self) -> (r: Option<&'a [i32]>)
        ensures
            final(self).handles() == old(self).handles(),
            final(self).sizes() == old(self).sizes(),
            final(self).session_of() == old(self).session_of(),
            old(self).position() < old(self).sizes().len() ==> final(self).position() == old(
                self,
            ).position() + 1 && (r matches Some(v) && v@ == element(
                old(self).handles(),
                old(self).sizes(),
                old(self).position(),
            )),
            old(self).position() >= old(self).sizes().len() ==> r is None && final(self).position()
                == old(self).position(),
    {
        self.inner.next()
    }
}

} // verus!
