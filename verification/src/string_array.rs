//! An append-only ordered collection of strings with aggregate size
//! accounting.
//!
//! The WASI functions `args_sizes_get` and `environ_sizes_get` report a
//! count and a cumulative byte size to the guest, which then allocates
//! buffers of exactly the reported size.  WASI counts one trailing NUL
//! terminator per entry, so the cumulative size maintained here is the
//! sum of each entry's byte length plus one.  Both the count and the
//! cumulative size must fit the 32-bit unsigned range; a push past
//! either boundary is rejected without any partial mutation.

use vstd::prelude::*;

use crate::error::StringArrayError;
use crate::error::WasiCommonError;
use vstd::string::StrSliceExecFns;
use vstd::utf8::encode_utf8;

verus! {

/// The sum of each entry's byte length plus one terminator byte, as
/// reported to the guest by the `*_sizes_get` functions.
pub open spec fn cum_size(s: Seq<Seq<u8>>) -> int
    decreases s.len(),
{
    if s.len() == 0 {
        0
    } else {
        cum_size(s.drop_last()) + s.last().len() + 1
    }
}

/// The cumulative size is never negative.
pub proof fn lemma_cum_size_nonneg(s: Seq<Seq<u8>>)
    ensures
        cum_size(s) >= 0,
    decreases s.len(),
{
    if s.len() > 0 {
        lemma_cum_size_nonneg(s.drop_last());
    }
}

/// Appending one entry grows the cumulative size by the entry's length
/// plus one.
pub proof fn lemma_cum_size_push(s: Seq<Seq<u8>>, e: Seq<u8>)
    ensures
        cum_size(s.push(e)) == cum_size(s) + e.len() + 1,
{
    assert(s.push(e).drop_last() =~= s);
    assert(s.push(e).last() == e);
}

/// The cumulative size of the first `i + 1` entries extends that of the
/// first `i` entries by the length of entry `i` plus one.
pub proof fn lemma_cum_size_take_succ(s: Seq<Seq<u8>>, i: int)
    requires
        0 <= i < s.len(),
    ensures
        cum_size(s.take(i + 1)) == cum_size(s.take(i)) + s[i].len() + 1,
{
    assert(s.take(i + 1) =~= s.take(i).push(s[i]));
    lemma_cum_size_push(s.take(i), s[i]);
}

/// A prefix never has a larger cumulative size than the whole.
pub proof fn lemma_cum_size_take_le(s: Seq<Seq<u8>>, i: int)
    requires
        0 <= i <= s.len(),
    ensures
        cum_size(s.take(i)) <= cum_size(s),
    decreases s.len() - i,
{
    if i < s.len() {
        lemma_cum_size_take_succ(s, i);
        lemma_cum_size_take_le(s, i + 1);
    } else {
        assert(s.take(i) =~= s);
    }
}

/// The outcome that a push must have: the three capacity checks in
/// order, then the appended sequence.
pub open spec fn spec_push(arr: Seq<Seq<u8>>, e: Seq<u8>) -> Result<
    Seq<Seq<u8>>,
    StringArrayError,
> {
    if arr.len() >= 0xffff_ffff {
        Err(StringArrayError::NumberElements)
    } else if e.len() > 0xffff_ffff {
        Err(StringArrayError::ElementSize)
    } else if cum_size(arr) + e.len() + 1 > 0xffff_ffff {
        Err(StringArrayError::CumulativeSize)
    } else {
        Ok(arr.push(e))
    }
}


/// The outcome of pushing a whole sequence of entries in order: the
/// array they leave behind, or the error of the first push that
/// fails.
pub open spec fn spec_push_all(arr: Seq<Seq<u8>>, items: Seq<Seq<u8>>) -> Result<
    Seq<Seq<u8>>,
    StringArrayError,
>
    decreases items.len(),
{
    if items.len() == 0 {
        Ok(arr)
    } else {
        match spec_push(arr, items.first()) {
            Ok(a) => spec_push_all(a, items.drop_first()),
            Err(e) => Err(e),
        }
    }
}

/// Pushing one more item continues from wherever the prefix ended.
pub proof fn lemma_push_all_take_succ(arr: Seq<Seq<u8>>, items: Seq<Seq<u8>>, i: int)
    requires
        0 <= i < items.len(),
    ensures
        spec_push_all(arr, items.take(i + 1)) == match spec_push_all(arr, items.take(i)) {
            Ok(a) => spec_push(a, items[i]),
            Err(e) => Err(e),
        },
    decreases i,
{
    if i == 0 {
        assert(items.take(1).first() == items[0]);
        assert(items.take(1).drop_first() =~= Seq::<Seq<u8>>::empty());
        assert(items.take(0) =~= Seq::<Seq<u8>>::empty());
        if let Ok(a) = spec_push(arr, items[0]) {
            assert(spec_push_all(a, items.take(1).drop_first()) == Ok::<
                Seq<Seq<u8>>,
                StringArrayError,
            >(a));
        }
    } else {
        assert(items.take(i + 1).first() == items[0]);
        assert(items.take(i).first() == items[0]);
        assert(items.take(i + 1).drop_first() =~= items.drop_first().take(i));
        assert(items.take(i).drop_first() =~= items.drop_first().take(i - 1));
        match spec_push(arr, items[0]) {
            Ok(a) => {
                lemma_push_all_take_succ(a, items.drop_first(), i - 1);
                assert(items.drop_first()[i - 1] == items[i]);
            },
            Err(_) => {},
        }
    }
}

/// Once a prefix of pushes has failed, the whole sequence fails with
/// the same error.
pub proof fn lemma_push_all_err_stable(arr: Seq<Seq<u8>>, items: Seq<Seq<u8>>, i: int)
    requires
        0 <= i <= items.len(),
        spec_push_all(arr, items.take(i)) is Err,
    ensures
        spec_push_all(arr, items) == spec_push_all(arr, items.take(i)),
    decreases items.len() - i,
{
    if i < items.len() {
        lemma_push_all_take_succ(arr, items, i);
        lemma_push_all_err_stable(arr, items, i + 1);
    } else {
        assert(items.take(i) =~= items);
    }
}

/// An ordered sequence of immutable byte strings, mutated only by
/// append, with its count and cumulative size tracked.
pub struct StringArray {
    elems: Vec<Vec<u8>>,
    count: u32,
    total: u32,
}

impl View for StringArray {
    type V = Seq<Seq<u8>>;

    closed spec fn view(&self) -> Seq<Seq<u8>> {
        self.elems.deep_view()
    }
}

impl StringArray {
    /// The tracked count and cumulative size agree with the entries,
    /// and the cumulative size fits the 32-bit unsigned range.
    pub closed spec fn wf(&self) -> bool {
        &&& self.count == self@.len()
        &&& self@.len() <= 0xffff_ffff
        &&& self.total == cum_size(self@)
        &&& cum_size(self@) <= 0xffff_ffff
    }

    /// Creates an empty array.
    pub fn new() -> (r: StringArray)
        ensures
            r@ =~= Seq::<Seq<u8>>::empty(),
            r.wf(),
    {
        let r = StringArray { elems: Vec::new(), count: 0, total: 0 };
        proof {
            assert(r.elems.deep_view() =~= Seq::<Seq<u8>>::empty());
        }
        r
    }

    /// Appends one entry, or reports which capacity limit the append
    /// would break.  On failure nothing is mutated.
    pub fn push(&mut self, elem: String) -> (r: Result<(), WasiCommonError>)
        requires
            old(self).wf(),
        ensures
            final(self).wf(),
            match spec_push(old(self)@, encode_utf8(elem@)) {
                Ok(s) => r is Ok && final(self)@ == s,
                Err(e) => r == Err::<(), WasiCommonError>(WasiCommonError::StringArray(e))
                    && *final(self) == *old(self),
            },
    {
        let bytes = elem.as_str().as_bytes_vec();
        self.push_bytes(bytes)
    }

    /// Appends one entry given directly as bytes; the same checks and
    /// outcome as [`StringArray::push`].
    pub fn push_bytes(&mut self, bytes: Vec<u8>) -> (r: Result<(), WasiCommonError>)
        requires
            old(self).wf(),
        ensures
            final(self).wf(),
            match spec_push(old(self)@, bytes@) {
                Ok(s) => r is Ok && final(self)@ == s,
                Err(e) => r == Err::<(), WasiCommonError>(WasiCommonError::StringArray(e))
                    && *final(self) == *old(self),
            },
    {
        proof {
            lemma_cum_size_nonneg(self@);
        }
        if self.count == u32::MAX {
            return Err(WasiCommonError::StringArray(StringArrayError::NumberElements));
        }
        if bytes.len() > u32::MAX as usize {
            return Err(WasiCommonError::StringArray(StringArrayError::ElementSize));
        }
        let len32: u32 = bytes.len() as u32;
        if (self.total as u64) + (len32 as u64) + 1 > u32::MAX as u64 {
            return Err(WasiCommonError::StringArray(StringArrayError::CumulativeSize));
        }
        proof {
            lemma_cum_size_push(self@, bytes@);
        }
        let ghost old_view = self@;
        self.elems.push(bytes);
        self.count = self.count + 1;
        self.total = self.total + len32 + 1;
        proof {
            assert(self.elems.deep_view() =~~= old_view.push(bytes@));
        }
        Ok(())
    }

    /// The element count and the cumulative byte size (one NUL
    /// terminator counted per entry), both 32-bit as the ABI requires.
    pub fn sizes(&self) -> (r: (u32, u32))
        requires
            self.wf(),
        ensures
            r.0 == self@.len(),
            r.1 == cum_size(self@),
    {
        (self.count, self.total)
    }

    /// Read access to the entries.
    pub fn entries(&self) -> (r: &Vec<Vec<u8>>)
        ensures
            r.deep_view() == self@,
    {
        &self.elems
    }
}

} // verus!
