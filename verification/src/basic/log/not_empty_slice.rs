use vstd::prelude::*;

verus! {

/// A slice that is never empty.
pub struct NotEmptySlice<'a, TElement> {
    slice: &'a [TElement],
}

impl<'a, TElement> NotEmptySlice<'a, TElement> {
    #[verifier::type_invariant]
    spec fn inv(self) -> bool {
        self.slice@.len() > 0
    }

    /// `Some` if `slice` is not empty, `None` otherwise.
    pub fn new(slice: &'a [TElement]) -> (r: Option<Self>)
        ensures
            r is Some <==> slice@.len() > 0,
            r matches Some(s) ==> s@ == slice@,
    {
        match slice.is_empty() {
            true => None,
            false => Some(NotEmptySlice { slice }),
        }
    }

    /// The first element.
    pub fn first(&self) -> (e: &TElement)
        ensures
            *e == self@[0],
    {
        proof {
            use_type_invariant(self);
        }
        // never panics because at creation time we ensure that the slice is not empty
        &self.slice[0]
    }

    /// The last element.
    pub fn last(&self) -> (e: &TElement)
        ensures
            *e == self@.last(),
    {
        proof {
            use_type_invariant(self);
        }
        &self.slice[self.slice.len() - 1]
    }

    /// The elements.
    pub fn as_slice(&self) -> (s: &'a [TElement])
        ensures
            s@ == self@,
            s@.len() > 0,
    {
        proof {
            use_type_invariant(self);
        }
        self.slice
    }
}

impl<'a, TElement> core::ops::Deref for NotEmptySlice<'a, TElement> {
    type Target = [TElement];

    fn deref(&self) -> (s: &[TElement])
        ensures
            s@ == self@,
    {
        self.slice
    }
}

impl<'a, TElement> View for NotEmptySlice<'a, TElement> {
    type V = Seq<TElement>;

    closed spec fn view(&self) -> Seq<TElement> {
        self.slice@
    }
}

} // verus!
