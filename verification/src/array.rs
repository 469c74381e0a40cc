//! String lists: an ordered sequence of strings with its length, handed over
//! whole and released whole.

use vstd::prelude::*;

verus! {

/// A list of strings with an explicit count, owned by whoever holds it.
///
/// The count is the number of strings held. A list is released exactly
/// once, by [`free_string_array`]; the type cannot be copied.
#[derive(Debug)]
pub struct CStringArray {
    data: Vec<String>,
    length: usize,
}

impl View for CStringArray {
    type V = Seq<Seq<char>>;

    closed spec fn view(&self) -> Seq<Seq<char>> {
        self.data.deep_view()
    }
}

impl CStringArray {
    /// The count as stored.
    pub closed spec fn spec_len(&self) -> usize {
        self.length
    }

    /// The count is the number of strings held.
    #[verifier::type_invariant]
    pub open spec fn wf(&self) -> bool {
        self.spec_len() == self@.len()
    }

    /// Packs the strings of `vec`, in order, with their number.
    pub fn from_vec(vec: Vec<String>) -> (list: Self)
        ensures
            list.wf(),
            list@ == vec.deep_view(),
            list.spec_len() == vec.len(),
    {
        let length = vec.len();
        CStringArray { data: vec, length }
    }

    /// The number of strings in the list.
    #[verifier::when_used_as_spec(spec_len)]
    pub fn len(&self) -> (n: usize)
        ensures
            n == self.spec_len(),
            n == self@.len(),
    {
        proof {
            use_type_invariant(self);
        }
        self.length
    }

    /// Gives up the strings, in order, to a caller that takes them over one
    /// by one.
    pub fn into_vec(self) -> (vec: Vec<String>)
        ensures
            vec.deep_view() == self@,
            vec.len() == self.spec_len(),
    {
        proof {
            use_type_invariant(&self);
        }
        self.data
    }

    /// Releases the list: each string in turn, first to last, then the
    /// storage that held them. Returns how many strings it released.
    pub fn free(self) -> (released: usize)
        ensures
            released == self@.len(),
            released == self.spec_len(),
    {
        proof {
            use_type_invariant(&self);
        }
        let ghost total = self.spec_len();
        let mut released: usize = 0;
        for _text in it: self.data
            invariant
                released == it.index(),
                it.seq().len() == total,
        {
            released = released + 1;
        }
        released
    }
}

/// Releases a list that this crate handed out, and tells how many strings
/// went with it: as many as the list counted.
pub fn free_string_array(array: CStringArray) -> (released: usize)
    ensures
        released == array@.len(),
        released == array.spec_len(),
{
    array.free()
}

/// A list packed from `source` holds the strings of `source`, so releasing
/// it visits one string for each of them, no more and no fewer: the number
/// that `free_string_array` returns for `list` is the length of `source`.
pub proof fn lemma_release_visits_every_string(source: Vec<String>, list: CStringArray)
    requires
        list@ == source.deep_view(),
    ensures
        list@.len() == source.len(),
{
}

} // verus!
