//! The unit of exchange at every boundary of the dispatch subsystem: an
//! immutable mapping from field name to raw byte payload.

use vstd::prelude::*;

verus! {

/// Spec-level view of a field list: each `(String, Vec<u8>)` pair as a
/// `(Seq<char>, Seq<u8>)` pair, in order.
pub open spec fn entries_view(data: Seq<(String, Vec<u8>)>) -> Seq<(Seq<char>, Seq<u8>)> {
    data.map(|i: int, p: (String, Vec<u8>)| (p.0@, p.1@))
}

/// A mapping from field name to byte payload.  Field names are unique;
/// their order carries no meaning.
#[derive(Debug)]
pub struct Message {
    pub data: Vec<(String, Vec<u8>)>,
}

impl View for Message {
    type V = Seq<(Seq<char>, Seq<u8>)>;

    open spec fn view(&self) -> Self::V {
        entries_view(self.data@)
    }
}

impl Message {
    /// Field names are pairwise distinct.
    pub open spec fn wf(self) -> bool {
        forall|i: int, j: int|
            0 <= i < j < self@.len() ==> self@[i].0 != self@[j].0
    }

    /// The message has a field of the given name.
    pub open spec fn spec_contains_key(self, name: Seq<char>) -> bool {
        exists|i: int| 0 <= i < self@.len() && self@[i].0 == name
    }

    pub fn new(data: Vec<(String, Vec<u8>)>) -> (r: Message)
        ensures
            r.data == data,
            r@ == entries_view(data@),
    {
        Message { data }
    }

    pub fn from_hashmap(data: Vec<(String, Vec<u8>)>) -> (r: Message)
        ensures
            r.data == data,
            r@ == entries_view(data@),
    {
        Message { data }
    }

    /// The payload of the first field of the given name, if any.
    pub fn get(&self, name: &String) -> (r: Option<&Vec<u8>>)
        ensures
            match r {
                Some(v) => exists|i: int|
                    0 <= i < self@.len() && self@[i] == (name@, v@),
                None => !self.spec_contains_key(name@),
            },
    {
        let mut i: usize = 0;
        while i < self.data.len()
            invariant
                i <= self.data.len(),
                forall|k: int| 0 <= k < i ==> self@[k].0 != name@,
            decreases self.data.len() - i,
        {
            if self.data[i].0 == *name {
                assert(self@[i as int] == (name@, self.data[i as int].1@));
                return Some(&self.data[i].1);
            }
            i += 1;
        }
        None
    }

    /// The number of fields.
    pub fn len(&self) -> (r: usize)
        ensures
            r == self@.len(),
    {
        self.data.len()
    }
}

} // verus!
