//! A map from names to values, both text: the form in which a record is
//! kept in a store of strings.

use vstd::prelude::*;
use crate::text::str_eq;

verus! {

/// The map that a list of entries stands for: a later entry replaces an
/// earlier one of the same name.
pub open spec fn entries_map(entries: Seq<(Seq<char>, Seq<char>)>) -> Map<Seq<char>, Seq<char>>
    decreases entries.len(),
{
    if entries.len() == 0 {
        Map::empty()
    } else {
        entries_map(entries.drop_last()).insert(entries.last().0, entries.last().1)
    }
}

/// A map from names to values.
#[derive(Debug)]
pub struct Fields {
    entries: Vec<(String, String)>,
}

impl View for Fields {
    type V = Map<Seq<char>, Seq<char>>;

    closed spec fn view(&self) -> Map<Seq<char>, Seq<char>> {
        entries_map(self.entries.deep_view())
    }
}

impl Clone for Fields {
    fn clone(&self) -> (copy: Self)
        ensures
            copy@ == self@,
    {
        let mut entries: Vec<(String, String)> = Vec::new();
        let mut i: usize = 0;
        while i < self.entries.len()
            invariant
                i <= self.entries.len(),
                entries.len() == i,
                forall|k: int|
                    0 <= k < i ==> entries[k].0@ == self.entries[k].0@ && entries[k].1@
                        == self.entries[k].1@,
            decreases self.entries.len() - i,
        {
            let entry = &self.entries[i];
            entries.push((entry.0.clone(), entry.1.clone()));
            i += 1;
        }
        assert(entries.deep_view() =~= self.entries.deep_view());
        Self { entries }
    }
}

impl Fields {
    /// The empty map.
    pub fn new() -> (fields: Fields)
        ensures
            fields@ == Map::<Seq<char>, Seq<char>>::empty(),
    {
        let fields = Fields { entries: Vec::new() };
        assert(fields.entries.deep_view() =~= Seq::empty());
        fields
    }

    /// Sets the value of `name`, whether or not it had one.
    pub fn insert(&mut self, name: String, value: String)
        ensures
            final(self)@ == old(self)@.insert(name@, value@),
    {
        let ghost before = self.entries.deep_view();
        self.entries.push((name, value));
        proof {
            let after = self.entries.deep_view();
            assert(after.drop_last() =~= before);
            assert(after.last() == (name@, value@));
        }
    }

    /// The value of `name`, if it has one.
    pub fn get(&self, name: &str) -> (value: Option<&String>)
        ensures
            value is Some <==> self@.contains_key(name@),
            value is Some ==> value->Some_0@ == self@[name@],
    {
        let mut i: usize = self.entries.len();
        let ghost all = self.entries.deep_view();
        assert(all.subrange(0, i as int) =~= all);
        while i > 0
            invariant
                i <= self.entries.len(),
                all == self.entries.deep_view(),
                entries_map(all).contains_key(name@) <==> entries_map(
                    all.subrange(0, i as int),
                ).contains_key(name@),
                entries_map(all).contains_key(name@) ==> entries_map(all)[name@] == entries_map(
                    all.subrange(0, i as int),
                )[name@],
            decreases i,
        {
            i = i - 1;
            let entry = &self.entries[i];
            proof {
                let upto = all.subrange(0, i + 1);
                assert(upto.drop_last() =~= all.subrange(0, i as int));
                assert(upto.last() == all[i as int]);
                assert(all[i as int] == (entry.0@, entry.1@));
            }
            if str_eq(entry.0.as_str(), name) {
                return Some(&entry.1);
            }
        }
        None
    }

    /// The entries in the order in which they were set. A later entry
    /// replaces an earlier one of the same name.
    pub fn into_entries(self) -> (entries: Vec<(String, String)>)
        ensures
            entries_map(entries.deep_view()) == self@,
    {
        self.entries
    }
}

} // verus!
