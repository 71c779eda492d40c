use vstd::prelude::*;
use crate::document::{entries_get, entries_set};
use crate::strutil::str_eq;
use crate::value::{entries_model, lemma_entries_model, OValue, Val};

verus! {

broadcast use lemma_entries_model;

/// Document-shaped query result without identity, version or class: just an
/// ordered field list.
#[derive(Debug, PartialEq)]
pub struct Projection {
    pub fields: Vec<(String, OValue)>,
}

impl View for Projection {
    type V = Seq<(Seq<char>, Val)>;

    open spec fn view(&self) -> Seq<(Seq<char>, Val)> {
        entries_model(self.fields@)
    }
}

impl Projection {
    pub fn new() -> (r: Projection)
        ensures
            r@.len() == 0,
    {
        Projection { fields: Vec::new() }
    }

    /// Store `value` under `name`, replacing an entry of that name in place
    /// or appending a new one.
    pub fn insert(&mut self, name: &str, value: OValue)
        ensures
            final(self)@ == entries_set(old(self)@, name@, value@),
    {
        let ghost entries = entries_model(self.fields@);
        let mut i: usize = 0;
        while i < self.fields.len()
            invariant
                i <= self.fields@.len(),
                *self == *old(self),
                entries == entries_model(self.fields@),
                forall|j: int| 0 <= j < i ==> entries[j].0 != name@,
            decreases self.fields@.len() - i,
        {
            proof {
                assert(entries[i as int] == (self.fields@[i as int].0@, self.fields@[
                    i as int].1@));
            }
            if str_eq(self.fields[i].0.as_str(), name) {
                proof {
                    crate::document::lemma_find_entry_prefix(entries, name@, i as int);
                }
                let owned = name.to_owned();
                vstd::pervasive::VecAdditionalExecFns::set(&mut self.fields, i, (owned, value));
                proof {
                    assert(entries_model(self.fields@) =~= entries_set(entries, name@, value@));
                }
                return ;
            }
            i = i + 1;
        }
        proof {
            crate::document::lemma_find_entry_absent(entries, name@);
        }
        let owned = name.to_owned();
        self.fields.push((owned, value));
        proof {
            assert(entries_model(self.fields@) =~= entries_set(entries, name@, value@));
        }
    }

    /// The raw value stored under `name`, if any.
    pub fn get(&self, name: &str) -> (r: Option<&OValue>)
        ensures
            match r {
                Some(v) => entries_get(self@, name@) == Some(v@),
                None => entries_get(self@, name@) is None,
            },
    {
        let ghost entries = entries_model(self.fields@);
        let mut i: usize = 0;
        while i < self.fields.len()
            invariant
                i <= self.fields@.len(),
                entries == entries_model(self.fields@),
                forall|j: int| 0 <= j < i ==> entries[j].0 != name@,
            decreases self.fields@.len() - i,
        {
            proof {
                assert(entries[i as int] == (self.fields@[i as int].0@, self.fields@[
                    i as int].1@));
            }
            if str_eq(self.fields[i].0.as_str(), name) {
                proof {
                    crate::document::lemma_find_entry_prefix(entries, name@, i as int);
                }
                return Some(&self.fields[i].1);
            }
            i = i + 1;
        }
        proof {
            crate::document::lemma_find_entry_absent(entries, name@);
        }
        None
    }

    /// The text stored under `name`, if that entry holds text.
    pub fn as_str(&self, name: &str) -> (r: Option<&str>)
        ensures
            match r {
                Some(v) => entries_get(self@, name@) == Some(Val::Str(v@)),
                None => !(entries_get(self@, name@) matches Some(Val::Str(_))),
            },
    {
        match self.get(name) {
            Some(OValue::String(v)) => Some(v.as_str()),
            _ => None,
        }
    }

    /// Give up the field list.
    pub fn take_map(self) -> (r: Vec<(String, OValue)>)
        ensures
            entries_model(r@) == self@,
    {
        self.fields
    }

    pub fn len(&self) -> (r: usize)
        ensures
            r == self@.len(),
    {
        self.fields.len()
    }
}

impl Default for Projection {
    fn default() -> (r: Projection)
        ensures
            r@.len() == 0,
    {
        Projection { fields: Vec::new() }
    }
}

} // verus!
