use vstd::prelude::*;
use vstd::pervasive::VecAdditionalExecFns;
use crate::error::{OrientError, OrientResult};
use crate::rid::ORecordID;
use crate::strutil::str_eq;
use crate::value::{entries_model, lemma_entries_model, OValue, Val};

verus! {

broadcast use lemma_entries_model;

// A document's fields form an ordered association list with unique names:
// setting an existing name replaces its value in place, setting a new name
// appends.  The wire codec writes the entries in list order.

/// Index of the first entry named `name`, or -1 when there is none.
pub open spec fn find_entry(entries: Seq<(Seq<char>, Val)>, name: Seq<char>) -> int
    decreases entries,
{
    if entries.len() == 0 {
        -1
    } else if entries[0].0 == name {
        0
    } else {
        let r = find_entry(entries.drop_first(), name);
        if r < 0 {
            -1
        } else {
            r + 1
        }
    }
}

/// Value stored under `name`, if any.
pub open spec fn entries_get(entries: Seq<(Seq<char>, Val)>, name: Seq<char>) -> Option<Val> {
    let i = find_entry(entries, name);
    if i < 0 {
        None
    } else {
        Some(entries[i].1)
    }
}

/// The entry list after storing `v` under `name`.
pub open spec fn entries_set(entries: Seq<(Seq<char>, Val)>, name: Seq<char>, v: Val) -> Seq<
    (Seq<char>, Val),
> {
    let i = find_entry(entries, name);
    if i < 0 {
        entries.push((name, v))
    } else {
        entries.update(i, (name, v))
    }
}

pub proof fn lemma_find_entry_range(entries: Seq<(Seq<char>, Val)>, name: Seq<char>)
    ensures
        -1 <= find_entry(entries, name) < entries.len(),
        find_entry(entries, name) >= 0 ==> entries[find_entry(entries, name)].0 == name,
    decreases entries,
{
    if entries.len() > 0 && entries[0].0 != name {
        lemma_find_entry_range(entries.drop_first(), name);
    }
}

/// Lookup skips a head entry of another name.
pub proof fn lemma_entries_get_tail(s: Seq<(Seq<char>, Val)>, name: Seq<char>)
    requires
        s.len() > 0,
        s[0].0 != name,
    ensures
        entries_get(s, name) == entries_get(s.drop_first(), name),
{
    lemma_find_entry_range(s.drop_first(), name);
    let r = find_entry(s.drop_first(), name);
    if r >= 0 {
        assert(s.drop_first()[r] == s[r + 1]);
    }
}

/// Looking up what was just set yields the new value.
pub proof fn lemma_entries_set_get(entries: Seq<(Seq<char>, Val)>, name: Seq<char>, v: Val)
    ensures
        entries_get(entries_set(entries, name, v), name) == Some(v),
    decreases entries,
{
    lemma_find_entry_range(entries, name);
    let s2 = entries_set(entries, name, v);
    if entries.len() == 0 {
        assert(s2 == entries.push((name, v)));
        assert(s2[0] == (name, v));
        assert(find_entry(s2, name) == 0);
    } else if entries[0].0 == name {
        assert(find_entry(entries, name) == 0);
        assert(s2 == entries.update(0, (name, v)));
        assert(s2[0] == (name, v));
        assert(find_entry(s2, name) == 0);
    } else {
        let i = find_entry(entries, name);
        assert(s2[0] == entries[0]);
        if i < 0 {
            assert(find_entry(entries.drop_first(), name) < 0);
            assert(s2.drop_first() =~= entries.drop_first().push((name, v)));
        } else {
            assert(i >= 1);
            assert(find_entry(entries.drop_first(), name) == i - 1);
            assert(s2.drop_first() =~= entries.drop_first().update(i - 1, (name, v)));
        }
        assert(s2.drop_first() == entries_set(entries.drop_first(), name, v));
        lemma_entries_set_get(entries.drop_first(), name, v);
        lemma_entries_get_tail(s2, name);
    }
}

/// A record as a document: class name, identity, version and the ordered
/// field list.
#[derive(Debug, PartialEq)]
pub struct ODocument {
    pub record_id: ORecordID,
    pub class_name: String,
    pub version: i32,
    pub fields: Vec<(String, OValue)>,
}

impl View for ODocument {
    type V = crate::value::DocVal;

    open spec fn view(&self) -> crate::value::DocVal {
        crate::value::doc_model(*self)
    }
}

impl ODocument {
    pub fn new(class_name: &str) -> (r: ODocument)
        ensures
            r@.class_name == class_name@,
            r@.record_id == (ORecordID { cluster: -1i16, position: -1i64 }),
            r@.version == 0,
            r@.fields.len() == 0,
    {
        ODocument::new_with_rid_version(class_name, ORecordID::empty(), 0)
    }

    pub fn new_with_rid_version(class_name: &str, record_id: ORecordID, version: i32) -> (r:
        ODocument)
        ensures
            r@.class_name == class_name@,
            r@.record_id == record_id,
            r@.version == version,
            r@.fields.len() == 0,
    {
        let r = ODocument {
            version,
            record_id,
            class_name: class_name.to_owned(),
            fields: Vec::new(),
        };
        proof {
            assert(r@.fields =~= entries_model(r.fields@));
        }
        r
    }

    pub fn empty() -> (r: ODocument)
        ensures
            r@.class_name == Seq::<char>::empty(),
            r@.record_id == (ORecordID { cluster: -1i16, position: -1i64 }),
            r@.version == 0,
            r@.fields.len() == 0,
    {
        let r = ODocument::new("");
        proof {
            reveal_strlit("");
            assert(r@.class_name =~= Seq::<char>::empty());
        }
        r
    }

    pub fn builder() -> (r: DocumentBuilder)
        ensures
            r.doc@.class_name == Seq::<char>::empty(),
            r.doc@.record_id == (ORecordID { cluster: -1i16, position: -1i64 }),
            r.doc@.version == 0,
            r.doc@.fields.len() == 0,
    {
        DocumentBuilder { doc: ODocument::empty() }
    }

    pub fn set_record_id(&mut self, record_id: ORecordID)
        ensures
            final(self)@ == (crate::value::DocVal { record_id, ..old(self)@ }),
    {
        self.record_id = record_id;
        proof {
            assert(self@.fields =~= old(self)@.fields);
        }
    }

    pub fn set_version(&mut self, version: i32)
        ensures
            final(self)@ == (crate::value::DocVal { version, ..old(self)@ }),
    {
        self.version = version;
        proof {
            assert(self@.fields =~= old(self)@.fields);
        }
    }

    pub fn class_name(&self) -> (r: &str)
        ensures
            r@ == self@.class_name,
    {
        self.class_name.as_str()
    }

    /// Store `value` under `name`, replacing an entry of that name in place
    /// or appending a new one.
    pub fn set(&mut self, name: &str, value: OValue)
        ensures
            final(self)@ == (crate::value::DocVal {
                fields: entries_set(old(self)@.fields, name@, value@),
                ..old(self)@
            }),
    {
        self.set_raw(name, value)
    }

    /// `set` under its wire-level name.
    pub fn set_raw(&mut self, name: &str, value: OValue)
        ensures
            final(self)@ == (crate::value::DocVal {
                fields: entries_set(old(self)@.fields, name@, value@),
                ..old(self)@
            }),
    {
        let ghost entries = entries_model(self.fields@);
        let mut i: usize = 0;
        while i < self.fields.len()
            invariant
                i <= self.fields@.len(),
                *self == *old(self),
                entries == entries_model(self.fields@),
                forall|j: int| 0 <= j < i ==> entries[j].0 != name@,
                forall|j: int| 0 <= j < i ==> #[trigger] entries[j] == (self.fields@[j].0@,
                    self.fields@[j].1@),
            decreases self.fields@.len() - i,
        {
            proof {
                assert(entries[i as int] == (self.fields@[i as int].0@, self.fields@[
                    i as int].1@));
            }
            if str_eq(self.fields[i].0.as_str(), name) {
                proof {
                    lemma_find_entry_prefix(entries, name@, i as int);
                }
                let owned = name.to_owned();
                self.fields.set(i, (owned, value));
                proof {
                    assert(entries_model(self.fields@) =~= entries_set(entries, name@, value@));
                }
                return ;
            }
            i = i + 1;
        }
        proof {
            lemma_find_entry_absent(entries, name@);
        }
        let owned = name.to_owned();
        self.fields.push((owned, value));
        proof {
            assert(entries_model(self.fields@) =~= entries_set(entries, name@, value@));
        }
    }

    /// The raw value stored under `name`, if any.
    pub fn get_raw(&self, name: &str) -> (r: Option<&OValue>)
        ensures
            match r {
                Some(v) => entries_get(self@.fields, name@) == Some(v@),
                None => entries_get(self@.fields, name@) is None,
            },
    {
        let ghost entries = entries_model(self.fields@);
        let mut i: usize = 0;
        while i < self.fields.len()
            invariant
                i <= self.fields@.len(),
                entries == entries_model(self.fields@),
                forall|j: int| 0 <= j < i ==> entries[j].0 != name@,
                forall|j: int| 0 <= j < i ==> #[trigger] entries[j] == (self.fields@[j].0@,
                    self.fields@[j].1@),
            decreases self.fields@.len() - i,
        {
            proof {
                assert(entries[i as int] == (self.fields@[i as int].0@, self.fields@[
                    i as int].1@));
            }
            if str_eq(self.fields[i].0.as_str(), name) {
                proof {
                    lemma_find_entry_prefix(entries, name@, i as int);
                }
                return Some(&self.fields[i].1);
            }
            i = i + 1;
        }
        proof {
            lemma_find_entry_absent(entries, name@);
        }
        None
    }

    pub fn get_i32(&self, name: &str) -> (r: Option<i32>)
        ensures
            match r {
                Some(v) => entries_get(self@.fields, name@) == Some(Val::I32(v)),
                None => !(entries_get(self@.fields, name@) matches Some(Val::I32(_))),
            },
    {
        match self.get_raw(name) {
            Some(OValue::I32(v)) => Some(*v),
            _ => None,
        }
    }

    pub fn get_str(&self, name: &str) -> (r: Option<&str>)
        ensures
            match r {
                Some(v) => entries_get(self@.fields, name@) == Some(Val::Str(v@)),
                None => !(entries_get(self@.fields, name@) matches Some(Val::Str(_))),
            },
    {
        match self.get_raw(name) {
            Some(OValue::String(v)) => Some(v.as_str()),
            _ => None,
        }
    }

    pub fn get_bool(&self, name: &str) -> (r: Option<bool>)
        ensures
            match r {
                Some(v) => entries_get(self@.fields, name@) == Some(Val::Boolean(v)),
                None => !(entries_get(self@.fields, name@) matches Some(Val::Boolean(_))),
            },
    {
        match self.get_raw(name) {
            Some(OValue::Boolean(v)) => Some(*v),
            _ => None,
        }
    }

    pub fn get_i8(&self, name: &str) -> (r: Option<i8>)
        ensures
            match r {
                Some(v) => entries_get(self@.fields, name@) == Some(Val::I8(v)),
                None => !(entries_get(self@.fields, name@) matches Some(Val::I8(_))),
            },
    {
        match self.get_raw(name) {
            Some(OValue::I8(v)) => Some(*v),
            _ => None,
        }
    }

    /// The value under `name`, or a field error naming the missing field.
    pub fn get_checked(&self, name: &str) -> (r: OrientResult<&OValue>)
        ensures
            match r {
                Ok(v) => entries_get(self@.fields, name@) == Some(v@),
                Err(e) => entries_get(self@.fields, name@) is None && (e matches
                    OrientError::Field(f) && f@ == name@),
            },
    {
        match self.get_raw(name) {
            Some(val) => Ok(val),
            None => Err(OrientError::Field(name.to_owned())),
        }
    }

    pub fn len(&self) -> (r: usize)
        ensures
            r == self@.fields.len(),
    {
        proof {
            lemma_entries_model(self.fields@);
        }
        self.fields.len()
    }

    pub fn is_empty(&self) -> (r: bool)
        ensures
            r == (self@.fields.len() == 0),
    {
        proof {
            lemma_entries_model(self.fields@);
        }
        self.fields.is_empty()
    }
}

/// If the first `i` entries miss `name` and entry `i` carries it, `i` is the
/// find index.
pub proof fn lemma_find_entry_prefix(entries: Seq<(Seq<char>, Val)>, name: Seq<char>, i: int)
    requires
        0 <= i < entries.len(),
        entries[i].0 == name,
        forall|j: int| 0 <= j < i ==> entries[j].0 != name,
    ensures
        find_entry(entries, name) == i,
    decreases i,
{
    if i > 0 {
        lemma_find_entry_prefix(entries.drop_first(), name, i - 1);
    }
}

/// If no entry carries `name`, find reports -1.
pub proof fn lemma_find_entry_absent(entries: Seq<(Seq<char>, Val)>, name: Seq<char>)
    requires
        forall|j: int| 0 <= j < entries.len() ==> entries[j].0 != name,
    ensures
        find_entry(entries, name) == -1,
    decreases entries,
{
    if entries.len() > 0 {
        lemma_find_entry_absent(entries.drop_first(), name);
    }
}

impl Clone for ODocument {
    /// Deep copy with the same model.
    fn clone(&self) -> (r: Self)
        ensures
            r@ == self@,
        decreases self,
    {
        let r = ODocument {
            record_id: self.record_id,
            class_name: self.class_name.clone(),
            version: self.version,
            fields: crate::value::clone_entries(&self.fields),
        };
        r
    }
}

/// Fluent construction of a document.
#[derive(Debug)]
pub struct DocumentBuilder {
    pub doc: ODocument,
}

impl DocumentBuilder {
    pub fn set(self, name: &str, value: OValue) -> (r: DocumentBuilder)
        ensures
            r.doc@ == (crate::value::DocVal {
                fields: entries_set(self.doc@.fields, name@, value@),
                ..self.doc@
            }),
    {
        let mut doc = self.doc;
        doc.set(name, value);
        DocumentBuilder { doc }
    }

    pub fn set_class_name(self, class_name: &str) -> (r: DocumentBuilder)
        ensures
            r.doc@ == (crate::value::DocVal { class_name: class_name@, ..self.doc@ }),
    {
        let mut doc = self.doc;
        doc.class_name = class_name.to_owned();
        proof {
            assert(doc@.fields =~= self.doc@.fields);
        }
        DocumentBuilder { doc }
    }

    pub fn build(self) -> (r: ODocument)
        ensures
            r@ == self.doc@,
    {
        self.doc
    }
}

} // verus!
