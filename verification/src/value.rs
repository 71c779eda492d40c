use vstd::prelude::*;
use crate::rid::ORecordID;
use crate::document::ODocument;

verus! {

broadcast use vstd::std_specs::vec::group_vec_axioms;

/// Ordered list of record links.
#[derive(Debug, PartialEq)]
pub struct LinkList {
    pub links: Vec<ORecordID>,
}

impl LinkList {
    pub fn new(links: Vec<ORecordID>) -> (r: LinkList)
        ensures
            r.links@ == links@,
    {
        LinkList { links }
    }
}

impl From<Vec<ORecordID>> for LinkList {
    fn from(links: Vec<ORecordID>) -> (r: LinkList) {
        LinkList { links }
    }
}

impl vstd::std_specs::convert::FromSpecImpl<Vec<ORecordID>> for LinkList {
    open spec fn obeys_from_spec() -> bool {
        true
    }

    open spec fn from_spec(links: Vec<ORecordID>) -> LinkList {
        LinkList { links }
    }
}

/// A bag of record ids: either inlined, or a server-side tree of which only
/// the size is decoded.
#[derive(Debug, PartialEq)]
pub enum RidBag {
    Embedded(Vec<ORecordID>),
    Tree(i32),
}

/// Mathematical shape of a `RidBag`.
pub enum BagVal {
    Embedded(Seq<ORecordID>),
    Tree(i32),
}

/// Mathematical shape of a field value: what the wire codec is specified
/// against.  Text is a character sequence, collections are sequences, and
/// an embedded map is an ordered sequence of (name, value) pairs.
pub enum Val {
    Null,
    Str(Seq<char>),
    Boolean(bool),
    I8(i8),
    U8(u8),
    I16(i16),
    I32(i32),
    I64(i64),
    F32Bits(u32),
    F64Bits(u64),
    DateTimeMillis(i64),
    DateDays(i64),
    Link(ORecordID),
    LinkList(Seq<ORecordID>),
    LinkSet(Seq<ORecordID>),
    EmbeddedMap(Seq<(Seq<char>, Val)>),
    EmbeddedList(Seq<Val>),
    EmbeddedSet(Seq<Val>),
    Document(DocVal),
    RidBag(BagVal),
}

/// Mathematical shape of a document: class name, identity, version and the
/// ordered field list.
pub struct DocVal {
    pub record_id: ORecordID,
    pub class_name: Seq<char>,
    pub version: i32,
    pub fields: Seq<(Seq<char>, Val)>,
}

/// Tagged value as carried in document fields.  Floating-point fields carry
/// their raw big-endian bit patterns; dates carry days since the epoch and
/// datetimes milliseconds since the epoch, exactly as on the wire.
#[derive(Debug, PartialEq)]
pub enum OValue {
    Null,
    String(String),
    Boolean(bool),
    I8(i8),
    U8(u8),
    I16(i16),
    I32(i32),
    I64(i64),
    F32Bits(u32),
    F64Bits(u64),
    DateTimeMillis(i64),
    DateDays(i64),
    Link(ORecordID),
    LinkList(LinkList),
    LinkSet(LinkList),
    EmbeddedMap(Vec<(String, OValue)>),
    EmbeddedList(Vec<OValue>),
    EmbeddedSet(Vec<OValue>),
    Document(ODocument),
    RidBag(RidBag),
}

pub open spec fn links_model(links: Seq<ORecordID>) -> Seq<ORecordID> {
    links
}

/// Model of an embedded list or set.
pub open spec fn list_model(elems: Seq<OValue>) -> Seq<Val>
    decreases elems,
{
    if elems.len() == 0 {
        Seq::empty()
    } else {
        list_model(elems.drop_last()) + seq![value_model(elems.last())]
    }
}

/// Model of an embedded map or a field list: names become character
/// sequences, values become their models, order is kept.
pub open spec fn entries_model(entries: Seq<(String, OValue)>) -> Seq<(Seq<char>, Val)>
    decreases entries,
{
    if entries.len() == 0 {
        Seq::empty()
    } else {
        entries_model(entries.drop_last()) + seq![
            (entries.last().0@, value_model(entries.last().1))
        ]
    }
}

/// The model of a value list is the pointwise model.
pub broadcast proof fn lemma_list_model(elems: Seq<OValue>)
    ensures
        (#[trigger] list_model(elems)).len() == elems.len(),
        forall|i: int| 0 <= i < elems.len() ==> list_model(elems)[i] == value_model(elems[i]),
    decreases elems,
{
    if elems.len() > 0 {
        lemma_list_model(elems.drop_last());
    }
}

/// The model of an entry list is the pointwise model.
pub broadcast proof fn lemma_entries_model(entries: Seq<(String, OValue)>)
    ensures
        (#[trigger] entries_model(entries)).len() == entries.len(),
        forall|i: int| 0 <= i < entries.len() ==> entries_model(entries)[i] == (entries[i].0@,
            value_model(entries[i].1)),
    decreases entries,
{
    if entries.len() > 0 {
        lemma_entries_model(entries.drop_last());
    }
}

pub open spec fn bag_model(bag: RidBag) -> BagVal {
    match bag {
        RidBag::Embedded(rids) => BagVal::Embedded(rids@),
        RidBag::Tree(size) => BagVal::Tree(size),
    }
}

pub open spec fn value_model(v: OValue) -> Val
    decreases v,
{
    match v {
        OValue::Null => Val::Null,
        OValue::String(s) => Val::Str(s@),
        OValue::Boolean(b) => Val::Boolean(b),
        OValue::I8(n) => Val::I8(n),
        OValue::U8(n) => Val::U8(n),
        OValue::I16(n) => Val::I16(n),
        OValue::I32(n) => Val::I32(n),
        OValue::I64(n) => Val::I64(n),
        OValue::F32Bits(n) => Val::F32Bits(n),
        OValue::F64Bits(n) => Val::F64Bits(n),
        OValue::DateTimeMillis(n) => Val::DateTimeMillis(n),
        OValue::DateDays(n) => Val::DateDays(n),
        OValue::Link(rid) => Val::Link(rid),
        OValue::LinkList(l) => Val::LinkList(l.links@),
        OValue::LinkSet(l) => Val::LinkSet(l.links@),
        OValue::EmbeddedMap(entries) => Val::EmbeddedMap(entries_model(entries@)),
        OValue::EmbeddedList(elems) => Val::EmbeddedList(list_model(elems@)),
        OValue::EmbeddedSet(elems) => Val::EmbeddedSet(list_model(elems@)),
        OValue::Document(d) => Val::Document(doc_model(d)),
        OValue::RidBag(bag) => Val::RidBag(bag_model(bag)),
    }
}

pub open spec fn doc_model(d: ODocument) -> DocVal
    decreases d,
{
    DocVal {
        record_id: d.record_id,
        class_name: d.class_name@,
        version: d.version,
        fields: entries_model(d.fields@),
    }
}

impl View for OValue {
    type V = Val;

    open spec fn view(&self) -> Val {
        value_model(*self)
    }
}

impl OValue {
    /// One-byte wire type tag of this value.  Only values the serialiser
    /// supports carry a tag; `has_type_id` names them.
    pub fn get_type_id(&self) -> (r: i8)
        requires
            self.has_type_id(),
        ensures
            r == tag_of(self@),
    {
        match self {
            OValue::EmbeddedMap(_) => crate::constants::EMBEDDEDMAP,
            OValue::String(_) => crate::constants::STRING,
            OValue::I8(_) => crate::constants::BYTE,
            OValue::I16(_) => crate::constants::SHORT,
            OValue::I32(_) => crate::constants::INTEGER,
            OValue::I64(_) => crate::constants::LONG,
            OValue::Link(_) => crate::constants::LINK,
            OValue::Boolean(_) => crate::constants::BOOLEAN,
            OValue::Document(_) => crate::constants::EMBEDDED,
            OValue::EmbeddedList(_) => crate::constants::EMBEDDEDLIST,
            OValue::EmbeddedSet(_) => crate::constants::EMBEDDEDSET,
            OValue::LinkList(_) => crate::constants::LINKLIST,
            _ => {
                proof {
                    assert(false);
                }
                0
            },
        }
    }

    /// The variants `get_type_id` accepts: exactly those the serialiser
    /// can write.
    pub open spec fn has_type_id(&self) -> bool {
        match self {
            OValue::EmbeddedMap(_) => true,
            OValue::String(_) => true,
            OValue::I8(_) => true,
            OValue::I16(_) => true,
            OValue::I32(_) => true,
            OValue::I64(_) => true,
            OValue::Link(_) => true,
            OValue::Boolean(_) => true,
            OValue::Document(_) => true,
            OValue::EmbeddedList(_) => true,
            OValue::EmbeddedSet(_) => true,
            OValue::LinkList(_) => true,
            _ => false,
        }
    }
}

impl Clone for LinkList {
    fn clone(&self) -> (r: Self)
        ensures
            r.links@ == self.links@,
    {
        let mut links: Vec<ORecordID> = Vec::new();
        let mut i: usize = 0;
        while i < self.links.len()
            invariant
                i <= self.links@.len(),
                links@ == self.links@.take(i as int),
            decreases self.links@.len() - i,
        {
            links.push(self.links[i]);
            i = i + 1;
            proof {
                assert(links@ =~= self.links@.take(i as int));
            }
        }
        proof {
            assert(self.links@.take(self.links@.len() as int) =~= self.links@);
        }
        LinkList { links }
    }
}

impl Clone for RidBag {
    fn clone(&self) -> (r: Self)
        ensures
            bag_model(r) == bag_model(*self),
    {
        match self {
            RidBag::Embedded(rids) => {
                let mut out: Vec<ORecordID> = Vec::new();
                let mut i: usize = 0;
                while i < rids.len()
                    invariant
                        i <= rids@.len(),
                        out@ == rids@.take(i as int),
                    decreases rids@.len() - i,
                {
                    out.push(rids[i]);
                    i = i + 1;
                    proof {
                        assert(out@ =~= rids@.take(i as int));
                    }
                }
                proof {
                    assert(rids@.take(rids@.len() as int) =~= rids@);
                }
                RidBag::Embedded(out)
            },
            RidBag::Tree(size) => RidBag::Tree(*size),
        }
    }
}

/// Deep copy of a list of values, equal at the model level.
pub(crate) fn clone_values(elems: &Vec<OValue>) -> (r: Vec<OValue>)
    ensures
        list_model(r@) == list_model(elems@),
    decreases elems,
{
    let mut out: Vec<OValue> = Vec::new();
    let mut i: usize = 0;
    while i < elems.len()
        invariant
            i <= elems@.len(),
            out@.len() == i,
            forall|j: int| 0 <= j < i ==> #[trigger] value_model(out@[j]) == value_model(
                elems@[j],
            ),
        decreases elems@.len() - i,
    {
        out.push(elems[i].clone());
        i = i + 1;
    }
    proof {
        lemma_list_model(out@);
        lemma_list_model(elems@);
        assert(list_model(out@) =~= list_model(elems@));
    }
    out
}

/// Deep copy of a (name, value) entry list, equal at the model level.
pub(crate) fn clone_entries(entries: &Vec<(String, OValue)>) -> (r: Vec<(String, OValue)>)
    ensures
        entries_model(r@) == entries_model(entries@),
    decreases entries,
{
    let mut out: Vec<(String, OValue)> = Vec::new();
    let mut i: usize = 0;
    while i < entries.len()
        invariant
            i <= entries@.len(),
            out@.len() == i,
            forall|j: int| 0 <= j < i ==> #[trigger] out@[j].0@ == entries@[j].0@
                && value_model(out@[j].1) == value_model(entries@[j].1),
        decreases entries@.len() - i,
    {
        let name = entries[i].0.clone();
        let value = entries[i].1.clone();
        out.push((name, value));
        i = i + 1;
    }
    proof {
        lemma_entries_model(out@);
        lemma_entries_model(entries@);
        assert(entries_model(out@) =~= entries_model(entries@));
    }
    out
}

impl Clone for OValue {
    /// Deep copy with the same model.
    fn clone(&self) -> (r: Self)
        ensures
            r@ == self@,
        decreases self,
    {
        match self {
            OValue::Null => OValue::Null,
            OValue::String(s) => OValue::String(s.clone()),
            OValue::Boolean(b) => OValue::Boolean(*b),
            OValue::I8(n) => OValue::I8(*n),
            OValue::U8(n) => OValue::U8(*n),
            OValue::I16(n) => OValue::I16(*n),
            OValue::I32(n) => OValue::I32(*n),
            OValue::I64(n) => OValue::I64(*n),
            OValue::F32Bits(n) => OValue::F32Bits(*n),
            OValue::F64Bits(n) => OValue::F64Bits(*n),
            OValue::DateTimeMillis(n) => OValue::DateTimeMillis(*n),
            OValue::DateDays(n) => OValue::DateDays(*n),
            OValue::Link(rid) => OValue::Link(*rid),
            OValue::LinkList(l) => OValue::LinkList(l.clone()),
            OValue::LinkSet(l) => OValue::LinkSet(l.clone()),
            OValue::EmbeddedMap(entries) => OValue::EmbeddedMap(clone_entries(entries)),
            OValue::EmbeddedList(elems) => OValue::EmbeddedList(clone_values(elems)),
            OValue::EmbeddedSet(elems) => OValue::EmbeddedSet(clone_values(elems)),
            OValue::Document(d) => OValue::Document(d.clone()),
            OValue::RidBag(bag) => OValue::RidBag(bag.clone()),
        }
    }
}

/// Wire type tag of a model value.
pub open spec fn tag_of(v: Val) -> i8 {
    match v {
        Val::Null => crate::constants::NULL,
        Val::Str(_) => crate::constants::STRING,
        Val::Boolean(_) => crate::constants::BOOLEAN,
        Val::I8(_) => crate::constants::BYTE,
        Val::U8(_) => crate::constants::BYTE,
        Val::I16(_) => crate::constants::SHORT,
        Val::I32(_) => crate::constants::INTEGER,
        Val::I64(_) => crate::constants::LONG,
        Val::F32Bits(_) => crate::constants::FLOAT,
        Val::F64Bits(_) => crate::constants::DOUBLE,
        Val::DateTimeMillis(_) => crate::constants::DATETIME,
        Val::DateDays(_) => crate::constants::DATE,
        Val::Link(_) => crate::constants::LINK,
        Val::LinkList(_) => crate::constants::LINKLIST,
        Val::LinkSet(_) => crate::constants::LINKSET,
        Val::EmbeddedMap(_) => crate::constants::EMBEDDEDMAP,
        Val::EmbeddedList(_) => crate::constants::EMBEDDEDLIST,
        Val::EmbeddedSet(_) => crate::constants::EMBEDDEDSET,
        Val::Document(_) => crate::constants::EMBEDDED,
        Val::RidBag(_) => crate::constants::LINKBAG,
    }
}

} // verus!
