use vstd::prelude::*;
use crate::constants;
use crate::document::ODocument;
use crate::error::{OrientError, OrientResult};
use crate::projection::Projection;
use crate::reader::{read_i8, read_varint, read_varstr};
use crate::rid::ORecordID;
use crate::value::{
    bag_model, lemma_entries_model, lemma_list_model, BagVal, DocVal, OValue, RidBag, Val,
};
use crate::wire::{
    spec_read_bool, spec_read_i64, spec_read_i8, spec_read_u32, spec_read_u64, spec_read_u8,
    spec_read_varstr,
};
use crate::varint::spec_parse_varint;

verus! {

broadcast use {lemma_entries_model, lemma_list_model, vstd::std_specs::vec::group_vec_axioms};

// Specification of the document deserialiser: what any byte sequence parses
// to, if anything.  Embedded values inside a projection differ from those
// inside a document in one point only: the EMBEDDED tag introduces a nested
// projection there, a nested document here.

pub open spec fn spec_parse_value(bytes: Seq<u8>, proj: bool, pos: int) -> Option<(Val, int)>
    decreases bytes.len() - pos, 0int, 0int,
{
    match spec_read_i8(bytes, pos) {
        None => None,
        Some((tag, p)) => {
            if tag == constants::NULL {
                Some((Val::Null, p))
            } else if tag == constants::BOOLEAN {
                match spec_read_bool(bytes, p) {
                    Some((b, e)) => Some((Val::Boolean(b), e)),
                    None => None,
                }
            } else if tag == constants::BYTE {
                match spec_read_i8(bytes, p) {
                    Some((v, e)) => Some((Val::I8(v), e)),
                    None => None,
                }
            } else if tag == constants::SHORT {
                match spec_parse_varint(bytes, p) {
                    Some((v, e)) => Some((Val::I16(v as i16), e)),
                    None => None,
                }
            } else if tag == constants::INTEGER {
                match spec_parse_varint(bytes, p) {
                    Some((v, e)) => Some((Val::I32(v as i32), e)),
                    None => None,
                }
            } else if tag == constants::LONG {
                match spec_parse_varint(bytes, p) {
                    Some((v, e)) => Some((Val::I64(v), e)),
                    None => None,
                }
            } else if tag == constants::FLOAT {
                match spec_read_u32(bytes, p) {
                    Some((v, e)) => Some((Val::F32Bits(v), e)),
                    None => None,
                }
            } else if tag == constants::DOUBLE {
                match spec_read_u64(bytes, p) {
                    Some((v, e)) => Some((Val::F64Bits(v), e)),
                    None => None,
                }
            } else if tag == constants::DATETIME {
                match spec_parse_varint(bytes, p) {
                    Some((v, e)) => Some((Val::DateTimeMillis(v), e)),
                    None => None,
                }
            } else if tag == constants::DATE {
                match spec_parse_varint(bytes, p) {
                    Some((v, e)) => Some((Val::DateDays(v), e)),
                    None => None,
                }
            } else if tag == constants::STRING {
                match spec_read_varstr(bytes, p) {
                    Some((s, e)) => Some((Val::Str(s), e)),
                    None => None,
                }
            } else if tag == constants::LINK {
                match spec_parse_varint(bytes, p) {
                    Some((c, e1)) => match spec_parse_varint(bytes, e1) {
                        Some((o, e2)) => Some(
                            (Val::Link(ORecordID { cluster: c as i16, position: o }), e2),
                        ),
                        None => None,
                    },
                    None => None,
                }
            } else if tag == constants::LINKLIST || tag == constants::LINKSET {
                match spec_parse_varint(bytes, p) {
                    Some((n, e)) => if e < p || e > bytes.len() {
                        None
                    } else {
                        match spec_parse_rids(bytes, n as int, e) {
                            Some((rids, e2)) => if tag == constants::LINKLIST {
                                Some((Val::LinkList(rids), e2))
                            } else {
                                Some((Val::LinkSet(rids), e2))
                            },
                            None => None,
                        }
                    },
                    None => None,
                }
            } else if tag == constants::EMBEDDEDLIST || tag == constants::EMBEDDEDSET {
                match spec_parse_varint(bytes, p) {
                    Some((n, e)) => if e < p || e > bytes.len() {
                        None
                    } else {
                        match spec_parse_elements(bytes, proj, n as int, e) {
                            Some((es, e2)) => if tag == constants::EMBEDDEDLIST {
                                Some((Val::EmbeddedList(es), e2))
                            } else {
                                Some((Val::EmbeddedSet(es), e2))
                            },
                            None => None,
                        }
                    },
                    None => None,
                }
            } else if tag == constants::EMBEDDEDMAP {
                match spec_parse_varint(bytes, p) {
                    Some((n, e)) => if e < p || e > bytes.len() {
                        None
                    } else {
                        match spec_parse_entries(bytes, proj, n as int, e) {
                            Some((fs, e2)) => Some((Val::EmbeddedMap(fs), e2)),
                            None => None,
                        }
                    },
                    None => None,
                }
            } else if tag == constants::EMBEDDED {
                if proj {
                    match spec_parse_projection(bytes, p) {
                        Some((fs, e)) => Some((Val::EmbeddedMap(fs), e)),
                        None => None,
                    }
                } else {
                    match spec_parse_document(bytes, p) {
                        Some((d, e)) => Some((Val::Document(d), e)),
                        None => None,
                    }
                }
            } else if tag == constants::LINKBAG {
                match spec_parse_bag(bytes, p) {
                    Some((bag, e)) => Some((Val::RidBag(bag), e)),
                    None => None,
                }
            } else {
                None
            }
        },
    }
}

/// `count` tagged values in sequence; a non-positive count reads as none.
pub open spec fn spec_parse_elements(bytes: Seq<u8>, proj: bool, count: int, pos: int) -> Option<
    (Seq<Val>, int),
>
    decreases bytes.len() - pos, 1int, count,
{
    if pos < 0 {
        None
    } else if count <= 0 {
        Some((Seq::empty(), pos))
    } else {
        match spec_parse_value(bytes, proj, pos) {
            Some((v, e)) => if e < pos || e > bytes.len() {
                None
            } else {
                match spec_parse_elements(bytes, proj, count - 1, e) {
                    Some((rest, e2)) => Some((seq![v] + rest, e2)),
                    None => None,
                }
            },
            None => None,
        }
    }
}

/// `count` (name, tagged value) entries in sequence.
pub open spec fn spec_parse_entries(bytes: Seq<u8>, proj: bool, count: int, pos: int) -> Option<
    (Seq<(Seq<char>, Val)>, int),
>
    decreases bytes.len() - pos, 1int, count,
{
    if pos < 0 {
        None
    } else if count <= 0 {
        Some((Seq::empty(), pos))
    } else {
        match spec_read_varstr(bytes, pos) {
            Some((name, ne)) => if ne < pos || ne > bytes.len() {
                None
            } else {
                match spec_parse_value(bytes, proj, ne) {
                    Some((v, e)) => if e < ne || e > bytes.len() {
                        None
                    } else {
                        match spec_parse_entries(bytes, proj, count - 1, e) {
                            Some((rest, e2)) => Some((seq![(name, v)] + rest, e2)),
                            None => None,
                        }
                    },
                    None => None,
                }
            },
            None => None,
        }
    }
}

/// `count` compact record identities, each two varints.
pub open spec fn spec_parse_rids(bytes: Seq<u8>, count: int, pos: int) -> Option<
    (Seq<ORecordID>, int),
>
    decreases bytes.len() - pos, 1int, count,
{
    if pos < 0 {
        None
    } else if count <= 0 {
        Some((Seq::empty(), pos))
    } else {
        match spec_parse_varint(bytes, pos) {
            Some((c, e1)) => match spec_parse_varint(bytes, e1) {
                Some((o, e2)) => if e2 < pos || e2 > bytes.len() {
                    None
                } else {
                    match spec_parse_rids(bytes, count - 1, e2) {
                        Some((rest, e3)) => Some(
                            (seq![ORecordID { cluster: c as i16, position: o }] + rest, e3),
                        ),
                        None => None,
                    }
                },
                None => None,
            },
            None => None,
        }
    }
}

/// A document body: class name, field count, the fields.  Identity and
/// version are not part of the body; they read as empty and zero.
pub open spec fn spec_parse_document(bytes: Seq<u8>, pos: int) -> Option<(DocVal, int)>
    decreases bytes.len() - pos, 2int, 0int,
{
    match spec_read_varstr(bytes, pos) {
        Some((class_name, ce)) => if ce <= pos || ce > bytes.len() {
            None
        } else {
            match spec_parse_varint(bytes, ce) {
                Some((n, fe)) => if fe <= pos || fe > bytes.len() {
                    None
                } else {
                    match spec_parse_entries(bytes, false, n as int, fe) {
                        Some((fields, e)) => Some(
                            (
                                DocVal {
                                    record_id: ORecordID { cluster: -1i16, position: -1i64 },
                                    class_name,
                                    version: 0,
                                    fields,
                                },
                                e,
                            ),
                        ),
                        None => None,
                    }
                },
                None => None,
            }
        },
        None => None,
    }
}

/// A projection body: field count and fields, then a metadata section that
/// is read and discarded.
pub open spec fn spec_parse_projection(bytes: Seq<u8>, pos: int) -> Option<
    (Seq<(Seq<char>, Val)>, int),
>
    decreases bytes.len() - pos, 2int, 0int,
{
    match spec_parse_varint(bytes, pos) {
        Some((n, fe)) => if fe <= pos || fe > bytes.len() {
            None
        } else {
            match spec_parse_entries(bytes, true, n as int, fe) {
                Some((fields, e)) => if e < fe {
                    None
                } else {
                    match spec_parse_varint(bytes, e) {
                        Some((m, me)) => if me <= e || me > bytes.len() {
                            None
                        } else {
                            match spec_parse_entries(bytes, true, m as int, me) {
                                Some((_meta, e2)) => Some((fields, e2)),
                                None => None,
                            }
                        },
                        None => None,
                    }
                },
                None => None,
            }
        },
        None => None,
    }
}

/// A bag of record ids: two i64 identifiers, a kind byte, then either an
/// inlined id list or a tree descriptor of which only the size is kept.
pub open spec fn spec_parse_bag(bytes: Seq<u8>, pos: int) -> Option<(BagVal, int)>
    decreases bytes.len() - pos, 1int, 0int,
{
    match spec_read_i64(bytes, pos) {
        Some((_u1, p1)) => match spec_read_i64(bytes, p1) {
            Some((_u2, p2)) => match spec_read_u8(bytes, p2) {
                Some((kind, p3)) => if p3 <= pos {
                    None
                } else if kind == 1 {
                    match spec_parse_varint(bytes, p3) {
                        Some((n, e)) => if e < p3 || e > bytes.len() {
                            None
                        } else {
                            match spec_parse_rids(bytes, n as int, e) {
                                Some((rids, e2)) => Some((BagVal::Embedded(rids), e2)),
                                None => None,
                            }
                        },
                        None => None,
                    }
                } else if kind == 2 {
                    match spec_parse_varint(bytes, p3) {
                        Some((_file_id, e1)) => match spec_parse_varint(bytes, e1) {
                            Some((_page_index, e2)) => match spec_parse_varint(bytes, e2) {
                                Some((_page_offset, e3)) => match spec_parse_varint(bytes, e3) {
                                    Some((bag_size, e4)) => match spec_parse_varint(bytes, e4) {
                                        Some((_changes, e5)) => Some(
                                            (BagVal::Tree(bag_size as i32), e5),
                                        ),
                                        None => None,
                                    },
                                    None => None,
                                },
                                None => None,
                            },
                            None => None,
                        },
                        None => None,
                    }
                } else {
                    None
                },
                None => None,
            },
            None => None,
        },
        None => None,
    }
}

/// Parse one tagged value.
pub fn parse_value_at(bytes: &[u8], proj: bool, pos: usize) -> (r: OrientResult<(OValue, usize)>)
    ensures
        match r {
            Ok((v, end)) => spec_parse_value(bytes@, proj, pos as int) == Some(
                (v@, end as int),
            ) && pos < end <= bytes@.len(),
            Err(_) => spec_parse_value(bytes@, proj, pos as int) is None,
        },
    decreases bytes@.len() - pos, 0int, 0int,
{
    let (tag, p) = read_i8(bytes, pos)?;
    if tag == constants::NULL {
        Ok((OValue::Null, p))
    } else if tag == constants::BOOLEAN {
        let (b, e) = crate::reader::read_bool(bytes, p)?;
        Ok((OValue::Boolean(b), e))
    } else if tag == constants::BYTE {
        let (v, e) = read_i8(bytes, p)?;
        Ok((OValue::I8(v), e))
    } else if tag == constants::SHORT {
        let (v, e) = read_varint(bytes, p)?;
        Ok((OValue::I16(v as i16), e))
    } else if tag == constants::INTEGER {
        let (v, e) = read_varint(bytes, p)?;
        Ok((OValue::I32(v as i32), e))
    } else if tag == constants::LONG {
        let (v, e) = read_varint(bytes, p)?;
        Ok((OValue::I64(v), e))
    } else if tag == constants::FLOAT {
        let (v, e) = crate::reader::read_u32(bytes, p)?;
        Ok((OValue::F32Bits(v), e))
    } else if tag == constants::DOUBLE {
        let (v, e) = crate::reader::read_u64(bytes, p)?;
        Ok((OValue::F64Bits(v), e))
    } else if tag == constants::DATETIME {
        let (v, e) = read_varint(bytes, p)?;
        Ok((OValue::DateTimeMillis(v), e))
    } else if tag == constants::DATE {
        let (v, e) = read_varint(bytes, p)?;
        Ok((OValue::DateDays(v), e))
    } else if tag == constants::STRING {
        let (v, e) = read_varstr(bytes, p)?;
        Ok((OValue::String(v), e))
    } else if tag == constants::LINK {
        let (c, e1) = read_varint(bytes, p)?;
        let (o, e2) = read_varint(bytes, e1)?;
        Ok((OValue::Link(ORecordID::new(c as i16, o)), e2))
    } else if tag == constants::LINKLIST || tag == constants::LINKSET {
        let (n, e) = read_varint(bytes, p)?;
        let (rids, e2) = parse_rids_at(bytes, n, e)?;
        if tag == constants::LINKLIST {
            Ok((OValue::LinkList(crate::value::LinkList::new(rids)), e2))
        } else {
            Ok((OValue::LinkSet(crate::value::LinkList::new(rids)), e2))
        }
    } else if tag == constants::EMBEDDEDLIST || tag == constants::EMBEDDEDSET {
        let (n, e) = read_varint(bytes, p)?;
        let (es, e2) = parse_elements_at(bytes, proj, n, e)?;
        if tag == constants::EMBEDDEDLIST {
            Ok((OValue::EmbeddedList(es), e2))
        } else {
            Ok((OValue::EmbeddedSet(es), e2))
        }
    } else if tag == constants::EMBEDDEDMAP {
        let (n, e) = read_varint(bytes, p)?;
        let (fs, e2) = parse_entries_at(bytes, proj, n, e)?;
        Ok((OValue::EmbeddedMap(fs), e2))
    } else if tag == constants::EMBEDDED {
        if proj {
            let (pr, e) = parse_projection_at(bytes, p)?;
            Ok((OValue::EmbeddedMap(pr.take_map()), e))
        } else {
            let (d, e) = parse_document_at(bytes, p)?;
            Ok((OValue::Document(d), e))
        }
    } else if tag == constants::LINKBAG {
        let (bag, e) = parse_bag_at(bytes, p)?;
        Ok((OValue::RidBag(bag), e))
    } else {
        Err(OrientError::Decoder("unsupported field type tag".to_owned()))
    }
}

/// Parse `count` tagged values.
pub fn parse_elements_at(bytes: &[u8], proj: bool, count: i64, pos: usize) -> (r: OrientResult<
    (Vec<OValue>, usize),
>)
    requires
        pos <= bytes@.len(),
    ensures
        match r {
            Ok((vs, end)) => spec_parse_elements(bytes@, proj, count as int, pos as int) == Some(
                (crate::value::list_model(vs@), end as int),
            ) && pos <= end <= bytes@.len(),
            Err(_) => spec_parse_elements(bytes@, proj, count as int, pos as int) is None,
        },
    decreases bytes@.len() - pos, 1int, 0int,
{
    let mut out: Vec<OValue> = Vec::new();
    let mut p: usize = pos;
    let mut k: i64 = count;
    loop
        invariant
            pos <= p <= bytes@.len(),
            k <= count,
            spec_parse_elements(bytes@, proj, count as int, pos as int) == (match
                spec_parse_elements(bytes@, proj, k as int, p as int) {
                Some((rest, e)) => Some((crate::value::list_model(out@) + rest, e)),
                None => None,
            }),
        decreases (if k > 0 { k as int } else { 0int }),
    {
        if k <= 0 {
            proof {
                assert(crate::value::list_model(out@) + Seq::<Val>::empty() =~= crate::value::list_model(out@));
            }
            return Ok((out, p));
        }
        let res = parse_value_at(bytes, proj, p);
        match res {
            Ok((v, e)) => {
                let ghost old_out = out@;
                out.push(v);
                proof {
                    assert(out@.drop_last() =~= old_out);
                    assert(crate::value::list_model(out@) =~= crate::value::list_model(old_out)
                        + seq![v@]);
                    assert(spec_parse_elements(bytes@, proj, k as int, p as int) == (match
                        spec_parse_elements(bytes@, proj, k as int - 1, e as int) {
                        Some((rest, e2)) => Some((seq![v@] + rest, e2)),
                        None => None,
                    }));
                    assert forall|rest: Seq<Val>|
                        crate::value::list_model(old_out) + (seq![v@] + rest) =~= crate::value::list_model(
                        out@) + rest by {}
                }
                p = e;
                k = k - 1;
            },
            Err(err) => {
                return Err(err);
            },
        }
    }
}

/// Parse `count` (name, value) entries.
pub fn parse_entries_at(bytes: &[u8], proj: bool, count: i64, pos: usize) -> (r: OrientResult<
    (Vec<(String, OValue)>, usize),
>)
    requires
        pos <= bytes@.len(),
    ensures
        match r {
            Ok((fs, end)) => spec_parse_entries(bytes@, proj, count as int, pos as int) == Some(
                (crate::value::entries_model(fs@), end as int),
            ) && pos <= end <= bytes@.len(),
            Err(_) => spec_parse_entries(bytes@, proj, count as int, pos as int) is None,
        },
    decreases bytes@.len() - pos, 1int, 0int,
{
    let mut out: Vec<(String, OValue)> = Vec::new();
    let mut p: usize = pos;
    let mut k: i64 = count;
    loop
        invariant
            pos <= p <= bytes@.len(),
            k <= count,
            spec_parse_entries(bytes@, proj, count as int, pos as int) == (match
                spec_parse_entries(bytes@, proj, k as int, p as int) {
                Some((rest, e)) => Some((crate::value::entries_model(out@) + rest, e)),
                None => None,
            }),
        decreases (if k > 0 { k as int } else { 0int }),
    {
        if k <= 0 {
            proof {
                assert(crate::value::entries_model(out@) + Seq::<(Seq<char>, Val)>::empty()
                    =~= crate::value::entries_model(out@));
            }
            return Ok((out, p));
        }
        let (name, ne) = read_varstr(bytes, p)?;
        let res = parse_value_at(bytes, proj, ne);
        match res {
            Ok((v, e)) => {
                let ghost old_out = out@;
                let ghost gname = name@;
                let ghost gv = v@;
                out.push((name, v));
                proof {
                    assert(out@.drop_last() =~= old_out);
                    assert(crate::value::entries_model(out@) =~= crate::value::entries_model(
                        old_out) + seq![(gname, gv)]);
                    assert forall|rest: Seq<(Seq<char>, Val)>|
                        crate::value::entries_model(old_out) + (seq![(gname, gv)] + rest)
                            =~= crate::value::entries_model(out@) + rest by {}
                }
                p = e;
                k = k - 1;
            },
            Err(err) => {
                return Err(err);
            },
        }
    }
}

/// Parse `count` compact record identities.
pub fn parse_rids_at(bytes: &[u8], count: i64, pos: usize) -> (r: OrientResult<
    (Vec<ORecordID>, usize),
>)
    requires
        pos <= bytes@.len(),
    ensures
        match r {
            Ok((rids, end)) => spec_parse_rids(bytes@, count as int, pos as int) == Some(
                (rids@, end as int),
            ) && pos <= end <= bytes@.len(),
            Err(_) => spec_parse_rids(bytes@, count as int, pos as int) is None,
        },
{
    let mut out: Vec<ORecordID> = Vec::new();
    let mut p: usize = pos;
    let mut k: i64 = count;
    loop
        invariant
            pos <= p <= bytes@.len(),
            k <= count,
            spec_parse_rids(bytes@, count as int, pos as int) == (match spec_parse_rids(
                bytes@,
                k as int,
                p as int,
            ) {
                Some((rest, e)) => Some((out@ + rest, e)),
                None => None,
            }),
        decreases (if k > 0 { k as int } else { 0int }),
    {
        if k <= 0 {
            proof {
                assert(out@ + Seq::<ORecordID>::empty() =~= out@);
            }
            return Ok((out, p));
        }
        let (c, e1) = read_varint(bytes, p)?;
        let (o, e2) = read_varint(bytes, e1)?;
        let ghost old_out = out@;
        out.push(ORecordID::new(c as i16, o));
        proof {
            assert forall|rest: Seq<ORecordID>|
                old_out + (seq![ORecordID { cluster: c as i16, position: o }] + rest) =~= out@
                    + rest by {}
        }
        p = e2;
        k = k - 1;
    }
}

/// Parse a document body at `pos`.
pub fn parse_document_at(bytes: &[u8], pos: usize) -> (r: OrientResult<(ODocument, usize)>)
    ensures
        match r {
            Ok((d, end)) => spec_parse_document(bytes@, pos as int) == Some((d@, end as int))
                && pos < end <= bytes@.len(),
            Err(_) => spec_parse_document(bytes@, pos as int) is None,
        },
    decreases bytes@.len() - pos, 2int, 0int,
{
    let (class_name, ce) = read_varstr(bytes, pos)?;
    let (n, fe) = read_varint(bytes, ce)?;
    let (fields, e) = parse_entries_at(bytes, false, n, fe)?;
    let mut doc = ODocument::new_with_rid_version(class_name.as_str(), ORecordID::empty(), 0);
    doc.fields = fields;
    proof {
        assert(doc@ == spec_parse_document(bytes@, pos as int)->Some_0.0);
    }
    Ok((doc, e))
}

/// Parse a projection body at `pos`, discarding its metadata section.
pub fn parse_projection_at(bytes: &[u8], pos: usize) -> (r: OrientResult<(Projection, usize)>)
    ensures
        match r {
            Ok((pr, end)) => spec_parse_projection(bytes@, pos as int) == Some(
                (pr@, end as int),
            ) && pos < end <= bytes@.len(),
            Err(_) => spec_parse_projection(bytes@, pos as int) is None,
        },
    decreases bytes@.len() - pos, 2int, 0int,
{
    let (n, fe) = read_varint(bytes, pos)?;
    let (fields, e) = parse_entries_at(bytes, true, n, fe)?;
    let (m, me) = read_varint(bytes, e)?;
    let (_meta, e2) = parse_entries_at(bytes, true, m, me)?;
    Ok((Projection { fields }, e2))
}

/// Parse a bag of record ids at `pos`.
pub fn parse_bag_at(bytes: &[u8], pos: usize) -> (r: OrientResult<(RidBag, usize)>)
    ensures
        match r {
            Ok((bag, end)) => spec_parse_bag(bytes@, pos as int) == Some(
                (bag_model(bag), end as int),
            ) && pos < end <= bytes@.len(),
            Err(_) => spec_parse_bag(bytes@, pos as int) is None,
        },
{
    let (_u1, p1) = crate::reader::read_i64(bytes, pos)?;
    let (_u2, p2) = crate::reader::read_i64(bytes, p1)?;
    let (kind, p3) = crate::reader::read_u8(bytes, p2)?;
    if kind == 1 {
        let (n, e) = read_varint(bytes, p3)?;
        let (rids, e2) = parse_rids_at(bytes, n, e)?;
        Ok((RidBag::Embedded(rids), e2))
    } else if kind == 2 {
        let (_file_id, e1) = read_varint(bytes, p3)?;
        let (_page_index, e2) = read_varint(bytes, e1)?;
        let (_page_offset, e3) = read_varint(bytes, e2)?;
        let (bag_size, e4) = read_varint(bytes, e3)?;
        let (_changes, e5) = read_varint(bytes, e4)?;
        Ok((RidBag::Tree(bag_size as i32), e5))
    } else {
        Err(OrientError::Decoder("unsupported bag kind".to_owned()))
    }
}

/// Decode a whole buffer as one document; trailing bytes are refused.
pub fn decode_document(bytes: &[u8]) -> (r: OrientResult<ODocument>)
    ensures
        match r {
            Ok(d) => spec_parse_document(bytes@, 0) == Some((d@, bytes@.len() as int)),
            Err(_) => !(spec_parse_document(bytes@, 0) matches Some((_, end)) && end
                == bytes@.len()),
        },
{
    let (d, end) = parse_document_at(bytes, 0)?;
    if end == bytes.len() {
        Ok(d)
    } else {
        Err(OrientError::Decoder("trailing bytes after document".to_owned()))
    }
}

/// Decode a whole buffer as one projection; trailing bytes are refused.
pub fn decode_projection(bytes: &[u8]) -> (r: OrientResult<Projection>)
    ensures
        match r {
            Ok(pr) => spec_parse_projection(bytes@, 0) == Some((pr@, bytes@.len() as int)),
            Err(_) => !(spec_parse_projection(bytes@, 0) matches Some((_, end)) && end
                == bytes@.len()),
        },
{
    let (pr, end) = parse_projection_at(bytes, 0)?;
    if end == bytes.len() {
        Ok(pr)
    } else {
        Err(OrientError::Decoder("trailing bytes after projection".to_owned()))
    }
}

} // verus!
