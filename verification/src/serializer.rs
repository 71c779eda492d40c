use vstd::prelude::*;
use vstd::utf8::encode_utf8;
use crate::buffer::OBuffer;
use crate::document::ODocument;
use crate::error::OrientResult;
use crate::rid::ORecordID;
use crate::value::{
    lemma_entries_model, lemma_list_model, tag_of, DocVal, OValue, Val,
};
use crate::varint::spec_write_varint;
use crate::wire::{enc_bool, enc_varstr};

verus! {

broadcast use {lemma_entries_model, lemma_list_model, vstd::std_specs::vec::group_vec_axioms};

/// Text whose UTF-8 byte length fits the wire's framing.
pub open spec fn str_fits(s: Seq<char>) -> bool {
    encode_utf8(s).len() <= 0x7fff_ffff
}

// The serialiser writes text, booleans, the three varint integer widths,
// links, embedded lists, embedded maps, link lists and embedded documents,
// and refuses the rest.  Collection and text lengths must fit an i32.

pub open spec fn val_serializable(v: Val) -> bool
    decreases v,
{
    match v {
        Val::Str(s) => str_fits(s),
        Val::Boolean(_) => true,
        Val::I16(_) => true,
        Val::I32(_) => true,
        Val::I64(_) => true,
        Val::Link(_) => true,
        Val::EmbeddedList(es) => es.len() <= 0x7fff_ffff && vals_serializable(es),
        Val::EmbeddedMap(fs) => fs.len() <= 0x7fff_ffff && fields_serializable(fs),
        Val::LinkList(links) => links.len() <= 0x7fff_ffff,
        Val::Document(d) => doc_serializable(d),
        _ => false,
    }
}

pub open spec fn vals_serializable(es: Seq<Val>) -> bool
    decreases es,
{
    es.len() == 0 || (vals_serializable(es.drop_last()) && val_serializable(es.last()))
}

pub open spec fn fields_serializable(fs: Seq<(Seq<char>, Val)>) -> bool
    decreases fs,
{
    fs.len() == 0 || (fields_serializable(fs.drop_last()) && str_fits(fs.last().0)
        && val_serializable(fs.last().1))
}

pub open spec fn doc_serializable(d: DocVal) -> bool
    decreases d,
{
    str_fits(d.class_name) && d.fields.len() <= 0x7fff_ffff && fields_serializable(d.fields)
}

/// A projection's round trip additionally requires that no embedded document
/// occurs among the values: inside a projection the wire cannot tell an
/// embedded document from an embedded projection.
pub open spec fn val_no_documents(v: Val) -> bool
    decreases v,
{
    match v {
        Val::Document(_) => false,
        Val::EmbeddedList(es) => vals_no_documents(es),
        Val::EmbeddedSet(es) => vals_no_documents(es),
        Val::EmbeddedMap(fs) => fields_no_documents(fs),
        _ => true,
    }
}

pub open spec fn vals_no_documents(es: Seq<Val>) -> bool
    decreases es,
{
    es.len() == 0 || (vals_no_documents(es.drop_last()) && val_no_documents(es.last()))
}

pub open spec fn fields_no_documents(fs: Seq<(Seq<char>, Val)>) -> bool
    decreases fs,
{
    fs.len() == 0 || (fields_no_documents(fs.drop_last()) && val_no_documents(fs.last().1))
}

pub proof fn lemma_vals_serializable_index(es: Seq<Val>, i: int)
    requires
        vals_serializable(es),
        0 <= i < es.len(),
    ensures
        val_serializable(es[i]),
    decreases es,
{
    if i < es.len() - 1 {
        lemma_vals_serializable_index(es.drop_last(), i);
    }
}

pub proof fn lemma_fields_serializable_index(fs: Seq<(Seq<char>, Val)>, i: int)
    requires
        fields_serializable(fs),
        0 <= i < fs.len(),
    ensures
        str_fits(fs[i].0),
        val_serializable(fs[i].1),
    decreases fs,
{
    if i < fs.len() - 1 {
        lemma_fields_serializable_index(fs.drop_last(), i);
    }
}

// The byte image of a value, of a field list, and of a whole document,
// exactly as `encode_document` lays them down.

pub open spec fn enc_value(v: Val) -> Seq<u8>
    decreases v,
{
    match v {
        Val::Str(s) => enc_varstr(s),
        Val::Boolean(b) => enc_bool(b),
        Val::I16(n) => spec_write_varint(n as i64),
        Val::I32(n) => spec_write_varint(n as i64),
        Val::I64(n) => spec_write_varint(n),
        Val::Link(rid) => spec_write_varint(rid.cluster as i64) + spec_write_varint(rid.position),
        Val::EmbeddedList(es) => spec_write_varint(es.len() as i64) + enc_elements(es),
        Val::EmbeddedMap(fs) => spec_write_varint(fs.len() as i64) + enc_fields(fs),
        Val::LinkList(links) => spec_write_varint(links.len() as i64) + enc_links(links),
        Val::Document(d) => enc_doc(d),
        _ => Seq::empty(),
    }
}

/// Elements of an embedded list: a tag byte then the body, each.
pub open spec fn enc_elements(es: Seq<Val>) -> Seq<u8>
    decreases es,
{
    if es.len() == 0 {
        Seq::empty()
    } else {
        enc_elements(es.drop_last()) + seq![tag_of(es.last()) as u8] + enc_value(es.last())
    }
}

/// Entries of a field list or embedded map: name, tag byte, body, each.
pub open spec fn enc_fields(fs: Seq<(Seq<char>, Val)>) -> Seq<u8>
    decreases fs,
{
    if fs.len() == 0 {
        Seq::empty()
    } else {
        enc_fields(fs.drop_last()) + enc_varstr(fs.last().0) + seq![tag_of(fs.last().1) as u8]
            + enc_value(fs.last().1)
    }
}

/// Links of a link list: two varints each.
pub open spec fn enc_links(links: Seq<ORecordID>) -> Seq<u8>
    decreases links,
{
    if links.len() == 0 {
        Seq::empty()
    } else {
        enc_links(links.drop_last()) + spec_write_varint(links.last().cluster as i64)
            + spec_write_varint(links.last().position)
    }
}

/// A document body: class name, field count, then the fields.
pub open spec fn enc_doc(d: DocVal) -> Seq<u8>
    decreases d,
{
    enc_varstr(d.class_name) + spec_write_varint(d.fields.len() as i64) + enc_fields(d.fields)
}

/// A projection body: field count, the fields, then an empty metadata
/// section.
pub open spec fn enc_projection(fs: Seq<(Seq<char>, Val)>) -> Seq<u8> {
    spec_write_varint(fs.len() as i64) + enc_fields(fs) + spec_write_varint(0)
}

/// Serialise a document to its wire image.
pub fn encode_document(doc: &ODocument) -> (r: OrientResult<OBuffer>)
    requires
        doc_serializable(doc@),
    ensures
        r is Ok,
        r matches Ok(buf) ==> buf@ == enc_doc(doc@),
{
    let mut doc_buf = OBuffer::new();
    encode_document_into(doc, &mut doc_buf)?;
    Ok(doc_buf)
}

/// Serialise a projection to its wire image, with an empty metadata section.
pub fn encode_projection(p: &crate::projection::Projection) -> (r: OrientResult<OBuffer>)
    requires
        fields_serializable(p@),
        p@.len() <= 0x7fff_ffff,
    ensures
        r is Ok,
        r matches Ok(buf) ==> buf@ == enc_projection(p@),
{
    let mut buf = OBuffer::new();
    buf.write_varint(p.fields.len() as i64)?;
    write_entry_list(&mut buf, &p.fields)?;
    buf.write_varint(0)?;
    proof {
        assert(buf@ =~= enc_projection(p@));
    }
    Ok(buf)
}

fn encode_document_into(doc: &ODocument, buf: &mut OBuffer) -> (r: OrientResult<()>)
    requires
        doc_serializable(doc@),
    ensures
        r is Ok,
        final(buf)@ == old(buf)@ + enc_doc(doc@),
    decreases doc, 3int,
{
    buf.write_string(self_class(doc))?;
    buf.write_varint(doc.fields.len() as i64)?;
    write_entry_list(buf, &doc.fields)?;
    proof {
        assert(buf@ =~= old(buf)@ + enc_doc(doc@));
    }
    Ok(())
}

fn self_class(doc: &ODocument) -> (r: &str)
    ensures
        r@ == doc@.class_name,
{
    doc.class_name.as_str()
}

/// Write each (name, value) entry of `fields` in order.
fn write_entry_list(buf: &mut OBuffer, fields: &Vec<(String, OValue)>) -> (r: OrientResult<()>)
    requires
        fields_serializable(crate::value::entries_model(fields@)),
    ensures
        r is Ok,
        final(buf)@ == old(buf)@ + enc_fields(crate::value::entries_model(fields@)),
    decreases fields, 2int,
{
    let ghost fs = crate::value::entries_model(fields@);
    let ghost orig = buf@;
    let mut i: usize = 0;
    proof {
        assert(buf@ =~= orig + enc_fields(fs.take(0)));
    }
    while i < fields.len()
        invariant
            i <= fields@.len(),
            fs == crate::value::entries_model(fields@),
            fields_serializable(fs),
            fs.len() == fields@.len(),
            buf@ == orig + enc_fields(fs.take(i as int)),
        decreases fields@.len() - i,
    {
        proof {
            lemma_fields_serializable_index(fs, i as int);
            assert(fs[i as int] == (fields@[i as int].0@, value_model_of(
                &fields@[i as int].1,
            )));
        }
        write_field(buf, fields[i].0.as_str(), &fields[i].1)?;
        i = i + 1;
        proof {
            assert(fs.take(i as int).drop_last() =~= fs.take(i - 1));
            assert(fs.take(i as int).last() == fs[i - 1]);
            assert(buf@ =~= orig + enc_fields(fs.take(i as int)));
        }
    }
    proof {
        assert(fs.take(fs.len() as int) =~= fs);
    }
    Ok(())
}

/// The model of a borrowed value.
pub open spec fn value_model_of(v: &OValue) -> Val {
    crate::value::value_model(*v)
}

/// Write one field: its name, the value's tag, then the value body.
fn write_field(buf: &mut OBuffer, name: &str, value: &OValue) -> (r: OrientResult<()>)
    requires
        str_fits(name@),
        val_serializable(value@),
    ensures
        r is Ok,
        final(buf)@ == old(buf)@ + enc_varstr(name@) + seq![tag_of(value@) as u8] + enc_value(
            value@,
        ),
    decreases value, 1int,
{
    buf.write_string(name)?;
    proof {
        assert(value.has_type_id());
    }
    buf.put_i8(value.get_type_id())?;
    write_value(buf, value)?;
    proof {
        assert(buf@ =~= old(buf)@ + enc_varstr(name@) + seq![tag_of(value@) as u8] + enc_value(
            value@,
        ));
    }
    Ok(())
}

/// Write a value body in document framing.  Exactly the variants named by
/// `val_serializable` are accepted.
#[verifier::loop_isolation(false)]
fn write_value(buf: &mut OBuffer, value: &OValue) -> (r: OrientResult<()>)
    requires
        val_serializable(value@),
    ensures
        r is Ok,
        final(buf)@ == old(buf)@ + enc_value(value@),
    decreases value, 0int,
{
    match value {
        OValue::String(s) => {
            buf.write_string(s.as_str())?;
        },
        OValue::Boolean(v) => {
            buf.write_bool(*v)?;
        },
        OValue::I16(v) => {
            buf.write_varint(*v as i64)?;
        },
        OValue::I32(v) => {
            buf.write_varint(*v as i64)?;
        },
        OValue::I64(v) => {
            buf.write_varint(*v)?;
        },
        OValue::Link(v) => {
            buf.write_varint(v.cluster as i64)?;
            buf.write_varint(v.position)?;
            proof {
                assert(buf@ =~= old(buf)@ + enc_value(value@));
            }
        },
        OValue::EmbeddedList(v) => {
            let ghost es = crate::value::list_model(v@);
            buf.write_varint(v.len() as i64)?;
            let ghost orig = buf@;
            let mut idx: usize = 0;
            proof {
                assert(buf@ =~= orig + enc_elements(es.take(0)));
            }
            while idx < v.len()
                invariant
                    idx <= v@.len(),
                    es == crate::value::list_model(v@),
                    vals_serializable(es),
                    es.len() == v@.len(),
                    buf@ == orig + enc_elements(es.take(idx as int)),
                decreases v@.len() - idx,
            {
                proof {
                    lemma_vals_serializable_index(es, idx as int);
                    assert(es[idx as int] == value_model_of(&v@[idx as int]));
                    assert(v@[idx as int].has_type_id());
                }
                let elem = &v[idx];
                proof {
                    assert(decreases_to!(*value => v@[idx as int]));
                }
                buf.put_i8(elem.get_type_id())?;
                write_value(buf, elem)?;
                idx = idx + 1;
                proof {
                    assert(es.take(idx as int).drop_last() =~= es.take(idx - 1));
                    assert(es.take(idx as int).last() == es[idx - 1]);
                    assert(buf@ =~= orig + enc_elements(es.take(idx as int)));
                }
            }
            proof {
                assert(es.take(es.len() as int) =~= es);
                assert(buf@ =~= old(buf)@ + enc_value(value@));
            }
        },
        OValue::Document(doc) => {
            encode_document_into(doc, buf)?;
        },
        OValue::LinkList(list) => {
            buf.write_varint(list.links.len() as i64)?;
            let ghost links = list.links@;
            let ghost orig = buf@;
            let mut idx: usize = 0;
            proof {
                assert(buf@ =~= orig + enc_links(links.take(0)));
            }
            while idx < list.links.len()
                invariant
                    idx <= links.len(),
                    links == list.links@,
                    buf@ == orig + enc_links(links.take(idx as int)),
                decreases links.len() - idx,
            {
                let link = list.links[idx];
                buf.write_varint(link.cluster as i64)?;
                buf.write_varint(link.position)?;
                idx = idx + 1;
                proof {
                    assert(links.take(idx as int).drop_last() =~= links.take(idx - 1));
                    assert(links.take(idx as int).last() == links[idx - 1]);
                    assert(buf@ =~= orig + enc_links(links.take(idx as int)));
                }
            }
            proof {
                assert(links.take(links.len() as int) =~= links);
                assert(buf@ =~= old(buf)@ + enc_value(value@));
            }
        },
        OValue::EmbeddedMap(entries) => {
            buf.write_varint(entries.len() as i64)?;
            write_entry_list(buf, entries)?;
            proof {
                assert(buf@ =~= old(buf)@ + enc_value(value@));
            }
        },
        _ => {
            proof {
                assert(false);
            }
        },
    }
    Ok(())
}

// Executable checks for the serialisability conditions, so that callers can
// refuse an unsupported document before touching the wire.

pub proof fn lemma_vals_serializable_all(es: Seq<Val>)
    requires
        forall|i: int| 0 <= i < es.len() ==> val_serializable(#[trigger] es[i]),
    ensures
        vals_serializable(es),
    decreases es,
{
    if es.len() > 0 {
        lemma_vals_serializable_all(es.drop_last());
    }
}

pub proof fn lemma_fields_serializable_all(fs: Seq<(Seq<char>, Val)>)
    requires
        forall|i: int|
            #![trigger fs[i]]
            0 <= i < fs.len() ==> str_fits(fs[i].0) && val_serializable(fs[i].1),
    ensures
        fields_serializable(fs),
    decreases fs,
{
    if fs.len() > 0 {
        lemma_fields_serializable_all(fs.drop_last());
    }
}

/// Decide whether the serialiser accepts this value.
#[verifier::loop_isolation(false)]
pub fn value_serializable_check(value: &OValue) -> (r: bool)
    ensures
        r == val_serializable(value@),
    decreases value, 2int,
{
    match value {
        OValue::String(s) => s.as_str().as_bytes().len() <= 0x7fff_ffff,
        OValue::Boolean(_) => true,
        OValue::I16(_) => true,
        OValue::I32(_) => true,
        OValue::I64(_) => true,
        OValue::Link(_) => true,
        OValue::EmbeddedList(es) => {
            proof {
                assert(value@ == Val::EmbeddedList(crate::value::list_model(es@)));
                assert(crate::value::list_model(es@).len() == es@.len());
            }
            if es.len() > 0x7fff_ffff {
                return false;
            }
            let ghost ms = crate::value::list_model(es@);
            let mut i: usize = 0;
            while i < es.len()
                invariant
                    i <= es@.len(),
                    ms == crate::value::list_model(es@),
                    ms.len() == es@.len(),
                    forall|j: int| 0 <= j < i ==> val_serializable(#[trigger] ms[j]),
                decreases es@.len() - i,
            {
                proof {
                    assert(decreases_to!(*value => es@[i as int]));
                    assert(ms[i as int] == crate::value::value_model(es@[i as int]));
                }
                if !value_serializable_check(&es[i]) {
                    proof {
                        if vals_serializable(ms) {
                            lemma_vals_serializable_index(ms, i as int);
                        }
                    }
                    return false;
                }
                i = i + 1;
            }
            proof {
                lemma_vals_serializable_all(ms);
            }
            true
        },
        OValue::EmbeddedMap(entries) => {
            proof {
                assert(value@ == Val::EmbeddedMap(crate::value::entries_model(entries@)));
                assert(crate::value::entries_model(entries@).len() == entries@.len());
            }
            if entries.len() > 0x7fff_ffff {
                return false;
            }
            entries_serializable_check(entries)
        },
        OValue::LinkList(l) => l.links.len() <= 0x7fff_ffff,
        OValue::Document(d) => document_serializable_check(d),
        _ => false,
    }
}

/// Decide whether the serialiser accepts every entry of this field list.
#[verifier::loop_isolation(false)]
pub fn entries_serializable_check(entries: &Vec<(String, OValue)>) -> (r: bool)
    ensures
        r == fields_serializable(crate::value::entries_model(entries@)),
    decreases entries, 3int,
{
    let ghost fs = crate::value::entries_model(entries@);
    let mut i: usize = 0;
    while i < entries.len()
        invariant
            i <= entries@.len(),
            fs == crate::value::entries_model(entries@),
            fs.len() == entries@.len(),
            forall|j: int|
                #![trigger fs[j]]
                0 <= j < i ==> str_fits(fs[j].0) && val_serializable(fs[j].1),
        decreases entries@.len() - i,
    {
        proof {
            assert(decreases_to!(*entries => entries@[i as int]));
            assert(fs[i as int] == (entries@[i as int].0@, crate::value::value_model(
                entries@[i as int].1,
            )));
        }
        let name_ok = entries[i].0.as_str().as_bytes().len() <= 0x7fff_ffff;
        if !name_ok || !value_serializable_check(&entries[i].1) {
            proof {
                if fields_serializable(fs) {
                    lemma_fields_serializable_index(fs, i as int);
                }
            }
            return false;
        }
        i = i + 1;
    }
    proof {
        lemma_fields_serializable_all(fs);
    }
    true
}

/// Decide whether the serialiser accepts this document.
pub fn document_serializable_check(doc: &ODocument) -> (r: bool)
    ensures
        r == doc_serializable(doc@),
    decreases doc, 4int,
{
    proof {
        assert(doc@.fields == crate::value::entries_model(doc.fields@));
        assert(doc@.fields.len() == doc.fields@.len());
        assert(doc@.class_name == doc.class_name@);
    }
    if doc.class_name.as_str().as_bytes().len() > 0x7fff_ffff {
        return false;
    }
    if doc.fields.len() > 0x7fff_ffff {
        return false;
    }
    proof {
        assert(decreases_to!(*doc => doc.fields));
    }
    entries_serializable_check(&doc.fields)
}

} // verus!
