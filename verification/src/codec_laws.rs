use vstd::prelude::*;
use vstd::utf8::encode_utf8;
use crate::parser::{
    spec_parse_document, spec_parse_elements, spec_parse_entries, spec_parse_projection,
    spec_parse_rids, spec_parse_value,
};
use crate::rid::ORecordID;
use crate::serializer::{
    doc_serializable, enc_doc, enc_elements, enc_fields, enc_links, enc_projection, enc_value,
    fields_no_documents, fields_serializable, str_fits, val_no_documents, val_serializable,
    vals_no_documents, vals_serializable,
};
use crate::value::{tag_of, DocVal, Val};
use crate::varint::{lemma_varint_bytes_len, lemma_varint_round_trip, spec_write_varint};
use crate::wire::{enc_varstr, lemma_read_bool_enc, lemma_read_varstr_enc};

verus! {

// Round trips of the document codec: what the serialiser lays down, the
// parser reads back unchanged.  The proofs walk the value structure, at each
// step splitting the byte image into the chunk of the current component and
// the rest.

/// On the wire an embedded document loses its identity and version.  The
/// round trip is exact for values whose embedded documents carry none.
pub open spec fn val_identity_free(v: Val) -> bool
    decreases v,
{
    match v {
        Val::Document(d) => d.record_id == (ORecordID { cluster: -1i16, position: -1i64 })
            && d.version == 0 && fields_identity_free(d.fields),
        Val::EmbeddedList(es) => vals_identity_free(es),
        Val::EmbeddedSet(es) => vals_identity_free(es),
        Val::EmbeddedMap(fs) => fields_identity_free(fs),
        _ => true,
    }
}

pub open spec fn vals_identity_free(es: Seq<Val>) -> bool
    decreases es,
{
    es.len() == 0 || (vals_identity_free(es.drop_last()) && val_identity_free(es.last()))
}

pub open spec fn fields_identity_free(fs: Seq<(Seq<char>, Val)>) -> bool
    decreases fs,
{
    fs.len() == 0 || (fields_identity_free(fs.drop_last()) && val_identity_free(fs.last().1))
}

// Head decompositions: each predicate and encoder is defined from the back;
// the parser walks from the front.

proof fn lemma_vals_pred_cons(es: Seq<Val>)
    requires
        es.len() > 0,
    ensures
        vals_serializable(es) ==> val_serializable(es[0]) && vals_serializable(es.drop_first()),
        vals_no_documents(es) ==> val_no_documents(es[0]) && vals_no_documents(es.drop_first()),
        vals_identity_free(es) ==> val_identity_free(es[0]) && vals_identity_free(
            es.drop_first(),
        ),
    decreases es,
{
    if es.len() == 1 {
        assert(es.drop_first() =~= Seq::<Val>::empty());
        assert(es.drop_last() =~= Seq::<Val>::empty());
        assert(es[0] == es.last());
    } else {
        lemma_vals_pred_cons(es.drop_last());
        assert(es.drop_last()[0] == es[0]);
        assert(es.drop_first().drop_last() =~= es.drop_last().drop_first());
        assert(es.drop_first().last() == es.last());
    }
}

proof fn lemma_fields_pred_cons(fs: Seq<(Seq<char>, Val)>)
    requires
        fs.len() > 0,
    ensures
        fields_serializable(fs) ==> str_fits(fs[0].0) && val_serializable(fs[0].1)
            && fields_serializable(fs.drop_first()),
        fields_no_documents(fs) ==> val_no_documents(fs[0].1) && fields_no_documents(
            fs.drop_first(),
        ),
        fields_identity_free(fs) ==> val_identity_free(fs[0].1) && fields_identity_free(
            fs.drop_first(),
        ),
    decreases fs,
{
    if fs.len() == 1 {
        assert(fs.drop_first() =~= Seq::<(Seq<char>, Val)>::empty());
        assert(fs.drop_last() =~= Seq::<(Seq<char>, Val)>::empty());
        assert(fs[0] == fs.last());
    } else {
        lemma_fields_pred_cons(fs.drop_last());
        assert(fs.drop_last()[0] == fs[0]);
        assert(fs.drop_first().drop_last() =~= fs.drop_last().drop_first());
        assert(fs.drop_first().last() == fs.last());
    }
}

proof fn lemma_enc_elements_cons(es: Seq<Val>)
    requires
        es.len() > 0,
    ensures
        enc_elements(es) == (seq![tag_of(es[0]) as u8] + enc_value(es[0])) + enc_elements(
            es.drop_first(),
        ),
    decreases es,
{
    if es.len() == 1 {
        assert(es.drop_first() =~= Seq::<Val>::empty());
        assert(es.drop_last() =~= Seq::<Val>::empty());
        assert(es[0] == es.last());
        assert(enc_elements(es) =~= (seq![tag_of(es[0]) as u8] + enc_value(es[0]))
            + enc_elements(es.drop_first()));
    } else {
        lemma_enc_elements_cons(es.drop_last());
        assert(es.drop_last()[0] == es[0]);
        assert(es.drop_first().drop_last() =~= es.drop_last().drop_first());
        assert(es.drop_first().last() == es.last());
        assert(es.drop_first().len() > 0);
        assert(enc_elements(es.drop_first()) == enc_elements(es.drop_first().drop_last())
            + seq![tag_of(es.drop_first().last()) as u8] + enc_value(es.drop_first().last()));
        assert(enc_elements(es) =~= (seq![tag_of(es[0]) as u8] + enc_value(es[0]))
            + enc_elements(es.drop_first()));
    }
}

proof fn lemma_enc_fields_cons(fs: Seq<(Seq<char>, Val)>)
    requires
        fs.len() > 0,
    ensures
        enc_fields(fs) == enc_varstr(fs[0].0) + (seq![tag_of(fs[0].1) as u8] + enc_value(
            fs[0].1,
        )) + enc_fields(fs.drop_first()),
    decreases fs,
{
    if fs.len() == 1 {
        assert(fs.drop_first() =~= Seq::<(Seq<char>, Val)>::empty());
        assert(fs.drop_last() =~= Seq::<(Seq<char>, Val)>::empty());
        assert(fs[0] == fs.last());
        assert(enc_fields(fs) =~= enc_varstr(fs[0].0) + (seq![tag_of(fs[0].1) as u8] + enc_value(
            fs[0].1,
        )) + enc_fields(fs.drop_first()));
    } else {
        lemma_enc_fields_cons(fs.drop_last());
        assert(fs.drop_last()[0] == fs[0]);
        assert(fs.drop_first().drop_last() =~= fs.drop_last().drop_first());
        assert(fs.drop_first().last() == fs.last());
        assert(fs.drop_first().len() > 0);
        assert(enc_fields(fs.drop_first()) == enc_fields(fs.drop_first().drop_last())
            + enc_varstr(fs.drop_first().last().0) + seq![tag_of(fs.drop_first().last().1) as u8]
            + enc_value(fs.drop_first().last().1));
        assert(enc_fields(fs) =~= enc_varstr(fs[0].0) + (seq![tag_of(fs[0].1) as u8] + enc_value(
            fs[0].1,
        )) + enc_fields(fs.drop_first()));
    }
}

proof fn lemma_enc_links_cons(links: Seq<ORecordID>)
    requires
        links.len() > 0,
    ensures
        enc_links(links) == spec_write_varint(links[0].cluster as i64) + spec_write_varint(
            links[0].position,
        ) + enc_links(links.drop_first()),
    decreases links,
{
    if links.len() == 1 {
        assert(links.drop_first() =~= Seq::<ORecordID>::empty());
        assert(links.drop_last() =~= Seq::<ORecordID>::empty());
        assert(links[0] == links.last());
        assert(enc_links(links) =~= spec_write_varint(links[0].cluster as i64)
            + spec_write_varint(links[0].position) + enc_links(links.drop_first()));
    } else {
        lemma_enc_links_cons(links.drop_last());
        assert(links.drop_last()[0] == links[0]);
        assert(links.drop_first().drop_last() =~= links.drop_last().drop_first());
        assert(links.drop_first().last() == links.last());
        assert(links.drop_first().len() > 0);
        assert(enc_links(links) =~= spec_write_varint(links[0].cluster as i64)
            + spec_write_varint(links[0].position) + enc_links(links.drop_first()));
    }
}

proof fn lemma_i16_widen_narrow(n: i16)
    ensures
        ((n as i64) as i16) == n,
{
    assert(((n as i64) as i16) == n) by (bit_vector);
}

/// Split a matched byte image into its first chunk and the rest.
proof fn lemma_split2(bytes: Seq<u8>, pos: int, a: Seq<u8>, b: Seq<u8>)
    requires
        0 <= pos,
        pos + a.len() + b.len() <= bytes.len(),
        bytes.subrange(pos, pos + a.len() + b.len()) == a + b,
    ensures
        bytes.subrange(pos, pos + a.len() as int) == a,
        bytes.subrange(pos + a.len() as int, pos + a.len() + b.len()) == b,
{
    assert(bytes.subrange(pos, pos + a.len() as int) =~= a) by {
        assert forall|i: int| 0 <= i < a.len() implies bytes[pos + i] == a[i] by {
            assert(bytes[pos + i] == bytes.subrange(pos, pos + a.len() + b.len())[i]);
        }
    }
    assert(bytes.subrange(pos + a.len() as int, pos + a.len() + b.len()) =~= b) by {
        assert forall|i: int| 0 <= i < b.len() implies bytes[pos + a.len() + i] == b[i] by {
            assert(bytes[pos + a.len() + i] == bytes.subrange(pos, pos + a.len() + b.len())[
                a.len() + i]);
        }
    }
}

/// Parsing the byte image of a tagged serialisable value yields it back.
pub proof fn lemma_parse_value_enc(bytes: Seq<u8>, proj: bool, pos: int, v: Val)
    requires
        val_serializable(v),
        val_identity_free(v),
        proj ==> val_no_documents(v),
        0 <= pos,
        pos + 1 + enc_value(v).len() <= bytes.len(),
        bytes.subrange(pos, pos + 1 + enc_value(v).len() as int) == seq![tag_of(v) as u8]
            + enc_value(v),
    ensures
        spec_parse_value(bytes, proj, pos) == Some((v, pos + 1 + enc_value(v).len() as int)),
    decreases v,
{
    let tag = tag_of(v);
    let body = enc_value(v);
    lemma_split2(bytes, pos, seq![tag as u8], body);
    assert(bytes[pos] == bytes.subrange(pos, pos + 1)[0]);
    assert(bytes[pos] == tag as u8);
    assert(((tag as u8) as i8) == tag) by (bit_vector);
    let p = pos + 1;
    match v {
        Val::Str(s) => {
            lemma_read_varstr_enc(bytes, p, s);
        },
        Val::Boolean(b) => {
            lemma_read_bool_enc(bytes, p, b);
        },
        Val::I16(n) => {
            lemma_varint_round_trip(bytes, p, n as i64);
            assert(((n as i64) as i16) == n) by (bit_vector);
        },
        Val::I32(n) => {
            lemma_varint_round_trip(bytes, p, n as i64);
            assert(((n as i64) as i32) == n) by (bit_vector);
        },
        Val::I64(n) => {
            lemma_varint_round_trip(bytes, p, n);
        },
        Val::Link(rid) => {
            let a = spec_write_varint(rid.cluster as i64);
            let b = spec_write_varint(rid.position);
            lemma_split2(bytes, p, a, b);
            lemma_varint_round_trip(bytes, p, rid.cluster as i64);
            lemma_varint_round_trip(bytes, p + a.len(), rid.position);
            lemma_i16_widen_narrow(rid.cluster);
        },
        Val::EmbeddedList(es) => {
            let a = spec_write_varint(es.len() as i64);
            let b = enc_elements(es);
            lemma_split2(bytes, p, a, b);
            lemma_varint_round_trip(bytes, p, es.len() as i64);
            lemma_parse_elements_enc(bytes, proj, p + a.len() as int, es);
        },
        Val::EmbeddedMap(fs) => {
            let a = spec_write_varint(fs.len() as i64);
            let b = enc_fields(fs);
            lemma_split2(bytes, p, a, b);
            lemma_varint_round_trip(bytes, p, fs.len() as i64);
            lemma_parse_entries_enc(bytes, proj, p + a.len() as int, fs);
        },
        Val::LinkList(links) => {
            let a = spec_write_varint(links.len() as i64);
            let b = enc_links(links);
            lemma_split2(bytes, p, a, b);
            lemma_varint_round_trip(bytes, p, links.len() as i64);
            lemma_parse_rids_enc(bytes, p + a.len() as int, links);
        },
        Val::Document(d) => {
            lemma_parse_document_enc(bytes, p, d);
        },
        _ => {
            assert(false);
        },
    }
}

/// Parsing the byte image of a serialisable element list yields it back.
pub proof fn lemma_parse_elements_enc(bytes: Seq<u8>, proj: bool, pos: int, es: Seq<Val>)
    requires
        vals_serializable(es),
        vals_identity_free(es),
        proj ==> vals_no_documents(es),
        0 <= pos,
        pos + enc_elements(es).len() <= bytes.len(),
        bytes.subrange(pos, pos + enc_elements(es).len() as int) == enc_elements(es),
    ensures
        spec_parse_elements(bytes, proj, es.len() as int, pos) == Some(
            (es, pos + enc_elements(es).len() as int),
        ),
    decreases es,
{
    if es.len() == 0 {
        assert(es =~= Seq::<Val>::empty());
    } else {
        lemma_vals_pred_cons(es);
        lemma_enc_elements_cons(es);
        let head = seq![tag_of(es[0]) as u8] + enc_value(es[0]);
        let rest = enc_elements(es.drop_first());
        lemma_split2(bytes, pos, head, rest);
        lemma_parse_value_enc(bytes, proj, pos, es[0]);
        let e = pos + head.len() as int;
        lemma_parse_elements_enc(bytes, proj, e, es.drop_first());
        assert(seq![es[0]] + es.drop_first() =~= es);
    }
}

/// Parsing the byte image of a serialisable entry list yields it back.
pub proof fn lemma_parse_entries_enc(bytes: Seq<u8>, proj: bool, pos: int, fs: Seq<
    (Seq<char>, Val),
>)
    requires
        fields_serializable(fs),
        fields_identity_free(fs),
        proj ==> fields_no_documents(fs),
        0 <= pos,
        pos + enc_fields(fs).len() <= bytes.len(),
        bytes.subrange(pos, pos + enc_fields(fs).len() as int) == enc_fields(fs),
    ensures
        spec_parse_entries(bytes, proj, fs.len() as int, pos) == Some(
            (fs, pos + enc_fields(fs).len() as int),
        ),
    decreases fs,
{
    if fs.len() == 0 {
        assert(fs =~= Seq::<(Seq<char>, Val)>::empty());
    } else {
        lemma_fields_pred_cons(fs);
        lemma_enc_fields_cons(fs);
        let name_part = enc_varstr(fs[0].0);
        let val_part = seq![tag_of(fs[0].1) as u8] + enc_value(fs[0].1);
        let rest = enc_fields(fs.drop_first());
        assert(enc_fields(fs) =~= name_part + (val_part + rest));
        lemma_split2(bytes, pos, name_part, val_part + rest);
        lemma_read_varstr_enc(bytes, pos, fs[0].0);
        let ne = pos + name_part.len() as int;
        lemma_split2(bytes, ne, val_part, rest);
        lemma_parse_value_enc(bytes, proj, ne, fs[0].1);
        let e = ne + val_part.len() as int;
        lemma_parse_entries_enc(bytes, proj, e, fs.drop_first());
        assert(seq![(fs[0].0, fs[0].1)] + fs.drop_first() =~= fs);
    }
}

/// Parsing the byte image of a link list yields it back.
pub proof fn lemma_parse_rids_enc(bytes: Seq<u8>, pos: int, links: Seq<ORecordID>)
    requires
        0 <= pos,
        pos + enc_links(links).len() <= bytes.len(),
        bytes.subrange(pos, pos + enc_links(links).len() as int) == enc_links(links),
    ensures
        spec_parse_rids(bytes, links.len() as int, pos) == Some(
            (links, pos + enc_links(links).len() as int),
        ),
    decreases links,
{
    if links.len() == 0 {
        assert(links =~= Seq::<ORecordID>::empty());
    } else {
        lemma_enc_links_cons(links);
        let a = spec_write_varint(links[0].cluster as i64);
        let b = spec_write_varint(links[0].position);
        let rest = enc_links(links.drop_first());
        assert(enc_links(links) =~= a + (b + rest));
        lemma_split2(bytes, pos, a, b + rest);
        lemma_varint_round_trip(bytes, pos, links[0].cluster as i64);
        let e1 = pos + a.len() as int;
        lemma_split2(bytes, e1, b, rest);
        lemma_varint_round_trip(bytes, e1, links[0].position);
        let e2 = e1 + b.len() as int;
        lemma_parse_rids_enc(bytes, e2, links.drop_first());
        lemma_i16_widen_narrow(links[0].cluster);
        assert(seq![ORecordID { cluster: links[0].cluster, position: links[0].position }]
            + links.drop_first() =~= links);
    }
}

/// Parsing the byte image of a serialisable document yields its class name
/// and fields back; the identity and version are not part of the body and
/// read as empty and zero.
pub proof fn lemma_parse_document_enc(bytes: Seq<u8>, pos: int, d: DocVal)
    requires
        doc_serializable(d),
        fields_identity_free(d.fields),
        0 <= pos,
        pos + enc_doc(d).len() <= bytes.len(),
        bytes.subrange(pos, pos + enc_doc(d).len() as int) == enc_doc(d),
    ensures
        spec_parse_document(bytes, pos) == Some(
            (
                DocVal {
                    record_id: ORecordID { cluster: -1i16, position: -1i64 },
                    class_name: d.class_name,
                    version: 0,
                    fields: d.fields,
                },
                pos + enc_doc(d).len() as int,
            ),
        ),
    decreases d,
{
    let cn = enc_varstr(d.class_name);
    let vc = spec_write_varint(d.fields.len() as i64);
    let fsb = enc_fields(d.fields);
    assert(enc_doc(d) =~= cn + (vc + fsb));
    lemma_split2(bytes, pos, cn, vc + fsb);
    lemma_read_varstr_enc(bytes, pos, d.class_name);
    let ce = pos + cn.len() as int;
    assert(cn.len() >= 1) by {
        lemma_varint_bytes_len(crate::varint::zigzag(encode_utf8(d.class_name).len() as i64));
    }
    lemma_split2(bytes, ce, vc, fsb);
    lemma_varint_round_trip(bytes, ce, d.fields.len() as i64);
    let fe = ce + vc.len() as int;
    lemma_parse_entries_enc(bytes, false, fe, d.fields);
}

/// Parsing the byte image of a serialisable projection yields its fields
/// back, provided no value embeds a document.
pub proof fn lemma_parse_projection_enc(bytes: Seq<u8>, pos: int, fs: Seq<(Seq<char>, Val)>)
    requires
        fields_serializable(fs),
        fields_no_documents(fs),
        fields_identity_free(fs),
        fs.len() <= 0x7fff_ffff,
        0 <= pos,
        pos + enc_projection(fs).len() <= bytes.len(),
        bytes.subrange(pos, pos + enc_projection(fs).len() as int) == enc_projection(fs),
    ensures
        spec_parse_projection(bytes, pos) == Some((fs, pos + enc_projection(fs).len() as int)),
{
    let vc = spec_write_varint(fs.len() as i64);
    let fsb = enc_fields(fs);
    let vm = spec_write_varint(0);
    assert(enc_projection(fs) =~= vc + (fsb + vm));
    lemma_split2(bytes, pos, vc, fsb + vm);
    lemma_varint_round_trip(bytes, pos, fs.len() as i64);
    let fe = pos + vc.len() as int;
    lemma_split2(bytes, fe, fsb, vm);
    lemma_parse_entries_enc(bytes, true, fe, fs);
    let e = fe + fsb.len() as int;
    lemma_varint_round_trip(bytes, e, 0);
    let me = e + vm.len() as int;
    assert(vm.len() == 1) by {
        assert(crate::varint::zigzag(0) == 0u64) by (bit_vector);
        assert(crate::varint::varint_bytes(0u64) == seq![0u8]);
    }
}

/// Round trip of the document codec: a serialisable document whose embedded
/// documents carry no identity decodes from its own byte image, keeping the
/// class name and every field in order; the top-level identity and version,
/// which do not travel in the body, read back as empty and zero.
pub proof fn lemma_document_round_trip(d: DocVal)
    requires
        doc_serializable(d),
        fields_identity_free(d.fields),
    ensures
        spec_parse_document(enc_doc(d), 0) == Some(
            (
                DocVal {
                    record_id: ORecordID { cluster: -1i16, position: -1i64 },
                    class_name: d.class_name,
                    version: 0,
                    fields: d.fields,
                },
                enc_doc(d).len() as int,
            ),
        ),
{
    let bytes = enc_doc(d);
    assert(bytes.subrange(0, bytes.len() as int) =~= bytes);
    lemma_parse_document_enc(bytes, 0, d);
}

/// Round trip of the projection codec: a serialisable projection none of
/// whose values embeds a document decodes from its own byte image unchanged.
pub proof fn lemma_projection_round_trip(fs: Seq<(Seq<char>, Val)>)
    requires
        fields_serializable(fs),
        fields_no_documents(fs),
        fields_identity_free(fs),
        fs.len() <= 0x7fff_ffff,
    ensures
        spec_parse_projection(enc_projection(fs), 0) == Some(
            (fs, enc_projection(fs).len() as int),
        ),
{
    let bytes = enc_projection(fs);
    assert(bytes.subrange(0, bytes.len() as int) =~= bytes);
    lemma_parse_projection_enc(bytes, 0, fs);
}

} // verus!
