use vstd::prelude::*;
use vstd::utf8::encode_utf8;
use crate::buffer::OBuffer;
use crate::document::ODocument;
use crate::error::{OrientError, OrientResult};
use crate::request::{
    Close, Connect, CreateDB, DropDB, ExistDB, HandShake, LiveQuery, Open, Query, QueryClose,
    QueryNext, Request, ServerQuery, UnsubscribeLiveQuery,
};
use crate::rid::ORecordID;
use crate::serializer::{
    doc_serializable, enc_doc, encode_document, entries_serializable_check, fields_serializable,
    str_fits,
};
use crate::value::{entries_model, DocVal, OValue, Val};
use crate::wire::{enc_bool, enc_bytes32, enc_i16, enc_i32, enc_str32, fits_i32_len};

verus! {

broadcast use crate::value::lemma_entries_model;

// Requests are encoded as an opcode byte, the session header where one
// applies, and the request's own fields.  Each encoder first refuses inputs
// whose text, token or parameter document would overflow the i32 length
// framing, leaving the buffer untouched, and otherwise appends exactly the
// specified bytes.

pub open spec fn enc_token(token: Option<Vec<u8>>) -> Seq<u8> {
    match token {
        Some(t) => enc_bytes32(t@),
        None => Seq::empty(),
    }
}

pub open spec fn token_fits(token: Option<Vec<u8>>) -> bool {
    match token {
        Some(t) => fits_i32_len(t@.len()),
        None => true,
    }
}

/// The parameters of a query travel as one document with a single field
/// `params` holding them as an embedded map.
pub open spec fn params_doc(fields: Seq<(Seq<char>, Val)>) -> DocVal {
    DocVal {
        record_id: ORecordID { cluster: -1i16, position: -1i64 },
        class_name: Seq::empty(),
        version: 0,
        fields: seq![("params"@, Val::EmbeddedMap(fields))],
    }
}

proof fn lemma_params_literal()
    ensures
        str_fits("params"@),
        str_fits(Seq::<char>::empty()),
{
    reveal_strlit("params");
    assert(vstd::utf8::is_ascii_chars("params"@)) by {
        assert(forall|i: int| 0 <= i < "params"@.len() ==> '\0' <= #[trigger] "params"@[i]
            <= '\u{7f}');
    }
    vstd::utf8::is_ascii_chars_encode_utf8("params"@);
    assert(encode_utf8(Seq::<char>::empty()).len() == 0);
}

pub open spec fn params_fit(params: Vec<(String, OValue)>) -> bool {
    &&& fields_serializable(entries_model(params@))
    &&& params@.len() <= 0x7fff_ffff
    &&& fits_i32_len(enc_doc(params_doc(entries_model(params@))).len())
}

pub open spec fn enc_params(params: Vec<(String, OValue)>) -> Seq<u8> {
    enc_bytes32(enc_doc(params_doc(entries_model(params@))))
}

pub open spec fn enc_handshake(h: HandShake) -> Seq<u8> {
    seq![20u8] + enc_i16(h.p_version) + enc_str32(h.name@) + enc_str32(h.version@) + seq![0u8]
        + seq![1u8]
}

pub open spec fn handshake_fits(h: HandShake) -> bool {
    str_fits(h.name@) && str_fits(h.version@)
}

pub open spec fn enc_connect(c: Connect) -> Seq<u8> {
    seq![2u8] + enc_i32(-1i32) + enc_bytes32(Seq::empty()) + enc_str32(c.username@) + enc_str32(
        c.password@,
    )
}

pub open spec fn connect_fits(c: Connect) -> bool {
    str_fits(c.username@) && str_fits(c.password@)
}

pub open spec fn enc_open(o: Open) -> Seq<u8> {
    seq![3u8] + enc_i32(-1i32) + enc_bytes32(Seq::empty()) + enc_str32(o.db@) + enc_str32(
        o.username@,
    ) + enc_str32(o.password@)
}

pub open spec fn open_fits(o: Open) -> bool {
    str_fits(o.db@) && str_fits(o.username@) && str_fits(o.password@)
}

pub open spec fn enc_create_db(c: CreateDB) -> Seq<u8> {
    seq![4u8] + enc_i32(c.header.session_id) + enc_token(c.header.token) + enc_str32(c.name@)
        + enc_str32(Seq::empty()) + enc_str32(c.db_mode.as_str_spec()) + (match c.backup {
        Some(b) => enc_str32(b@),
        None => enc_i32(-1i32),
    })
}

pub open spec fn create_db_fits(c: CreateDB) -> bool {
    &&& token_fits(c.header.token)
    &&& str_fits(c.name@)
    &&& str_fits(c.db_mode.as_str_spec())
    &&& (match c.backup {
        Some(b) => str_fits(b@),
        None => true,
    })
}

pub open spec fn enc_close(c: Close) -> Seq<u8> {
    seq![5u8] + enc_i32(c.session_id) + enc_token(c.token)
}

pub open spec fn close_fits(c: Close) -> bool {
    token_fits(c.token)
}

pub open spec fn enc_exist_db(e: ExistDB) -> Seq<u8> {
    seq![6u8] + enc_i32(e.header.session_id) + enc_token(e.header.token) + enc_str32(e.name@)
        + enc_str32(e.db_mode.as_str_spec())
}

pub open spec fn exist_db_fits(e: ExistDB) -> bool {
    token_fits(e.header.token) && str_fits(e.name@) && str_fits(e.db_mode.as_str_spec())
}

pub open spec fn enc_drop_db(d: DropDB) -> Seq<u8> {
    seq![7u8] + enc_i32(d.header.session_id) + enc_token(d.header.token) + enc_str32(d.name@)
        + enc_str32(d.db_mode.as_str_spec())
}

pub open spec fn drop_db_fits(d: DropDB) -> bool {
    token_fits(d.header.token) && str_fits(d.name@) && str_fits(d.db_mode.as_str_spec())
}

pub open spec fn enc_unsubscribe_live_query(u: UnsubscribeLiveQuery) -> Seq<u8> {
    seq![101u8] + enc_i32(u.session_id) + enc_token(u.token) + seq![2u8] + enc_i32(u.monitor_id)
}

pub open spec fn unsubscribe_fits(u: UnsubscribeLiveQuery) -> bool {
    token_fits(u.token)
}

pub open spec fn enc_live_query(q: LiveQuery) -> Seq<u8> {
    seq![100u8] + enc_i32(q.session_id) + enc_token(q.token) + seq![2u8] + enc_str32(q.query@)
        + enc_params(q.parameters) + enc_bool(q.named)
}

pub open spec fn live_query_fits(q: LiveQuery) -> bool {
    token_fits(q.token) && str_fits(q.query@) && params_fit(q.parameters)
}

pub open spec fn enc_query(q: Query) -> Seq<u8> {
    seq![45u8] + enc_i32(q.session_id) + enc_token(q.token) + enc_str32(q.language@) + enc_str32(
        q.query@,
    ) + seq![q.mode as u8] + enc_i32(q.page_size) + enc_str32(Seq::empty()) + enc_params(
        q.parameters,
    ) + enc_bool(q.named)
}

pub open spec fn query_fits(q: Query) -> bool {
    token_fits(q.token) && str_fits(q.language@) && str_fits(q.query@) && params_fit(q.parameters)
}

pub open spec fn enc_server_query(q: ServerQuery) -> Seq<u8> {
    seq![50u8] + enc_i32(q.session_id) + enc_token(q.token) + enc_str32(q.language@) + enc_str32(
        q.query@,
    ) + seq![q.mode as u8] + enc_i32(q.page_size) + enc_str32(Seq::empty()) + enc_params(
        q.parameters,
    ) + enc_bool(q.named)
}

pub open spec fn server_query_fits(q: ServerQuery) -> bool {
    token_fits(q.token) && str_fits(q.language@) && str_fits(q.query@) && params_fit(q.parameters)
}

pub open spec fn enc_query_next(n: QueryNext) -> Seq<u8> {
    seq![47u8] + enc_i32(n.session_id) + enc_token(n.token) + enc_str32(n.query_id@) + enc_i32(
        n.page_size,
    )
}

pub open spec fn query_next_fits(n: QueryNext) -> bool {
    token_fits(n.token) && str_fits(n.query_id@)
}

pub open spec fn enc_query_close(c: QueryClose) -> Seq<u8> {
    seq![46u8] + enc_i32(c.session_id) + enc_token(c.token) + enc_str32(c.query_id@)
}

pub open spec fn query_close_fits(c: QueryClose) -> bool {
    token_fits(c.token) && str_fits(c.query_id@)
}

/// The byte image of any request.
pub open spec fn enc_request(req: Request) -> Seq<u8> {
    match req {
        Request::HandShake(h) => enc_handshake(h),
        Request::Connect(c) => enc_connect(c),
        Request::Open(o) => enc_open(o),
        Request::CreateDB(c) => enc_create_db(c),
        Request::Close(c) => enc_close(c),
        Request::ExistDB(e) => enc_exist_db(e),
        Request::DropDB(d) => enc_drop_db(d),
        Request::Query(q) => enc_query(q),
        Request::ServerQuery(q) => enc_server_query(q),
        Request::LiveQuery(q) => enc_live_query(q),
        Request::UnsubscribeLiveQuery(u) => enc_unsubscribe_live_query(u),
        Request::QueryNext(n) => enc_query_next(n),
        Request::QueryClose(c) => enc_query_close(c),
    }
}

/// Whether every component of the request fits the i32 length framing.
pub open spec fn request_fits(req: Request) -> bool {
    match req {
        Request::HandShake(h) => handshake_fits(h),
        Request::Connect(c) => connect_fits(c),
        Request::Open(o) => open_fits(o),
        Request::CreateDB(c) => create_db_fits(c),
        Request::Close(c) => close_fits(c),
        Request::ExistDB(e) => exist_db_fits(e),
        Request::DropDB(d) => drop_db_fits(d),
        Request::Query(q) => query_fits(q),
        Request::ServerQuery(q) => server_query_fits(q),
        Request::LiveQuery(q) => live_query_fits(q),
        Request::UnsubscribeLiveQuery(u) => unsubscribe_fits(u),
        Request::QueryNext(n) => query_next_fits(n),
        Request::QueryClose(c) => query_close_fits(c),
    }
}

fn check_str(s: &str) -> (r: bool)
    ensures
        r == str_fits(s@),
{
    s.as_bytes().len() <= 0x7fff_ffff
}

fn check_token(token: &Option<Vec<u8>>) -> (r: bool)
    ensures
        r == token_fits(*token),
{
    match token {
        Some(t) => t.len() <= 0x7fff_ffff,
        None => true,
    }
}

fn oversize<T>() -> (r: OrientResult<T>)
    ensures
        r is Err,
{
    Err(OrientError::Protocol("message component exceeds the length framing".to_owned()))
}

fn write_token(buf: &mut OBuffer, token: &Option<Vec<u8>>) -> (r: OrientResult<()>)
    requires
        token_fits(*token),
    ensures
        r is Ok,
        final(buf)@ == old(buf)@ + enc_token(*token),
{
    match token {
        Some(t) => {
            buf.write_slice(t.as_slice())?;
        },
        None => {
            proof {
                assert(buf@ =~= old(buf)@ + enc_token(*token));
            }
        },
    }
    Ok(())
}

/// Build the single-field parameter document.
fn build_params_document(params: Vec<(String, OValue)>) -> (r: ODocument)
    ensures
        r@ == params_doc(entries_model(params@)),
{
    let ghost ps = entries_model(params@);
    let mut document = ODocument::empty();
    document.set("params", OValue::EmbeddedMap(params));
    proof {
        reveal_strlit("params");
        assert(crate::document::find_entry(Seq::<(Seq<char>, Val)>::empty(), "params"@) == -1);
        assert(document@.fields =~= seq![("params"@, Val::EmbeddedMap(ps))]);
        assert(document@ == params_doc(ps));
    }
    document
}

/// Encode the parameter document, refusing one whose byte image overflows
/// the framing.
fn write_params(buf: &mut OBuffer, params: Vec<(String, OValue)>) -> (r: OrientResult<()>)
    ensures
        params_fit(params) ==> r is Ok && final(buf)@ == old(buf)@ + enc_params(params),
        !params_fit(params) ==> r is Err && final(buf)@ == old(buf)@,
{
    let ghost ps = entries_model(params@);
    if params.len() > 0x7fff_ffff {
        return oversize();
    }
    if !entries_serializable_check(&params) {
        return oversize();
    }
    proof {
        lemma_params_literal();
        assert(doc_serializable(params_doc(ps)));
    }
    let document = build_params_document(params);
    let encoded = encode_document(&document)?;
    let slice = encoded.as_slice();
    if slice.len() > 0x7fff_ffff {
        return oversize();
    }
    buf.write_slice(slice)?;
    Ok(())
}

pub fn encode_handshake(buf: &mut OBuffer, handshake: HandShake) -> (r: OrientResult<()>)
    ensures
        handshake_fits(handshake) ==> r is Ok && final(buf)@ == old(buf)@ + enc_handshake(
            handshake,
        ),
        !handshake_fits(handshake) ==> r is Err && final(buf)@ == old(buf)@,
{
    if !check_str(handshake.name.as_str()) || !check_str(handshake.version.as_str()) {
        return oversize();
    }
    buf.put_i8(20)?;
    buf.put_i16(handshake.p_version)?;
    buf.write_str(handshake.name.as_str())?;
    buf.write_str(handshake.version.as_str())?;
    buf.put_i8(0)?;
    buf.put_i8(1)?;
    proof {
        assert(buf@ =~= old(buf)@ + enc_handshake(handshake));
    }
    Ok(())
}

pub fn encode_connect(buf: &mut OBuffer, connect: Connect) -> (r: OrientResult<()>)
    ensures
        connect_fits(connect) ==> r is Ok && final(buf)@ == old(buf)@ + enc_connect(connect),
        !connect_fits(connect) ==> r is Err && final(buf)@ == old(buf)@,
{
    if !check_str(connect.username.as_str()) || !check_str(connect.password.as_str()) {
        return oversize();
    }
    buf.put_i8(2)?;
    buf.put_i32(-1)?;
    let empty: [u8; 0] = [];
    buf.write_slice(empty.as_slice())?;
    buf.write_str(connect.username.as_str())?;
    buf.write_str(connect.password.as_str())?;
    proof {
        assert(buf@ =~= old(buf)@ + enc_connect(connect));
    }
    Ok(())
}

pub fn encode_open(buf: &mut OBuffer, open_req: Open) -> (r: OrientResult<()>)
    ensures
        open_fits(open_req) ==> r is Ok && final(buf)@ == old(buf)@ + enc_open(open_req),
        !open_fits(open_req) ==> r is Err && final(buf)@ == old(buf)@,
{
    if !check_str(open_req.db.as_str()) || !check_str(open_req.username.as_str()) || !check_str(
        open_req.password.as_str(),
    ) {
        return oversize();
    }
    buf.put_i8(3)?;
    buf.put_i32(-1)?;
    let empty: [u8; 0] = [];
    buf.write_slice(empty.as_slice())?;
    buf.write_str(open_req.db.as_str())?;
    buf.write_str(open_req.username.as_str())?;
    buf.write_str(open_req.password.as_str())?;
    proof {
        assert(buf@ =~= old(buf)@ + enc_open(open_req));
    }
    Ok(())
}

pub fn encode_create_db(buf: &mut OBuffer, create: CreateDB) -> (r: OrientResult<()>)
    ensures
        create_db_fits(create) ==> r is Ok && final(buf)@ == old(buf)@ + enc_create_db(create),
        !create_db_fits(create) ==> r is Err && final(buf)@ == old(buf)@,
{
    let mode_ok = check_str(create.db_mode.as_str());
    let backup_ok = match &create.backup {
        Some(b) => check_str(b.as_str()),
        None => true,
    };
    if !check_token(&create.header.token) || !check_str(create.name.as_str()) || !mode_ok
        || !backup_ok {
        return oversize();
    }
    buf.put_i8(4)?;
    buf.put_i32(create.header.session_id)?;
    write_token(buf, &create.header.token)?;
    buf.write_str(create.name.as_str())?;
    proof {
        lemma_params_literal();
        reveal_strlit("");
        assert(""@ =~= Seq::<char>::empty());
    }
    buf.write_str("")?;
    buf.write_str(create.db_mode.as_str())?;
    match &create.backup {
        Some(bck) => {
            buf.write_str(bck.as_str())?;
        },
        None => {
            buf.put_i32(-1)?;
        },
    }
    proof {
        assert(buf@ =~= old(buf)@ + enc_create_db(create));
    }
    Ok(())
}

pub fn encode_close(buf: &mut OBuffer, close: Close) -> (r: OrientResult<()>)
    ensures
        close_fits(close) ==> r is Ok && final(buf)@ == old(buf)@ + enc_close(close),
        !close_fits(close) ==> r is Err && final(buf)@ == old(buf)@,
{
    if !check_token(&close.token) {
        return oversize();
    }
    buf.put_i8(5)?;
    buf.put_i32(close.session_id)?;
    write_token(buf, &close.token)?;
    proof {
        assert(buf@ =~= old(buf)@ + enc_close(close));
    }
    Ok(())
}

pub fn encode_exist_db(buf: &mut OBuffer, exist: ExistDB) -> (r: OrientResult<()>)
    ensures
        exist_db_fits(exist) ==> r is Ok && final(buf)@ == old(buf)@ + enc_exist_db(exist),
        !exist_db_fits(exist) ==> r is Err && final(buf)@ == old(buf)@,
{
    if !check_token(&exist.header.token) || !check_str(exist.name.as_str()) || !check_str(
        exist.db_mode.as_str(),
    ) {
        return oversize();
    }
    buf.put_i8(6)?;
    buf.put_i32(exist.header.session_id)?;
    write_token(buf, &exist.header.token)?;
    buf.write_str(exist.name.as_str())?;
    buf.write_str(exist.db_mode.as_str())?;
    proof {
        assert(buf@ =~= old(buf)@ + enc_exist_db(exist));
    }
    Ok(())
}

pub fn encode_drop_db(buf: &mut OBuffer, drop_req: DropDB) -> (r: OrientResult<()>)
    ensures
        drop_db_fits(drop_req) ==> r is Ok && final(buf)@ == old(buf)@ + enc_drop_db(drop_req),
        !drop_db_fits(drop_req) ==> r is Err && final(buf)@ == old(buf)@,
{
    if !check_token(&drop_req.header.token) || !check_str(drop_req.name.as_str()) || !check_str(
        drop_req.db_mode.as_str(),
    ) {
        return oversize();
    }
    buf.put_i8(7)?;
    buf.put_i32(drop_req.header.session_id)?;
    write_token(buf, &drop_req.header.token)?;
    buf.write_str(drop_req.name.as_str())?;
    buf.write_str(drop_req.db_mode.as_str())?;
    proof {
        assert(buf@ =~= old(buf)@ + enc_drop_db(drop_req));
    }
    Ok(())
}

pub fn encode_unsubscribe_live_query(buf: &mut OBuffer, query: UnsubscribeLiveQuery) -> (r:
    OrientResult<()>)
    ensures
        unsubscribe_fits(query) ==> r is Ok && final(buf)@ == old(buf)@
            + enc_unsubscribe_live_query(query),
        !unsubscribe_fits(query) ==> r is Err && final(buf)@ == old(buf)@,
{
    if !check_token(&query.token) {
        return oversize();
    }
    buf.put_i8(101)?;
    buf.put_i32(query.session_id)?;
    write_token(buf, &query.token)?;
    buf.put_i8(2)?;
    buf.put_i32(query.monitor_id)?;
    proof {
        assert(buf@ =~= old(buf)@ + enc_unsubscribe_live_query(query));
    }
    Ok(())
}

#[verifier::rlimit(60)]
pub fn encode_live_query(buf: &mut OBuffer, query: LiveQuery) -> (r: OrientResult<()>)
    ensures
        live_query_fits(query) ==> r is Ok && final(buf)@ == old(buf)@ + enc_live_query(query),
        !live_query_fits(query) ==> r is Err && final(buf)@ == old(buf)@,
{
    if !check_token(&query.token) || !check_str(query.query.as_str()) {
        return oversize();
    }
    let ghost entry = old(buf)@;
    let mut staged = OBuffer::new();
    write_params(&mut staged, query.parameters)?;
    buf.put_i8(100)?;
    buf.put_i32(query.session_id)?;
    write_token(buf, &query.token)?;
    buf.put_i8(2)?;
    buf.write_str(query.query.as_str())?;
    buf.put_slice(staged.as_slice())?;
    buf.write_bool(query.named)?;
    proof {
        assert(buf@ =~= old(buf)@ + enc_live_query(query));
    }
    Ok(())
}

#[verifier::rlimit(60)]
pub fn encode_query(buf: &mut OBuffer, query: Query) -> (r: OrientResult<()>)
    ensures
        query_fits(query) ==> r is Ok && final(buf)@ == old(buf)@ + enc_query(query),
        !query_fits(query) ==> r is Err && final(buf)@ == old(buf)@,
{
    if !check_token(&query.token) || !check_str(query.query.as_str()) || !check_str(
        query.language.as_str(),
    ) {
        return oversize();
    }
    let mut staged = OBuffer::new();
    write_params(&mut staged, query.parameters)?;
    buf.put_i8(45)?;
    buf.put_i32(query.session_id)?;
    write_token(buf, &query.token)?;
    buf.write_str(query.language.as_str())?;
    buf.write_str(query.query.as_str())?;
    buf.put_i8(query.mode)?;
    buf.put_i32(query.page_size)?;
    proof {
        reveal_strlit("");
        assert(""@ =~= Seq::<char>::empty());
        lemma_params_literal();
    }
    buf.write_str("")?;
    buf.put_slice(staged.as_slice())?;
    buf.write_bool(query.named)?;
    proof {
        assert(buf@ =~= old(buf)@ + enc_query(query));
    }
    Ok(())
}

#[verifier::rlimit(60)]
pub fn encode_server_query(buf: &mut OBuffer, query: ServerQuery) -> (r: OrientResult<()>)
    ensures
        server_query_fits(query) ==> r is Ok && final(buf)@ == old(buf)@ + enc_server_query(
            query,
        ),
        !server_query_fits(query) ==> r is Err && final(buf)@ == old(buf)@,
{
    if !check_token(&query.token) || !check_str(query.query.as_str()) || !check_str(
        query.language.as_str(),
    ) {
        return oversize();
    }
    let mut staged = OBuffer::new();
    write_params(&mut staged, query.parameters)?;
    buf.put_i8(50)?;
    buf.put_i32(query.session_id)?;
    write_token(buf, &query.token)?;
    buf.write_str(query.language.as_str())?;
    buf.write_str(query.query.as_str())?;
    buf.put_i8(query.mode)?;
    buf.put_i32(query.page_size)?;
    proof {
        reveal_strlit("");
        assert(""@ =~= Seq::<char>::empty());
        lemma_params_literal();
    }
    buf.write_str("")?;
    buf.put_slice(staged.as_slice())?;
    buf.write_bool(query.named)?;
    proof {
        assert(buf@ =~= old(buf)@ + enc_server_query(query));
    }
    Ok(())
}

pub fn encode_query_next(buf: &mut OBuffer, next: QueryNext) -> (r: OrientResult<()>)
    ensures
        query_next_fits(next) ==> r is Ok && final(buf)@ == old(buf)@ + enc_query_next(next),
        !query_next_fits(next) ==> r is Err && final(buf)@ == old(buf)@,
{
    if !check_token(&next.token) || !check_str(next.query_id.as_str()) {
        return oversize();
    }
    buf.put_i8(47)?;
    buf.put_i32(next.session_id)?;
    write_token(buf, &next.token)?;
    buf.write_str(next.query_id.as_str())?;
    buf.put_i32(next.page_size)?;
    proof {
        assert(buf@ =~= old(buf)@ + enc_query_next(next));
    }
    Ok(())
}

pub fn encode_query_close(buf: &mut OBuffer, close: QueryClose) -> (r: OrientResult<()>)
    ensures
        query_close_fits(close) ==> r is Ok && final(buf)@ == old(buf)@ + enc_query_close(close),
        !query_close_fits(close) ==> r is Err && final(buf)@ == old(buf)@,
{
    if !check_token(&close.token) || !check_str(close.query_id.as_str()) {
        return oversize();
    }
    buf.put_i8(46)?;
    buf.put_i32(close.session_id)?;
    write_token(buf, &close.token)?;
    buf.write_str(close.query_id.as_str())?;
    proof {
        assert(buf@ =~= old(buf)@ + enc_query_close(close));
    }
    Ok(())
}

/// The negotiated protocol.  Versions 37 and above speak version 37; lower
/// versions are refused.
#[derive(Debug, Clone, Copy, PartialEq, Eq, Structural)]
pub struct WiredProtocol {
    pub version: i16,
}

impl WiredProtocol {
    pub fn from_version(version: i16) -> (r: OrientResult<WiredProtocol>)
        ensures
            version >= 37 ==> (r matches Ok(p) && p.version == 37),
            version < 37 ==> (r matches Err(e) && e is Protocol),
    {
        if version >= 37 {
            Ok(WiredProtocol { version: 37 })
        } else {
            Err(OrientError::Protocol("protocol version below 37 is not supported".to_owned()))
        }
    }

    /// Encode one request to its byte image.
    pub fn encode(&self, item: Request) -> (r: OrientResult<OBuffer>)
        requires
            self.version >= 37,
        ensures
            request_fits(item) ==> (r matches Ok(buf) && buf@ == enc_request(item)),
            !request_fits(item) ==> r is Err,
    {
        let mut buffer = OBuffer::new();
        match item {
            Request::HandShake(handshake) => encode_handshake(&mut buffer, handshake)?,
            Request::Connect(connect) => encode_connect(&mut buffer, connect)?,
            Request::Open(open_req) => encode_open(&mut buffer, open_req)?,
            Request::CreateDB(create) => encode_create_db(&mut buffer, create)?,
            Request::ExistDB(exist) => encode_exist_db(&mut buffer, exist)?,
            Request::DropDB(drop_req) => encode_drop_db(&mut buffer, drop_req)?,
            Request::ServerQuery(query) => encode_server_query(&mut buffer, query)?,
            Request::Close(close) => encode_close(&mut buffer, close)?,
            Request::Query(query) => encode_query(&mut buffer, query)?,
            Request::LiveQuery(query) => encode_live_query(&mut buffer, query)?,
            Request::QueryNext(next) => encode_query_next(&mut buffer, next)?,
            Request::QueryClose(query_close) => encode_query_close(&mut buffer, query_close)?,
            Request::UnsubscribeLiveQuery(unsubscribe) => encode_unsubscribe_live_query(
                &mut buffer,
                unsubscribe,
            )?,
        }
        Ok(buffer)
    }
}

} // verus!
