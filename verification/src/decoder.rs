use vstd::prelude::*;
use crate::error::{req_err_model, OError, OrientError, OrientResult, ReqErrVal, RequestError};
use crate::parser::{spec_parse_document, spec_parse_projection};
use crate::reader;
use crate::response::{
    Connect, ExistDB, Header, HeaderVal, LiveEventVal, LiveQuery, LiveQueryResult, LiveVal, Open,
    PayloadVal, Query, QueryVal, Response, ResponseType, ServerQuery, Status,
};
use crate::result::{LiveResult, OResult, ResVal};
use crate::wire::{
    spec_read_bool, spec_read_bytes, spec_read_i16, spec_read_i32, spec_read_i8,
    spec_read_identity, spec_read_optional_bytes, spec_read_string,
};

verus! {

// Decoding of response frames.  Every reader agrees exactly with its
// specification parser; a frame the parsers refuse comes back as an error
// and never as a wrong value.

pub open spec fn results_model(rs: Seq<OResult>) -> Seq<ResVal>
    decreases rs,
{
    if rs.len() == 0 {
        Seq::empty()
    } else {
        results_model(rs.drop_last()) + seq![rs.last()@]
    }
}

pub broadcast proof fn lemma_results_model(rs: Seq<OResult>)
    ensures
        (#[trigger] results_model(rs)).len() == rs.len(),
        forall|i: int| 0 <= i < rs.len() ==> results_model(rs)[i] == rs[i]@,
    decreases rs,
{
    if rs.len() > 0 {
        lemma_results_model(rs.drop_last());
    }
}

pub open spec fn event_model(e: LiveResult) -> LiveEventVal {
    match e {
        LiveResult::Created(r) => LiveEventVal::Created(r@),
        LiveResult::Updated((before, after)) => LiveEventVal::Updated(before@, after@),
        LiveResult::Deleted(r) => LiveEventVal::Deleted(r@),
    }
}

pub open spec fn events_model(es: Seq<LiveResult>) -> Seq<LiveEventVal>
    decreases es,
{
    if es.len() == 0 {
        Seq::empty()
    } else {
        events_model(es.drop_last()) + seq![event_model(es.last())]
    }
}

pub broadcast proof fn lemma_events_model(es: Seq<LiveResult>)
    ensures
        (#[trigger] events_model(es)).len() == es.len(),
        forall|i: int| 0 <= i < es.len() ==> events_model(es)[i] == event_model(es[i]),
    decreases es,
{
    if es.len() > 0 {
        lemma_events_model(es.drop_last());
    }
}

/// Header of a frame: a push frame is its status byte alone; any other frame
/// carries session id, token and op byte.
pub open spec fn spec_parse_header(bytes: Seq<u8>, pos: int) -> Option<(HeaderVal, int)> {
    match spec_read_i8(bytes, pos) {
        None => None,
        Some((status, p)) => {
            if status == 3 {
                Some(
                    (
                        HeaderVal {
                            status: Status::PUSH,
                            session_id: -1i32,
                            token: None,
                            op: 100,
                        },
                        p,
                    ),
                )
            } else {
                match spec_read_i32(bytes, p) {
                    None => None,
                    Some((session_id, p1)) => match spec_read_optional_bytes(bytes, p1) {
                        None => None,
                        Some((token, p2)) => match spec_read_i8(bytes, p2) {
                            None => None,
                            Some((op, p3)) => Some(
                                (
                                    HeaderVal {
                                        status: Status::from_spec(status),
                                        session_id,
                                        token,
                                        op,
                                    },
                                    p3,
                                ),
                            ),
                        },
                    },
                }
            }
        },
    }
}

/// Session payload of Open and Connect: new session id and optional token.
pub open spec fn spec_parse_session(bytes: Seq<u8>, pos: int) -> Option<
    ((i32, Option<Seq<u8>>), int),
> {
    match spec_read_i32(bytes, pos) {
        None => None,
        Some((session_id, p)) => match spec_read_optional_bytes(bytes, p) {
            None => None,
            Some((token, e)) => Some(((session_id, token), e)),
        },
    }
}

/// One result row: a projection (kind 4) or a record (kinds 1 to 3) whose
/// body is an i32-framed buffer holding exactly one document, with the
/// record's identity and version alongside.
pub open spec fn spec_parse_result(bytes: Seq<u8>, pos: int) -> Option<(ResVal, int)> {
    match spec_read_i8(bytes, pos) {
        None => None,
        Some((kind, p)) => {
            if kind == 4 {
                match spec_read_bytes(bytes, p) {
                    None => None,
                    Some((sub, e)) => match spec_parse_projection(sub, 0) {
                        Some((fields, used)) => if used == sub.len() {
                            Some((ResVal::Proj(fields), e))
                        } else {
                            None
                        },
                        None => None,
                    },
                }
            } else if 1 <= kind <= 3 {
                match spec_read_i16(bytes, p) {
                    None => None,
                    Some((_val, p1)) => match spec_read_i8(bytes, p1) {
                        None => None,
                        Some((_dty, p2)) => match spec_read_identity(bytes, p2) {
                            None => None,
                            Some((identity, p3)) => match spec_read_i32(bytes, p3) {
                                None => None,
                                Some((version, p4)) => match spec_read_bytes(bytes, p4) {
                                    None => None,
                                    Some((sub, e)) => match spec_parse_document(sub, 0) {
                                        Some((d, used)) => if used == sub.len() {
                                            Some(
                                                (
                                                    ResVal::Doc(
                                                        crate::value::DocVal {
                                                            record_id: identity,
                                                            version,
                                                            ..d
                                                        },
                                                    ),
                                                    e,
                                                ),
                                            )
                                        } else {
                                            None
                                        },
                                        None => None,
                                    },
                                },
                            },
                        },
                    },
                }
            } else {
                None
            }
        },
    }
}

/// `count` result rows in sequence.
pub open spec fn spec_parse_results(bytes: Seq<u8>, count: int, pos: int) -> Option<
    (Seq<ResVal>, int),
>
    decreases count,
{
    if pos < 0 {
        None
    } else if count <= 0 {
        Some((Seq::empty(), pos))
    } else {
        match spec_parse_result(bytes, pos) {
            None => None,
            Some((r, e)) => match spec_parse_results(bytes, count - 1, e) {
                Some((rest, e2)) => Some((seq![r] + rest, e2)),
                None => None,
            },
        }
    }
}

/// A query page: cursor id, change flag, optional execution plan, the row
/// count and rows, the has-next flag, an ignored statistics count, and a
/// trailing reload flag.
pub open spec fn spec_parse_query_payload(bytes: Seq<u8>, pos: int) -> Option<(QueryVal, int)> {
    match spec_read_string(bytes, pos) {
        None => None,
        Some((query_id, p1)) => match spec_read_bool(bytes, p1) {
            None => None,
            Some((tx_changes, p2)) => match spec_read_bool(bytes, p2) {
                None => None,
                Some((has_plan, p3)) => {
                    let plan_parse = if has_plan {
                        match spec_parse_result(bytes, p3) {
                            None => None,
                            Some((r, e)) => Some((Some(r), e)),
                        }
                    } else {
                        Some((None, p3))
                    };
                    match plan_parse {
                        None => None,
                        Some((execution_plan, p4)) => match spec_read_i32(bytes, p4) {
                            None => None,
                            Some((_prefetched, p5)) => match spec_read_i32(bytes, p5) {
                                None => None,
                                Some((n, p6)) => match spec_parse_results(bytes, n as int, p6) {
                                    None => None,
                                    Some((records, p7)) => match spec_read_bool(bytes, p7) {
                                        None => None,
                                        Some((has_next, p8)) => match spec_read_i32(bytes, p8) {
                                            None => None,
                                            Some((_stats, p9)) => match spec_read_bool(
                                                bytes,
                                                p9,
                                            ) {
                                                None => None,
                                                Some((_reload, e)) => Some(
                                                    (
                                                        QueryVal {
                                                            query_id,
                                                            tx_changes,
                                                            execution_plan,
                                                            records,
                                                            has_next,
                                                        },
                                                        e,
                                                    ),
                                                ),
                                            },
                                        },
                                    },
                                },
                            },
                        },
                    }
                },
            },
        },
    }
}

/// The chain of (type, message) entries of an error frame, each introduced
/// by a continuation flag.
pub open spec fn spec_parse_error_chain(bytes: Seq<u8>, pos: int) -> Option<
    (Seq<(Seq<char>, Seq<char>)>, int),
>
    decreases bytes.len() - pos,
{
    match spec_read_bool(bytes, pos) {
        None => None,
        Some((more, p)) => {
            if !more {
                Some((Seq::empty(), p))
            } else {
                match spec_read_string(bytes, p) {
                    None => None,
                    Some((err_t, p1)) => match spec_read_string(bytes, p1) {
                        None => None,
                        Some((err_m, p2)) => if p2 <= pos || p2 > bytes.len() {
                            None
                        } else {
                            match spec_parse_error_chain(bytes, p2) {
                                Some((rest, e)) => Some((seq![(err_t, err_m)] + rest, e)),
                                None => None,
                            }
                        },
                    },
                }
            }
        },
    }
}

/// A server error frame: code, identifier, the error chain, and the
/// serialised exception blob.
pub open spec fn spec_parse_errors(bytes: Seq<u8>, pos: int) -> Option<(ReqErrVal, int)> {
    match spec_read_i32(bytes, pos) {
        None => None,
        Some((code, p1)) => match spec_read_i32(bytes, p1) {
            None => None,
            Some((identifier, p2)) => match spec_parse_error_chain(bytes, p2) {
                None => None,
                Some((errors, p3)) => match spec_read_bytes(bytes, p3) {
                    None => None,
                    Some((serialized, e)) => Some(
                        (
                            ReqErrVal { session_id: -1i32, code, identifier, errors, serialized },
                            e,
                        ),
                    ),
                },
            },
        },
    }
}

/// `count` live events in sequence, each tagged 1 created, 2 updated (after
/// then before on the wire), 3 deleted.
pub open spec fn spec_parse_live_events(bytes: Seq<u8>, count: int, pos: int) -> Option<
    (Seq<LiveEventVal>, int),
>
    decreases count,
{
    if pos < 0 {
        None
    } else if count <= 0 {
        Some((Seq::empty(), pos))
    } else {
        match spec_read_i8(bytes, pos) {
            None => None,
            Some((etype, p)) => {
                if etype == 1 {
                    match spec_parse_result(bytes, p) {
                        None => None,
                        Some((r, e)) => match spec_parse_live_events(bytes, count - 1, e) {
                            Some((rest, e2)) => Some((seq![LiveEventVal::Created(r)] + rest, e2)),
                            None => None,
                        },
                    }
                } else if etype == 2 {
                    match spec_parse_result(bytes, p) {
                        None => None,
                        Some((after, e1)) => match spec_parse_result(bytes, e1) {
                            None => None,
                            Some((before, e)) => match spec_parse_live_events(
                                bytes,
                                count - 1,
                                e,
                            ) {
                                Some((rest, e2)) => Some(
                                    (seq![LiveEventVal::Updated(before, after)] + rest, e2),
                                ),
                                None => None,
                            },
                        },
                    }
                } else if etype == 3 {
                    match spec_parse_result(bytes, p) {
                        None => None,
                        Some((r, e)) => match spec_parse_live_events(bytes, count - 1, e) {
                            Some((rest, e2)) => Some((seq![LiveEventVal::Deleted(r)] + rest, e2)),
                            None => None,
                        },
                    }
                } else {
                    None
                }
            },
        }
    }
}

/// A push frame's body: push type, monitor id, a status byte of which 2
/// means the subscription ended, and the events.
pub open spec fn spec_parse_live_result(bytes: Seq<u8>, pos: int) -> Option<(LiveVal, int)> {
    match spec_read_i8(bytes, pos) {
        None => None,
        Some((_push_type, p1)) => match spec_read_i32(bytes, p1) {
            None => None,
            Some((monitor_id, p2)) => match spec_read_i8(bytes, p2) {
                None => None,
                Some((status, p3)) => match spec_read_i32(bytes, p3) {
                    None => None,
                    Some((n, p4)) => match spec_parse_live_events(bytes, n as int, p4) {
                        None => None,
                        Some((events, e)) => Some(
                            (LiveVal { monitor_id, ended: status == 2, events }, e),
                        ),
                    },
                },
            },
        },
    }
}

/// What a whole frame decodes to: a payload, or a server-reported error.
pub enum DecodedVal {
    Answer(HeaderVal, PayloadVal),
    ServerErr(ReqErrVal),
}

/// A whole frame: header, then a payload chosen by status and op byte.
pub open spec fn spec_decode_response(bytes: Seq<u8>, pos: int) -> Option<(DecodedVal, int)> {
    match spec_parse_header(bytes, pos) {
        None => None,
        Some((header, p)) => {
            if header.status == Status::ERROR {
                match spec_parse_errors(bytes, p) {
                    None => None,
                    Some((err, e)) => Some((DecodedVal::ServerErr(err), e)),
                }
            } else if header.status == Status::PUSH {
                match spec_parse_live_result(bytes, p) {
                    None => None,
                    Some((lv, e)) => Some(
                        (DecodedVal::Answer(header, PayloadVal::LiveQueryResult(lv)), e),
                    ),
                }
            } else if header.op == 2 {
                match spec_parse_session(bytes, p) {
                    None => None,
                    Some(((sid, tok), e)) => Some(
                        (DecodedVal::Answer(header, PayloadVal::Connect(sid, tok)), e),
                    ),
                }
            } else if header.op == 3 {
                match spec_parse_session(bytes, p) {
                    None => None,
                    Some(((sid, tok), e)) => Some(
                        (DecodedVal::Answer(header, PayloadVal::Open(sid, tok)), e),
                    ),
                }
            } else if header.op == 4 {
                Some((DecodedVal::Answer(header, PayloadVal::CreateDB), p))
            } else if header.op == 6 {
                match spec_read_bool(bytes, p) {
                    None => None,
                    Some((exist, e)) => Some(
                        (DecodedVal::Answer(header, PayloadVal::ExistDB(exist)), e),
                    ),
                }
            } else if header.op == 7 {
                Some((DecodedVal::Answer(header, PayloadVal::DropDB), p))
            } else if header.op == 45 || header.op == 47 {
                match spec_parse_query_payload(bytes, p) {
                    None => None,
                    Some((q, e)) => Some((DecodedVal::Answer(header, PayloadVal::Query(q)), e)),
                }
            } else if header.op == 46 {
                Some((DecodedVal::Answer(header, PayloadVal::QueryClose), p))
            } else if header.op == 50 {
                match spec_parse_query_payload(bytes, p) {
                    None => None,
                    Some((q, e)) => Some(
                        (DecodedVal::Answer(header, PayloadVal::ServerQuery(q)), e),
                    ),
                }
            } else if header.op == 100 {
                match spec_read_i32(bytes, p) {
                    None => None,
                    Some((monitor_id, e)) => Some(
                        (DecodedVal::Answer(header, PayloadVal::LiveQuery(monitor_id)), e),
                    ),
                }
            } else {
                None
            }
        },
    }
}

/// An answered frame's payload kind is a function of its op byte alone:
/// the op bytes 2, 3, 4, 6, 7, 45/47, 46, 50 and 100 map one to one onto the
/// payload kinds, and a push frame always carries live events.
pub proof fn lemma_response_payload_matches_op(bytes: Seq<u8>, pos: int)
    ensures
        spec_decode_response(bytes, pos) matches Some((DecodedVal::Answer(header, payload), _))
            ==> (match payload {
            PayloadVal::Connect(_, _) => header.status != Status::PUSH && header.op == 2,
            PayloadVal::Open(_, _) => header.status != Status::PUSH && header.op == 3,
            PayloadVal::CreateDB => header.status != Status::PUSH && header.op == 4,
            PayloadVal::ExistDB(_) => header.status != Status::PUSH && header.op == 6,
            PayloadVal::DropDB => header.status != Status::PUSH && header.op == 7,
            PayloadVal::Query(_) => header.status != Status::PUSH && (header.op == 45 || header.op
                == 47),
            PayloadVal::QueryClose => header.status != Status::PUSH && header.op == 46,
            PayloadVal::ServerQuery(_) => header.status != Status::PUSH && header.op == 50,
            PayloadVal::LiveQuery(_) => header.status != Status::PUSH && header.op == 100,
            PayloadVal::LiveQueryResult(_) => header.status == Status::PUSH,
            PayloadVal::Empty => false,
        }),
{
}

fn read_result(bytes: &[u8], pos: usize) -> (r: OrientResult<(OResult, usize)>)
    ensures
        match r {
            Ok((v, end)) => spec_parse_result(bytes@, pos as int) == Some((v@, end as int)) && pos
                < end <= bytes@.len(),
            Err(_) => spec_parse_result(bytes@, pos as int) is None,
        },
{
    let (kind, p) = reader::read_i8(bytes, pos)?;
    if kind == 4 {
        let (sub, e) = reader::read_bytes(bytes, p)?;
        let projection = crate::parser::decode_projection(sub.as_slice())?;
        Ok((OResult::from_projection(projection), e))
    } else if 1 <= kind && kind <= 3 {
        let (_val, p1) = reader::read_i16(bytes, p)?;
        let (_dty, p2) = reader::read_i8(bytes, p1)?;
        let (identity, p3) = reader::read_identity(bytes, p2)?;
        let (version, p4) = reader::read_i32(bytes, p3)?;
        let (sub, e) = reader::read_bytes(bytes, p4)?;
        let mut document = crate::parser::decode_document(sub.as_slice())?;
        document.set_record_id(identity);
        document.set_version(version);
        let res = OResult::from_document(kind, document)?;
        Ok((res, e))
    } else {
        Err(OrientError::Decoder("unsupported result kind".to_owned()))
    }
}

fn read_result_set(bytes: &[u8], count: i32, pos: usize) -> (r: OrientResult<
    (Vec<OResult>, usize),
>)
    requires
        pos <= bytes@.len(),
    ensures
        match r {
            Ok((vs, end)) => spec_parse_results(bytes@, count as int, pos as int) == Some(
                (results_model(vs@), end as int),
            ) && pos <= end <= bytes@.len(),
            Err(_) => spec_parse_results(bytes@, count as int, pos as int) is None,
        },
{
    broadcast use lemma_results_model;

    let mut out: Vec<OResult> = Vec::new();
    let mut p: usize = pos;
    let mut k: i32 = count;
    loop
        invariant
            pos <= p <= bytes@.len(),
            spec_parse_results(bytes@, count as int, pos as int) == (match spec_parse_results(
                bytes@,
                k as int,
                p as int,
            ) {
                Some((rest, e)) => Some((results_model(out@) + rest, e)),
                None => None,
            }),
        decreases (if k > 0 { k as int } else { 0int }),
    {
        if k <= 0 {
            proof {
                assert(results_model(out@) + Seq::<ResVal>::empty() =~= results_model(out@));
            }
            return Ok((out, p));
        }
        let res = read_result(bytes, p);
        match res {
            Ok((v, e)) => {
                let ghost old_out = out@;
                let ghost gv = v@;
                out.push(v);
                proof {
                    assert(out@.drop_last() =~= old_out);
                    assert(results_model(out@) =~= results_model(old_out) + seq![gv]);
                    assert forall|rest: Seq<ResVal>|
                        results_model(old_out) + (seq![gv] + rest) =~= results_model(out@)
                            + rest by {}
                }
                p = e;
                k = k - 1;
            },
            Err(err) => {
                return Err(err);
            },
        }
    }
}

/// Decode a response header at `pos`.
pub fn decode_header(bytes: &[u8], pos: usize) -> (r: OrientResult<(Header, usize)>)
    ensures
        match r {
            Ok((h, end)) => spec_parse_header(bytes@, pos as int) == Some((h@, end as int)) && pos
                < end <= bytes@.len(),
            Err(_) => spec_parse_header(bytes@, pos as int) is None,
        },
{
    let (status, p) = reader::read_i8(bytes, pos)?;
    if status == 3 {
        Ok(
            (
                Header {
                    status: Status::PUSH,
                    client_id: None,
                    session_id: -1,
                    token: None,
                    op: 100,
                },
                p,
            ),
        )
    } else {
        let (session_id, p1) = reader::read_i32(bytes, p)?;
        let (token, p2) = reader::read_optional_bytes(bytes, p1)?;
        let (op, p3) = reader::read_i8(bytes, p2)?;
        Ok((Header { status: Status::from_byte(status), client_id: None, session_id, token, op }, p3))
    }
}

/// Decode an Open payload.
pub fn decode_open(bytes: &[u8], pos: usize) -> (r: OrientResult<(Open, usize)>)
    ensures
        match r {
            Ok((o, end)) => spec_parse_session(bytes@, pos as int) matches Some(((sid, tok), e))
                && o.session_id == sid && (match o.token {
                Some(t) => tok == Some(t@),
                None => tok is None,
            }) && e == end && pos < end <= bytes@.len(),
            Err(_) => spec_parse_session(bytes@, pos as int) is None,
        },
{
    let (session_id, p) = reader::read_i32(bytes, pos)?;
    let (token, e) = reader::read_optional_bytes(bytes, p)?;
    Ok((Open::new(session_id, token), e))
}

/// Decode a Connect payload.
pub fn decode_connect(bytes: &[u8], pos: usize) -> (r: OrientResult<(Connect, usize)>)
    ensures
        match r {
            Ok((c, end)) => spec_parse_session(bytes@, pos as int) matches Some(((sid, tok), e))
                && c.session_id == sid && (match c.token {
                Some(t) => tok == Some(t@),
                None => tok is None,
            }) && e == end && pos < end <= bytes@.len(),
            Err(_) => spec_parse_session(bytes@, pos as int) is None,
        },
{
    let (session_id, p) = reader::read_i32(bytes, pos)?;
    let (token, e) = reader::read_optional_bytes(bytes, p)?;
    Ok((Connect::new(session_id, token), e))
}

/// Decode an ExistDB payload.
pub fn decode_exist(bytes: &[u8], pos: usize) -> (r: OrientResult<(ExistDB, usize)>)
    ensures
        match r {
            Ok((x, end)) => spec_read_bool(bytes@, pos as int) == Some((x.exist, end as int))
                && pos < end <= bytes@.len(),
            Err(_) => spec_read_bool(bytes@, pos as int) is None,
        },
{
    let (exist, e) = reader::read_bool(bytes, pos)?;
    Ok((ExistDB::new(exist), e))
}

/// Decode a query page payload.
pub fn decode_query(bytes: &[u8], pos: usize) -> (r: OrientResult<(Query, usize)>)
    ensures
        match r {
            Ok((q, end)) => spec_parse_query_payload(bytes@, pos as int) == Some(
                (q@, end as int),
            ) && pos < end <= bytes@.len() && q.stats@.len() == 0,
            Err(_) => spec_parse_query_payload(bytes@, pos as int) is None,
        },
{
    let (query_id, p1) = reader::read_string(bytes, pos)?;
    let (tx_changes, p2) = reader::read_bool(bytes, p1)?;
    let (has_plan, p3) = reader::read_bool(bytes, p2)?;
    let (execution_plan, p4) = if has_plan {
        let (plan, e) = read_result(bytes, p3)?;
        (Some(plan), e)
    } else {
        (None, p3)
    };
    let (_prefetched, p5) = reader::read_i32(bytes, p4)?;
    let (n, p6) = reader::read_i32(bytes, p5)?;
    let (records, p7) = read_result_set(bytes, n, p6)?;
    let (has_next, p8) = reader::read_bool(bytes, p7)?;
    let (_stats, p9) = reader::read_i32(bytes, p8)?;
    let (_reload, e) = reader::read_bool(bytes, p9)?;
    let q = Query {
        query_id,
        tx_changes,
        execution_plan,
        records,
        has_next,
        stats: Vec::new(),
    };
    Ok((q, e))
}

/// Decode a server-scoped query page payload.
pub fn decode_server_query(bytes: &[u8], pos: usize) -> (r: OrientResult<(ServerQuery, usize)>)
    ensures
        match r {
            Ok((q, end)) => spec_parse_query_payload(bytes@, pos as int) == Some(
                (q@, end as int),
            ) && pos < end <= bytes@.len() && q.stats@.len() == 0,
            Err(_) => spec_parse_query_payload(bytes@, pos as int) is None,
        },
{
    let (query_id, p1) = reader::read_string(bytes, pos)?;
    let (tx_changes, p2) = reader::read_bool(bytes, p1)?;
    let (has_plan, p3) = reader::read_bool(bytes, p2)?;
    let (execution_plan, p4) = if has_plan {
        let (plan, e) = read_result(bytes, p3)?;
        (Some(plan), e)
    } else {
        (None, p3)
    };
    let (_prefetched, p5) = reader::read_i32(bytes, p4)?;
    let (n, p6) = reader::read_i32(bytes, p5)?;
    let (records, p7) = read_result_set(bytes, n, p6)?;
    let (has_next, p8) = reader::read_bool(bytes, p7)?;
    let (_stats, p9) = reader::read_i32(bytes, p8)?;
    let (_reload, e) = reader::read_bool(bytes, p9)?;
    let q = ServerQuery {
        query_id,
        tx_changes,
        execution_plan,
        records,
        has_next,
        stats: Vec::new(),
    };
    Ok((q, e))
}

/// Any failure of the frame parsers; never a server-reported request error.
fn non_request(e: OrientError) -> (r: OrientError)
    ensures
        !(r is Request),
{
    match e {
        OrientError::Request(_) => OrientError::Decoder("malformed error frame".to_owned()),
        other => other,
    }
}

/// Decode a server error frame body.
#[verifier::loop_isolation(false)]
pub fn decode_errors(bytes: &[u8], pos: usize) -> (r: OrientResult<(RequestError, usize)>)
    ensures
        match r {
            Ok((re, end)) => spec_parse_errors(bytes@, pos as int) == Some(
                (req_err_model(re), end as int),
            ) && pos < end <= bytes@.len(),
            Err(_) => spec_parse_errors(bytes@, pos as int) is None,
        },
{
    broadcast use crate::error::lemma_oerrors_model;

    let (code, p1) = reader::read_i32(bytes, pos)?;
    let (identifier, p2) = reader::read_i32(bytes, p1)?;
    let mut errors: Vec<OError> = Vec::new();
    let mut p: usize = p2;
    loop
        invariant
            p2 <= p <= bytes@.len(),
            spec_parse_error_chain(bytes@, p2 as int) == (match spec_parse_error_chain(
                bytes@,
                p as int,
            ) {
                Some((rest, e)) => Some((crate::error::oerrors_model(errors@) + rest, e)),
                None => None,
            }),
        decreases bytes@.len() - p,
    {
        let (more, pm) = reader::read_bool(bytes, p)?;
        if !more {
            proof {
                assert(crate::error::oerrors_model(errors@) + Seq::<(Seq<char>, Seq<char>)>::empty()
                    =~= crate::error::oerrors_model(errors@));
            }
            let (serialized, e) = reader::read_bytes(bytes, pm)?;
            let re = RequestError {
                session_id: -1,
                code,
                identifier,
                errors,
                serialized,
            };
            return Ok((re, e));
        }
        let (err_t, pt) = reader::read_string(bytes, pm)?;
        let (err_m, pv) = reader::read_string(bytes, pt)?;
        let ghost old_errors = errors@;
        let ghost gt = err_t@;
        let ghost gm = err_m@;
        errors.push(OError::new(err_t, err_m));
        proof {
            assert(errors@.drop_last() =~= old_errors);
            assert(crate::error::oerrors_model(errors@) =~= crate::error::oerrors_model(
                old_errors,
            ) + seq![(gt, gm)]);
            assert forall|rest: Seq<(Seq<char>, Seq<char>)>|
                crate::error::oerrors_model(old_errors) + (seq![(gt, gm)] + rest)
                    =~= crate::error::oerrors_model(errors@) + rest by {}
        }
        p = pv;
    }
}

/// Decode a live-query push frame body.
#[verifier::loop_isolation(false)]
#[verifier::rlimit(60)]
pub fn decode_live_query_result(bytes: &[u8], pos: usize) -> (r: OrientResult<
    (LiveQueryResult, usize),
>)
    ensures
        match r {
            Ok((lv, end)) => spec_parse_live_result(bytes@, pos as int) == Some(
                (lv@, end as int),
            ) && pos < end <= bytes@.len(),
            Err(_) => spec_parse_live_result(bytes@, pos as int) is None,
        },
{
    broadcast use lemma_events_model;

    let (_push_type, p1) = reader::read_i8(bytes, pos)?;
    let (monitor_id, p2) = reader::read_i32(bytes, p1)?;
    let (status, p3) = reader::read_i8(bytes, p2)?;
    let (n, p4) = reader::read_i32(bytes, p3)?;
    let mut events: Vec<LiveResult> = Vec::new();
    let mut p: usize = p4;
    let mut k: i32 = n;
    loop
        invariant
            p4 <= p <= bytes@.len(),
            spec_parse_live_events(bytes@, n as int, p4 as int) == (match spec_parse_live_events(
                bytes@,
                k as int,
                p as int,
            ) {
                Some((rest, e)) => Some((events_model(events@) + rest, e)),
                None => None,
            }),
        decreases (if k > 0 { k as int } else { 0int }),
    {
        if k <= 0 {
            proof {
                assert(events_model(events@) + Seq::<LiveEventVal>::empty() =~= events_model(
                    events@,
                ));
            }
            return Ok((LiveQueryResult::new(monitor_id, status == 2, events), p));
        }
        let (etype, pe) = reader::read_i8(bytes, p)?;
        let event: LiveResult;
        let after_pos: usize;
        if etype == 1 {
            let (res, e) = read_result(bytes, pe)?;
            event = LiveResult::Created(res);
            after_pos = e;
        } else if etype == 2 {
            let (after, e1) = read_result(bytes, pe)?;
            let (before, e) = read_result(bytes, e1)?;
            event = LiveResult::Updated((before, after));
            after_pos = e;
        } else if etype == 3 {
            let (res, e) = read_result(bytes, pe)?;
            event = LiveResult::Deleted(res);
            after_pos = e;
        } else {
            return Err(OrientError::Decoder("unsupported live event kind".to_owned()));
        }
        let ghost old_events = events@;
        let ghost gv = event_model(event);
        events.push(event);
        proof {
            assert(events@.drop_last() =~= old_events);
            assert(events_model(events@) =~= events_model(old_events) + seq![gv]);
            assert forall|rest: Seq<LiveEventVal>|
                events_model(old_events) + (seq![gv] + rest) =~= events_model(events@) + rest by {}
        }
        p = after_pos;
        k = k - 1;
    }
}

/// Decode one whole response frame: the header, then the payload its status
/// and op byte call for.  A server error frame surfaces as a request error;
/// a frame the parsers refuse surfaces as a decoder error.
#[verifier::rlimit(80)]
pub fn decode_response(bytes: &[u8], pos: usize) -> (r: OrientResult<(Response, usize)>)
    ensures
        match r {
            Ok((resp, end)) => spec_decode_response(bytes@, pos as int) == Some(
                (DecodedVal::Answer(resp.header@, resp.payload@), end as int),
            ) && pos < end <= bytes@.len(),
            Err(e) => match e {
                OrientError::Request(re) => spec_decode_response(bytes@, pos as int) matches Some(
                    (DecodedVal::ServerErr(rev), _),
                ) && rev == req_err_model(re),
                _ => spec_decode_response(bytes@, pos as int) is None,
            },
        },
{
    let (header, p) = match decode_header(bytes, pos) {
        Ok(v) => v,
        Err(e) => {
            return Err(non_request(e));
        },
    };
    if matches!(header.status, Status::ERROR) {
        let (re, _e) = match decode_errors(bytes, p) {
            Ok(v) => v,
            Err(e) => {
                return Err(non_request(e));
            },
        };
        return Err(OrientError::Request(re));
    }
    if matches!(header.status, Status::PUSH) {
        let (lv, e) = match decode_live_query_result(bytes, p) {
            Ok(v) => v,
            Err(e) => {
                return Err(non_request(e));
            },
        };
        return Ok((Response { header, payload: ResponseType::LiveQueryResult(lv) }, e));
    }
    let op = header.op;
    if op == 2 {
        match decode_connect(bytes, p) {
            Ok((c, e)) => Ok((Response { header, payload: ResponseType::Connect(c) }, e)),
            Err(e) => Err(non_request(e)),
        }
    } else if op == 3 {
        match decode_open(bytes, p) {
            Ok((o, e)) => Ok((Response { header, payload: ResponseType::Open(o) }, e)),
            Err(e) => Err(non_request(e)),
        }
    } else if op == 4 {
        Ok((Response { header, payload: ResponseType::CreateDB }, p))
    } else if op == 6 {
        match decode_exist(bytes, p) {
            Ok((x, e)) => Ok((Response { header, payload: ResponseType::ExistDB(x) }, e)),
            Err(e) => Err(non_request(e)),
        }
    } else if op == 7 {
        Ok((Response { header, payload: ResponseType::DropDB }, p))
    } else if op == 45 || op == 47 {
        match decode_query(bytes, p) {
            Ok((q, e)) => Ok((Response { header, payload: ResponseType::Query(q) }, e)),
            Err(e) => Err(non_request(e)),
        }
    } else if op == 46 {
        Ok((Response { header, payload: ResponseType::QueryClose }, p))
    } else if op == 50 {
        match decode_server_query(bytes, p) {
            Ok((q, e)) => Ok((Response { header, payload: ResponseType::ServerQuery(q) }, e)),
            Err(e) => Err(non_request(e)),
        }
    } else if op == 100 {
        match reader::read_i32(bytes, p) {
            Ok((monitor_id, e)) => Ok(
                (Response { header, payload: ResponseType::LiveQuery(LiveQuery { monitor_id }) }, e),
            ),
            Err(e) => Err(non_request(e)),
        }
    } else {
        Err(OrientError::Protocol("unsupported response op".to_owned()))
    }
}

} // verus!
