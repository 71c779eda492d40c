use vstd::prelude::*;
use crate::result::{LiveResult, OResult, ResVal};

verus! {

/// Outcome class of a frame: 0 is OK, 3 is a server push, anything else is
/// an error frame.
#[derive(Debug, Clone, Copy, PartialEq, Eq, Structural)]
pub enum Status {
    OK,
    ERROR,
    PUSH,
}

impl Status {
    pub open spec fn from_spec(status: i8) -> Status {
        if status == 0 {
            Status::OK
        } else if status == 3 {
            Status::PUSH
        } else {
            Status::ERROR
        }
    }

    pub fn from_byte(status: i8) -> (r: Status)
        ensures
            r == Status::from_spec(status),
    {
        if status == 0 {
            Status::OK
        } else if status == 3 {
            Status::PUSH
        } else {
            Status::ERROR
        }
    }
}

/// Mathematical shape of a response header.
pub struct HeaderVal {
    pub status: Status,
    pub session_id: i32,
    pub token: Option<Seq<u8>>,
    pub op: i8,
}

/// Header of a response frame.  On a push frame only the status byte is on
/// the wire; the other fields read as their defaults.
#[derive(Debug)]
pub struct Header {
    pub status: Status,
    pub client_id: Option<i32>,
    pub session_id: i32,
    pub token: Option<Vec<u8>>,
    pub op: i8,
}

impl View for Header {
    type V = HeaderVal;

    open spec fn view(&self) -> HeaderVal {
        HeaderVal {
            status: self.status,
            session_id: self.session_id,
            token: match self.token {
                Some(t) => Some(t@),
                None => None,
            },
            op: self.op,
        }
    }
}

/// Payload of a successful Open: the new session and its token.
#[derive(Debug)]
pub struct Open {
    pub session_id: i32,
    pub token: Option<Vec<u8>>,
}

impl Open {
    pub fn new(session_id: i32, token: Option<Vec<u8>>) -> (r: Open)
        ensures
            r.session_id == session_id,
            r.token == token,
    {
        Open { session_id, token }
    }
}

/// Payload of a successful Connect: the admin session and its token.
#[derive(Debug)]
pub struct Connect {
    pub session_id: i32,
    pub token: Option<Vec<u8>>,
}

impl Connect {
    pub fn new(session_id: i32, token: Option<Vec<u8>>) -> (r: Connect)
        ensures
            r.session_id == session_id,
            r.token == token,
    {
        Connect { session_id, token }
    }
}

/// Mathematical shape of a query response page.
pub struct QueryVal {
    pub query_id: Seq<char>,
    pub tx_changes: bool,
    pub execution_plan: Option<ResVal>,
    pub records: Seq<ResVal>,
    pub has_next: bool,
}

/// One page of a query's results, with the server-side cursor id and the
/// flag that more pages wait.
#[derive(Debug)]
pub struct Query {
    pub query_id: String,
    pub tx_changes: bool,
    pub execution_plan: Option<OResult>,
    pub records: Vec<OResult>,
    pub has_next: bool,
    pub stats: Vec<(String, i64)>,
}

impl View for Query {
    type V = QueryVal;

    open spec fn view(&self) -> QueryVal {
        QueryVal {
            query_id: self.query_id@,
            tx_changes: self.tx_changes,
            execution_plan: match self.execution_plan {
                Some(p) => Some(p@),
                None => None,
            },
            records: crate::decoder::results_model(self.records@),
            has_next: self.has_next,
        }
    }
}

impl Query {
    pub fn new(
        query_id: &str,
        tx_changes: bool,
        execution_plan: Option<OResult>,
        records: Vec<OResult>,
        has_next: bool,
        stats: Vec<(String, i64)>,
    ) -> (r: Query)
        ensures
            r.query_id@ == query_id@,
            r.tx_changes == tx_changes,
            r.execution_plan == execution_plan,
            r.records == records,
            r.has_next == has_next,
            r.stats == stats,
    {
        Query {
            query_id: query_id.to_owned(),
            tx_changes,
            execution_plan,
            records,
            has_next,
            stats,
        }
    }
}

/// One page of a server-scoped query's results.
#[derive(Debug)]
pub struct ServerQuery {
    pub query_id: String,
    pub tx_changes: bool,
    pub execution_plan: Option<OResult>,
    pub records: Vec<OResult>,
    pub has_next: bool,
    pub stats: Vec<(String, i64)>,
}

impl View for ServerQuery {
    type V = QueryVal;

    open spec fn view(&self) -> QueryVal {
        QueryVal {
            query_id: self.query_id@,
            tx_changes: self.tx_changes,
            execution_plan: match self.execution_plan {
                Some(p) => Some(p@),
                None => None,
            },
            records: crate::decoder::results_model(self.records@),
            has_next: self.has_next,
        }
    }
}

impl ServerQuery {
    pub fn new(
        query_id: &str,
        tx_changes: bool,
        execution_plan: Option<OResult>,
        records: Vec<OResult>,
        has_next: bool,
        stats: Vec<(String, i64)>,
    ) -> (r: ServerQuery)
        ensures
            r.query_id@ == query_id@,
            r.tx_changes == tx_changes,
            r.execution_plan == execution_plan,
            r.records == records,
            r.has_next == has_next,
            r.stats == stats,
    {
        ServerQuery {
            query_id: query_id.to_owned(),
            tx_changes,
            execution_plan,
            records,
            has_next,
            stats,
        }
    }
}

/// Payload of ExistDB: whether the database exists.
#[derive(Debug)]
pub struct ExistDB {
    pub exist: bool,
}

impl ExistDB {
    pub fn new(exist: bool) -> (r: ExistDB)
        ensures
            r.exist == exist,
    {
        ExistDB { exist }
    }
}

/// Payload of a successful live-query subscription: the monitor id.
#[derive(Debug)]
pub struct LiveQuery {
    pub monitor_id: i32,
}

/// Mathematical shape of a live-query push frame.
pub struct LiveVal {
    pub monitor_id: i32,
    pub ended: bool,
    pub events: Seq<LiveEventVal>,
}

/// Mathematical shape of one live event.
pub enum LiveEventVal {
    Created(ResVal),
    Updated(ResVal, ResVal),
    Deleted(ResVal),
}

/// A push frame: the subscription it belongs to, whether it ends it, and
/// its events in order.
#[derive(Debug)]
pub struct LiveQueryResult {
    pub monitor_id: i32,
    pub ended: bool,
    pub events: Vec<LiveResult>,
}

impl LiveQueryResult {
    pub fn new(monitor_id: i32, ended: bool, events: Vec<LiveResult>) -> (r: LiveQueryResult)
        ensures
            r.monitor_id == monitor_id,
            r.ended == ended,
            r.events == events,
    {
        LiveQueryResult { monitor_id, ended, events }
    }
}

impl View for LiveQueryResult {
    type V = LiveVal;

    open spec fn view(&self) -> LiveVal {
        LiveVal {
            monitor_id: self.monitor_id,
            ended: self.ended,
            events: crate::decoder::events_model(self.events@),
        }
    }
}

/// Every payload a response frame can carry.
#[derive(Debug)]
pub enum ResponseType {
    Empty,
    Open(Open),
    Connect(Connect),
    Query(Query),
    CreateDB,
    ExistDB(ExistDB),
    DropDB,
    ServerQuery(ServerQuery),
    LiveQuery(LiveQuery),
    LiveQueryResult(LiveQueryResult),
    QueryClose,
}

/// Mathematical shape of a payload.
pub enum PayloadVal {
    Empty,
    Open(i32, Option<Seq<u8>>),
    Connect(i32, Option<Seq<u8>>),
    Query(QueryVal),
    CreateDB,
    ExistDB(bool),
    DropDB,
    ServerQuery(QueryVal),
    LiveQuery(i32),
    LiveQueryResult(LiveVal),
    QueryClose,
}

impl View for ResponseType {
    type V = PayloadVal;

    open spec fn view(&self) -> PayloadVal {
        match self {
            ResponseType::Empty => PayloadVal::Empty,
            ResponseType::Open(o) => PayloadVal::Open(
                o.session_id,
                match o.token {
                    Some(t) => Some(t@),
                    None => None,
                },
            ),
            ResponseType::Connect(c) => PayloadVal::Connect(
                c.session_id,
                match c.token {
                    Some(t) => Some(t@),
                    None => None,
                },
            ),
            ResponseType::Query(q) => PayloadVal::Query(q@),
            ResponseType::CreateDB => PayloadVal::CreateDB,
            ResponseType::ExistDB(e) => PayloadVal::ExistDB(e.exist),
            ResponseType::DropDB => PayloadVal::DropDB,
            ResponseType::ServerQuery(q) => PayloadVal::ServerQuery(q@),
            ResponseType::LiveQuery(l) => PayloadVal::LiveQuery(l.monitor_id),
            ResponseType::LiveQueryResult(l) => PayloadVal::LiveQueryResult(l@),
            ResponseType::QueryClose => PayloadVal::QueryClose,
        }
    }
}

/// A whole decoded response frame.
#[derive(Debug)]
pub struct Response {
    pub header: Header,
    pub payload: ResponseType,
}

impl Response {
    pub fn new(header: Header, payload: ResponseType) -> (r: Response)
        ensures
            r.header@ == header@,
            r.payload@ == payload@,
    {
        Response { header, payload }
    }

    /// A placeholder frame: OK status, no session, empty payload.
    pub fn empty() -> (r: Response)
        ensures
            r.header@.status == Status::OK,
            r.header@.session_id == -1i32,
            r.header@.token is None,
            r.header@.op == -1i8,
            r.payload@ == PayloadVal::Empty,
    {
        Response {
            header: Header {
                status: Status::OK,
                client_id: None,
                session_id: -1,
                token: None,
                op: -1,
            },
            payload: ResponseType::Empty,
        }
    }
}

} // verus!
