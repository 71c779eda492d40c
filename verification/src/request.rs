use vstd::prelude::*;
use crate::options::DatabaseType;
use crate::value::OValue;

verus! {

/// First message on a fresh connection: protocol version and client naming.
/// The server does not answer it.
#[derive(Debug)]
pub struct HandShake {
    pub p_version: i16,
    pub name: String,
    pub version: String,
}

impl HandShake {
    pub fn new(p_version: i16, name: &str, version: &str) -> (r: HandShake)
        ensures
            r.p_version == p_version,
            r.name@ == name@,
            r.version@ == version@,
    {
        HandShake { p_version, name: name.to_owned(), version: version.to_owned() }
    }
}

/// Session header carried by the administrative requests: the session id and
/// the token issued on connect, if any.
#[derive(Debug)]
pub struct MsgHeader {
    pub session_id: i32,
    pub token: Option<Vec<u8>>,
}

impl MsgHeader {
    pub fn new(session_id: i32, token: Option<Vec<u8>>) -> (r: MsgHeader)
        ensures
            r.session_id == session_id,
            r.token == token,
    {
        MsgHeader { session_id, token }
    }
}

/// Open a server-wide administrative session.
#[derive(Debug)]
pub struct Connect {
    pub username: String,
    pub password: String,
}

impl Connect {
    pub fn new(username: &str, password: &str) -> (r: Connect)
        ensures
            r.username@ == username@,
            r.password@ == password@,
    {
        Connect { username: username.to_owned(), password: password.to_owned() }
    }
}

/// Open a session on one database.
#[derive(Debug)]
pub struct Open {
    pub db: String,
    pub username: String,
    pub password: String,
}

impl Open {
    pub fn new(db: &str, username: &str, password: &str) -> (r: Open)
        ensures
            r.db@ == db@,
            r.username@ == username@,
            r.password@ == password@,
    {
        Open {
            db: db.to_owned(),
            username: username.to_owned(),
            password: password.to_owned(),
        }
    }
}

/// Subscribe to a live query.
#[derive(Debug)]
pub struct LiveQuery {
    pub session_id: i32,
    pub token: Option<Vec<u8>>,
    pub query: String,
    pub parameters: Vec<(String, OValue)>,
    pub named: bool,
}

impl LiveQuery {
    pub fn new(
        session_id: i32,
        token: Option<Vec<u8>>,
        query: &str,
        parameters: Vec<(String, OValue)>,
        named: bool,
    ) -> (r: LiveQuery)
        ensures
            r.session_id == session_id,
            r.token == token,
            r.query@ == query@,
            r.parameters == parameters,
            r.named == named,
    {
        LiveQuery { session_id, token, query: query.to_owned(), parameters, named }
    }
}

/// Tear down a live-query subscription by its monitor id.
#[derive(Debug)]
pub struct UnsubscribeLiveQuery {
    pub session_id: i32,
    pub token: Option<Vec<u8>>,
    pub monitor_id: i32,
}

impl UnsubscribeLiveQuery {
    pub fn new(session_id: i32, token: Option<Vec<u8>>, monitor_id: i32) -> (r:
        UnsubscribeLiveQuery)
        ensures
            r.session_id == session_id,
            r.token == token,
            r.monitor_id == monitor_id,
    {
        UnsubscribeLiveQuery { session_id, token, monitor_id }
    }
}

/// Run a query, command or script and open a paged result cursor.
#[derive(Debug)]
pub struct Query {
    pub session_id: i32,
    pub token: Option<Vec<u8>>,
    pub query: String,
    pub parameters: Vec<(String, OValue)>,
    pub named: bool,
    pub language: String,
    pub mode: i8,
    pub page_size: i32,
}

impl Query {
    pub fn new(
        session_id: i32,
        token: Option<Vec<u8>>,
        query: &str,
        parameters: Vec<(String, OValue)>,
        named: bool,
        language: &str,
        mode: i8,
        page_size: i32,
    ) -> (r: Query)
        ensures
            r.session_id == session_id,
            r.token == token,
            r.query@ == query@,
            r.parameters == parameters,
            r.named == named,
            r.language@ == language@,
            r.mode == mode,
            r.page_size == page_size,
    {
        Query {
            session_id,
            token,
            query: query.to_owned(),
            parameters,
            named,
            language: language.to_owned(),
            mode,
            page_size,
        }
    }
}

/// Close a session.  The server sends no reply.
#[derive(Debug)]
pub struct Close {
    pub session_id: i32,
    pub token: Option<Vec<u8>>,
}

impl Close {
    pub fn new(session_id: i32, token: Option<Vec<u8>>) -> (r: Close)
        ensures
            r.session_id == session_id,
            r.token == token,
    {
        Close { session_id, token }
    }
}

/// Ask an open cursor for its next page.
#[derive(Debug)]
pub struct QueryNext {
    pub session_id: i32,
    pub token: Option<Vec<u8>>,
    pub query_id: String,
    pub page_size: i32,
}

impl QueryNext {
    pub fn new(session_id: i32, token: Option<Vec<u8>>, query_id: &str, page_size: i32) -> (r:
        QueryNext)
        ensures
            r.session_id == session_id,
            r.token == token,
            r.query_id@ == query_id@,
            r.page_size == page_size,
    {
        QueryNext { session_id, token, query_id: query_id.to_owned(), page_size }
    }
}

/// Close a server-side cursor before it is drained.
#[derive(Debug)]
pub struct QueryClose {
    pub session_id: i32,
    pub token: Option<Vec<u8>>,
    pub query_id: String,
}

impl QueryClose {
    pub fn new(session_id: i32, token: Option<Vec<u8>>, query_id: &str) -> (r: QueryClose)
        ensures
            r.session_id == session_id,
            r.token == token,
            r.query_id@ == query_id@,
    {
        QueryClose { session_id, token, query_id: query_id.to_owned() }
    }
}

/// Create a database, administratively.
#[derive(Debug)]
pub struct CreateDB {
    pub header: MsgHeader,
    pub name: String,
    pub db_mode: DatabaseType,
    pub backup: Option<String>,
}

impl CreateDB {
    pub fn new(header: MsgHeader, name: &str, db_mode: DatabaseType) -> (r: CreateDB)
        ensures
            r.header == header,
            r.name@ == name@,
            r.db_mode == db_mode,
            r.backup is None,
    {
        CreateDB { header, name: name.to_owned(), db_mode, backup: None }
    }
}

/// Ask whether a database exists, administratively.
#[derive(Debug)]
pub struct ExistDB {
    pub header: MsgHeader,
    pub name: String,
    pub db_mode: DatabaseType,
}

impl ExistDB {
    pub fn new(header: MsgHeader, name: &str, db_mode: DatabaseType) -> (r: ExistDB)
        ensures
            r.header == header,
            r.name@ == name@,
            r.db_mode == db_mode,
    {
        ExistDB { header, name: name.to_owned(), db_mode }
    }
}

/// Drop a database, administratively.
#[derive(Debug)]
pub struct DropDB {
    pub header: MsgHeader,
    pub name: String,
    pub db_mode: DatabaseType,
}

impl DropDB {
    pub fn new(header: MsgHeader, name: &str, db_mode: DatabaseType) -> (r: DropDB)
        ensures
            r.header == header,
            r.name@ == name@,
            r.db_mode == db_mode,
    {
        DropDB { header, name: name.to_owned(), db_mode }
    }
}

/// Run a server-scoped query, administratively.
#[derive(Debug)]
pub struct ServerQuery {
    pub session_id: i32,
    pub token: Option<Vec<u8>>,
    pub query: String,
    pub parameters: Vec<(String, OValue)>,
    pub named: bool,
    pub language: String,
    pub mode: i8,
    pub page_size: i32,
}

impl ServerQuery {
    pub fn new(
        session_id: i32,
        token: Option<Vec<u8>>,
        query: &str,
        parameters: Vec<(String, OValue)>,
        named: bool,
        language: &str,
        mode: i8,
        page_size: i32,
    ) -> (r: ServerQuery)
        ensures
            r.session_id == session_id,
            r.token == token,
            r.query@ == query@,
            r.parameters == parameters,
            r.named == named,
            r.language@ == language@,
            r.mode == mode,
            r.page_size == page_size,
    {
        ServerQuery {
            session_id,
            token,
            query: query.to_owned(),
            parameters,
            named,
            language: language.to_owned(),
            mode,
            page_size,
        }
    }
}

/// Every request the driver can send.
#[derive(Debug)]
pub enum Request {
    HandShake(HandShake),
    Connect(Connect),
    CreateDB(CreateDB),
    ExistDB(ExistDB),
    DropDB(DropDB),
    ServerQuery(ServerQuery),
    Open(Open),
    Query(Query),
    LiveQuery(LiveQuery),
    UnsubscribeLiveQuery(UnsubscribeLiveQuery),
    QueryNext(QueryNext),
    QueryClose(QueryClose),
    Close(Close),
}

impl Request {
    /// Whether the server answers this request with a frame of its own:
    /// everything but Close and HandShake is answered.
    pub fn need_response(&self) -> (r: bool)
        ensures
            r == self.need_response_spec(),
    {
        match self {
            Request::Close(_) => false,
            _ => true,
        }
    }

    pub open spec fn need_response_spec(&self) -> bool {
        !(self is Close)
    }

    /// The op byte a response to this request carries; meaningful for the
    /// requests that are answered.
    pub open spec fn expected_op(&self) -> i8 {
        match self {
            Request::HandShake(_) => 20,
            Request::Connect(_) => 2,
            Request::Open(_) => 3,
            Request::CreateDB(_) => 4,
            Request::Close(_) => 5,
            Request::ExistDB(_) => 6,
            Request::DropDB(_) => 7,
            Request::Query(_) => 45,
            Request::QueryClose(_) => 46,
            Request::QueryNext(_) => 47,
            Request::ServerQuery(_) => 50,
            Request::LiveQuery(_) => 100,
            Request::UnsubscribeLiveQuery(_) => 101,
        }
    }
}

} // verus!
