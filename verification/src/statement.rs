use vstd::prelude::*;
use crate::cursor::{clone_token, token_matches};
use crate::request;
use crate::session::OSession;
use crate::strutil::{dec_digits, u64_to_string};
use crate::value::{entries_model, lemma_entries_model, OValue, Val};

verus! {

broadcast use lemma_entries_model;

/// The parameter map of a positional binding: each value under its decimal
/// index as its name.
pub open spec fn positional_entries(params: Seq<Val>) -> Seq<(Seq<char>, Val)> {
    Seq::new(params.len(), |i: int| (dec_digits(i as nat), params[i]))
}

/// Build the positional parameter entries: value k goes under the name "k".
pub fn positional_params(params: Vec<OValue>) -> (r: Vec<(String, OValue)>)
    ensures
        entries_model(r@) == positional_entries(crate::value::list_model(params@)),
{
    let ghost ps = crate::value::list_model(params@);
    proof {
        crate::value::lemma_list_model(params@);
    }
    let mut out: Vec<(String, OValue)> = Vec::new();
    let total: usize = params.len();
    let mut rest = params;
    let mut i: usize = 0;
    proof {
        assert(crate::value::list_model(rest@) =~= ps.skip(0));
    }
    while rest.len() > 0
        invariant
            i + rest@.len() == ps.len(),
            ps.len() == total,
            out@.len() == i,
            crate::value::list_model(rest@) == ps.skip(i as int),
            forall|j: int|
                #![trigger out@[j]]
                0 <= j < i ==> out@[j].0@ == dec_digits(j as nat) && out@[j].1@ == ps[j],
        decreases rest@.len(),
    {
        let ghost rest_before = rest@;
        proof {
            crate::value::lemma_list_model(rest_before);
            assert(crate::value::value_model(rest_before[0]) == ps.skip(i as int)[0]);
            assert(ps.skip(i as int)[0] == ps[i as int]);
        }
        let v = rest.remove(0);
        proof {
            assert(rest@ =~= rest_before.drop_first());
            crate::value::lemma_list_model(rest@);
            crate::value::lemma_list_model(rest_before);
            assert(crate::value::list_model(rest@) =~= ps.skip(i + 1)) by {
                assert forall|k: int| 0 <= k < rest@.len() implies crate::value::list_model(
                    rest@,
                )[k] == ps.skip(i + 1)[k] by {
                    assert(rest@[k] == rest_before[k + 1]);
                    assert(crate::value::list_model(rest_before)[k + 1]
                        == crate::value::value_model(rest_before[k + 1]));
                    assert(ps.skip(i + 1)[k] == ps[i + 1 + k]);
                    assert(ps.skip(i as int)[k + 1] == ps[i + 1 + k]);
                }
            }
        }
        let name = u64_to_string(i as u64);
        out.push((name, v));
        i = i + 1;
    }
    proof {
        assert(entries_model(out@) =~= positional_entries(ps));
    }
    out
}

/// Builder of a query, command or script against one session: the text, its
/// parameters, the language, the page size and the execution mode.
#[derive(Debug)]
pub struct Statement {
    pub session_id: i32,
    pub token: Option<Vec<u8>>,
    pub stm: String,
    pub params: Vec<(String, OValue)>,
    pub language: String,
    pub page_size: i32,
    pub mode: i8,
    pub named: bool,
}

impl Statement {
    /// A fresh statement: no parameters, language `sql`, page size 150,
    /// idempotent mode.
    pub fn new(session: &OSession, stm: &str) -> (r: Statement)
        ensures
            r.session_id == session.session_id,
            token_matches(&session.token, &r.token),
            r.stm@ == stm@,
            r.params@.len() == 0,
            r.language@ == "sql"@,
            r.page_size == 150,
            r.mode == 1,
            r.named,
    {
        Statement {
            session_id: session.session_id,
            token: clone_token(&session.token),
            stm: stm.to_owned(),
            params: Vec::new(),
            language: "sql".to_owned(),
            page_size: 150,
            mode: 1,
            named: true,
        }
    }

    pub fn mode(self, mode: i8) -> (r: Statement)
        ensures
            r == (Statement { mode, ..self }),
    {
        let mut s = self;
        s.mode = mode;
        s
    }

    pub fn language(self, language: &str) -> (r: Statement)
        ensures
            r.language@ == language@,
            r == (Statement { language: r.language, ..self }),
    {
        let mut s = self;
        s.language = language.to_owned();
        s
    }

    /// Bind positional parameters: value k under the name "k".
    pub fn positional(self, params: Vec<OValue>) -> (r: Statement)
        ensures
            entries_model(r.params@) == positional_entries(crate::value::list_model(params@)),
            !r.named,
            r.session_id == self.session_id,
            r.token == self.token,
            r.stm == self.stm,
            r.language == self.language,
            r.page_size == self.page_size,
            r.mode == self.mode,
    {
        let mut s = self;
        s.params = positional_params(params);
        s.named = false;
        s
    }

    /// Bind named parameters.
    pub fn named(self, params: Vec<(String, OValue)>) -> (r: Statement)
        ensures
            r.params == params,
            r.named,
            r.session_id == self.session_id,
            r.token == self.token,
            r.stm == self.stm,
            r.language == self.language,
            r.page_size == self.page_size,
            r.mode == self.mode,
    {
        let mut s = self;
        s.params = params;
        s.named = true;
        s
    }

    pub fn page_size(self, page_size: i32) -> (r: Statement)
        ensures
            r == (Statement { page_size, ..self }),
    {
        let mut s = self;
        s.page_size = page_size;
        s
    }

    /// The query request this statement stands for.
    pub fn into_query(self) -> (r: request::Query)
        ensures
            r.session_id == self.session_id,
            r.token == self.token,
            r.query == self.stm,
            r.parameters == self.params,
            r.named == self.named,
            r.language == self.language,
            r.mode == self.mode,
            r.page_size == self.page_size,
    {
        request::Query {
            session_id: self.session_id,
            token: self.token,
            query: self.stm,
            parameters: self.params,
            named: self.named,
            language: self.language,
            mode: self.mode,
            page_size: self.page_size,
        }
    }
}

/// Builder of a server-scoped query, run under administrative credentials.
#[derive(Debug)]
pub struct ServerStatement {
    pub user: String,
    pub password: String,
    pub stm: String,
    pub params: Vec<(String, OValue)>,
    pub language: String,
    pub page_size: i32,
    pub mode: i8,
    pub named: bool,
}

impl ServerStatement {
    pub fn new(user: &str, password: &str, stm: &str) -> (r: ServerStatement)
        ensures
            r.user@ == user@,
            r.password@ == password@,
            r.stm@ == stm@,
            r.params@.len() == 0,
            r.language@ == "sql"@,
            r.page_size == 150,
            r.mode == 1,
            r.named,
    {
        ServerStatement {
            user: user.to_owned(),
            password: password.to_owned(),
            stm: stm.to_owned(),
            params: Vec::new(),
            language: "sql".to_owned(),
            page_size: 150,
            mode: 1,
            named: true,
        }
    }

    pub fn positional(self, params: Vec<OValue>) -> (r: ServerStatement)
        ensures
            entries_model(r.params@) == positional_entries(crate::value::list_model(params@)),
            !r.named,
            r.user == self.user,
            r.password == self.password,
            r.stm == self.stm,
            r.language == self.language,
            r.page_size == self.page_size,
            r.mode == self.mode,
    {
        let mut s = self;
        s.params = positional_params(params);
        s.named = false;
        s
    }

    pub fn named(self, params: Vec<(String, OValue)>) -> (r: ServerStatement)
        ensures
            r.params == params,
            r.named,
            r.user == self.user,
            r.password == self.password,
            r.stm == self.stm,
            r.language == self.language,
            r.page_size == self.page_size,
            r.mode == self.mode,
    {
        let mut s = self;
        s.params = params;
        s.named = true;
        s
    }

    /// The server query request this statement stands for, under the admin
    /// session obtained for it.
    pub fn into_query(self, session_id: i32, token: Option<Vec<u8>>) -> (r: request::ServerQuery)
        ensures
            r.session_id == session_id,
            r.token == token,
            r.query == self.stm,
            r.parameters == self.params,
            r.named == self.named,
            r.language == self.language,
            r.mode == self.mode,
            r.page_size == self.page_size,
    {
        request::ServerQuery {
            session_id,
            token,
            query: self.stm,
            parameters: self.params,
            named: self.named,
            language: self.language,
            mode: self.mode,
            page_size: self.page_size,
        }
    }
}

/// Builder of a live-query subscription.
#[derive(Debug)]
pub struct LiveStatement {
    pub session_id: i32,
    pub token: Option<Vec<u8>>,
    pub stm: String,
    pub params: Vec<(String, OValue)>,
    pub named: bool,
}

impl LiveStatement {
    pub fn new(session: &OSession, stm: &str) -> (r: LiveStatement)
        ensures
            r.session_id == session.session_id,
            token_matches(&session.token, &r.token),
            r.stm@ == stm@,
            r.params@.len() == 0,
            r.named,
    {
        LiveStatement {
            session_id: session.session_id,
            token: clone_token(&session.token),
            stm: stm.to_owned(),
            params: Vec::new(),
            named: true,
        }
    }

    pub fn positional(self, params: Vec<OValue>) -> (r: LiveStatement)
        ensures
            entries_model(r.params@) == positional_entries(crate::value::list_model(params@)),
            !r.named,
            r.session_id == self.session_id,
            r.token == self.token,
            r.stm == self.stm,
    {
        let mut s = self;
        s.params = positional_params(params);
        s.named = false;
        s
    }

    pub fn named(self, params: Vec<(String, OValue)>) -> (r: LiveStatement)
        ensures
            r.params == params,
            r.named,
            r.session_id == self.session_id,
            r.token == self.token,
            r.stm == self.stm,
    {
        let mut s = self;
        s.params = params;
        s.named = true;
        s
    }

    /// The subscription request this statement stands for.
    pub fn into_query(self) -> (r: request::LiveQuery)
        ensures
            r.session_id == self.session_id,
            r.token == self.token,
            r.query == self.stm,
            r.parameters == self.params,
            r.named == self.named,
    {
        request::LiveQuery {
            session_id: self.session_id,
            token: self.token,
            query: self.stm,
            parameters: self.params,
            named: self.named,
        }
    }
}

} // verus!
