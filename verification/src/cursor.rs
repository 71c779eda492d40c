use vstd::prelude::*;
use crate::request::{QueryClose, QueryNext};
use crate::response;
use crate::result::OResult;

verus! {

/// Copy of an optional token.
pub fn clone_token(token: &Option<Vec<u8>>) -> (r: Option<Vec<u8>>)
    ensures
        match r {
            Some(t) => old_token_is(token, t@),
            None => token is None,
        },
{
    match token {
        Some(t) => {
            let mut copy: Vec<u8> = Vec::new();
            let mut i: usize = 0;
            while i < t.len()
                invariant
                    i <= t@.len(),
                    copy@ == t@.take(i as int),
                decreases t@.len() - i,
            {
                copy.push(t[i]);
                i = i + 1;
                proof {
                    assert(copy@ =~= t@.take(i as int));
                }
            }
            proof {
                assert(t@.take(t@.len() as int) =~= t@);
            }
            Some(copy)
        },
        None => None,
    }
}

pub open spec fn old_token_is(token: &Option<Vec<u8>>, bytes: Seq<u8>) -> bool {
    match token {
        Some(t) => t@ == bytes,
        None => false,
    }
}

/// What the cursor does when asked for its next row.
#[derive(Debug)]
pub enum CursorStep {
    /// A locally held row.
    Yield(OResult),
    /// The local rows ran out and the server holds more: issue exactly this
    /// QueryNext and feed the page back through `apply_page`.
    Fetch(QueryNext),
    /// Fully drained: no local row and no server-side page.
    Eof,
}

/// The paged result cursor: the rows of the current page still to hand out,
/// the server-side cursor id, and whether the server holds more pages.  The
/// socket work it calls for is returned as request values.
#[derive(Debug)]
pub struct PagedCursor {
    pub query_id: String,
    pub session_id: i32,
    pub token: Option<Vec<u8>>,
    pub page_size: i32,
    pub records: Vec<OResult>,
    pub has_next: bool,
}

impl PagedCursor {
    /// Wrap the first page of a query's results.
    pub fn new(page: response::Query, session_id: i32, token: Option<Vec<u8>>, page_size: i32)
        -> (r: PagedCursor)
        ensures
            r.query_id@ == page.query_id@,
            r.session_id == session_id,
            r.token == token,
            r.page_size == page_size,
            r.records@ == page.records@,
            r.has_next == page.has_next,
    {
        PagedCursor {
            query_id: page.query_id,
            session_id,
            token,
            page_size,
            records: page.records,
            has_next: page.has_next,
        }
    }

    /// The next step: a local row while any is left; otherwise exactly one
    /// QueryNext while the server holds more; otherwise end of the stream.
    pub fn next_action(&mut self) -> (r: CursorStep)
        ensures
            final(self).query_id@ == old(self).query_id@,
            final(self).session_id == old(self).session_id,
            final(self).token == old(self).token,
            final(self).page_size == old(self).page_size,
            final(self).has_next == old(self).has_next,
            old(self).records@.len() > 0 ==> (r matches CursorStep::Yield(row) && row == old(self).records@[0] && final(self).records@ == old(self).records@.drop_first()),
            old(self).records@.len() == 0 && old(self).has_next ==> (r matches CursorStep::Fetch(
                next,
            ) && next.query_id@ == old(self).query_id@ && next.session_id == old(self).session_id
                && next.page_size == old(self).page_size && token_matches(
                &old(self).token,
                &next.token,
            ) && final(self).records@ == old(self).records@),
            old(self).records@.len() == 0 && !old(self).has_next ==> (r is Eof && final(self).records@ == old(self).records@),
    {
        if self.records.len() > 0 {
            let row = self.records.remove(0);
            proof {
                assert(self.records@ =~= old(self).records@.drop_first());
            }
            CursorStep::Yield(row)
        } else if self.has_next {
            let token = clone_token(&self.token);
            CursorStep::Fetch(
                QueryNext::new(self.session_id, token, self.query_id.as_str(), self.page_size),
            )
        } else {
            CursorStep::Eof
        }
    }

    /// Install the page a QueryNext brought back.
    pub fn apply_page(&mut self, page: response::Query)
        ensures
            final(self).query_id@ == page.query_id@,
            final(self).session_id == old(self).session_id,
            final(self).token == old(self).token,
            final(self).page_size == old(self).page_size,
            final(self).records@ == page.records@,
            final(self).has_next == page.has_next,
    {
        self.query_id = page.query_id;
        self.records = page.records;
        self.has_next = page.has_next;
    }

    /// What dropping the cursor must send: exactly one QueryClose while the
    /// server still holds pages, and nothing once the cursor was drained.
    pub fn close_action(&self) -> (r: Option<QueryClose>)
        ensures
            self.has_next ==> (r matches Some(qc) && qc.query_id@ == self.query_id@
                && qc.session_id == self.session_id && token_matches(&self.token, &qc.token)),
            !self.has_next ==> r is None,
    {
        if self.has_next {
            let token = clone_token(&self.token);
            Some(QueryClose::new(self.session_id, token, self.query_id.as_str()))
        } else {
            None
        }
    }
}

/// Two optional tokens carrying the same bytes.
pub open spec fn token_matches(a: &Option<Vec<u8>>, b: &Option<Vec<u8>>) -> bool {
    match (a, b) {
        (Some(x), Some(y)) => x@ == y@,
        (None, None) => true,
        _ => false,
    }
}

/// A server-scoped result set is a single page: its rows hand out in order
/// and its teardown sends nothing.
#[derive(Debug)]
pub struct ServerResultSet {
    pub records: Vec<OResult>,
}

impl ServerResultSet {
    pub fn new(page: response::ServerQuery) -> (r: ServerResultSet)
        ensures
            r.records@ == page.records@,
    {
        ServerResultSet { records: page.records }
    }

    pub fn next_row(&mut self) -> (r: Option<OResult>)
        ensures
            old(self).records@.len() > 0 ==> (r matches Some(row) && row == old(self).records@[0]
                && final(self).records@ == old(self).records@.drop_first()),
            old(self).records@.len() == 0 ==> r is None && final(self).records@ == old(self).records@,
    {
        if self.records.len() > 0 {
            let row = self.records.remove(0);
            proof {
                assert(self.records@ =~= old(self).records@.drop_first());
            }
            Some(row)
        } else {
            None
        }
    }
}

} // verus!
