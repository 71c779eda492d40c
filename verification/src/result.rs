use vstd::prelude::*;
use crate::document::{entries_get, ODocument};
use crate::error::{OrientError, OrientResult};
use crate::projection::Projection;
use crate::value::{DocVal, OValue, Val};

verus! {

/// Mathematical shape of a query result row.
pub enum ResVal {
    Doc(DocVal),
    Proj(Seq<(Seq<char>, Val)>),
}

impl ResVal {
    /// Uniform field lookup over both shapes.
    pub open spec fn get_spec(&self, name: Seq<char>) -> Option<Val> {
        match self {
            ResVal::Doc(d) => entries_get(d.fields, name),
            ResVal::Proj(fs) => entries_get(*fs, name),
        }
    }
}

/// A query result row: either a full record as a document, or a projection.
#[derive(Debug)]
pub enum ResultType {
    Document(ODocument),
    Projection(Projection),
}

impl View for ResultType {
    type V = ResVal;

    open spec fn view(&self) -> ResVal {
        match self {
            ResultType::Document(d) => ResVal::Doc(d@),
            ResultType::Projection(p) => ResVal::Proj(p@),
        }
    }
}

impl ResultType {
    pub fn get(&self, name: &str) -> (r: Option<&OValue>)
        ensures
            match r {
                Some(v) => self@.get_spec(name@) == Some(v@),
                None => self@.get_spec(name@) is None,
            },
    {
        match self {
            ResultType::Document(d) => d.get_raw(name),
            ResultType::Projection(p) => p.get(name),
        }
    }

    pub fn get_str(&self, name: &str) -> (r: Option<&str>)
        ensures
            match r {
                Some(v) => self@.get_spec(name@) == Some(Val::Str(v@)),
                None => !(self@.get_spec(name@) matches Some(Val::Str(_))),
            },
    {
        match self {
            ResultType::Document(d) => d.get_str(name),
            ResultType::Projection(p) => p.as_str(name),
        }
    }
}

/// One row of a result set, with uniform typed access.
#[derive(Debug)]
pub struct OResult {
    pub inner: ResultType,
}

impl View for OResult {
    type V = ResVal;

    open spec fn view(&self) -> ResVal {
        self.inner@
    }
}

impl OResult {
    /// An empty projection row.
    pub fn empty() -> (r: OResult)
        ensures
            r@ == ResVal::Proj(Seq::<(Seq<char>, Val)>::empty()),
    {
        OResult { inner: ResultType::Projection(Projection::new()) }
    }

    /// Wrap a decoded record; the record kinds are 1 to 3 on the wire.
    pub fn from_document(record_kind: i8, document: ODocument) -> (r: OrientResult<OResult>)
        ensures
            1 <= record_kind <= 3 ==> (r matches Ok(res) && res@ == ResVal::Doc(document@)),
            !(1 <= record_kind <= 3) ==> r is Err,
    {
        if 1 <= record_kind && record_kind <= 3 {
            Ok(OResult { inner: ResultType::Document(document) })
        } else {
            Err(OrientError::Decoder("unsupported record kind".to_owned()))
        }
    }

    pub fn from_projection(projection: Projection) -> (r: OResult)
        ensures
            r@ == ResVal::Proj(projection@),
    {
        OResult { inner: ResultType::Projection(projection) }
    }

    pub fn get_raw(&self, name: &str) -> (r: Option<&OValue>)
        ensures
            match r {
                Some(v) => self@.get_spec(name@) == Some(v@),
                None => self@.get_spec(name@) is None,
            },
    {
        self.inner.get(name)
    }

    pub fn get_str(&self, name: &str) -> (r: Option<&str>)
        ensures
            match r {
                Some(v) => self@.get_spec(name@) == Some(Val::Str(v@)),
                None => !(self@.get_spec(name@) matches Some(Val::Str(_))),
            },
    {
        self.inner.get_str(name)
    }

    /// The value under `name`, or a field error naming the missing field.
    pub fn get_checked(&self, name: &str) -> (r: OrientResult<&OValue>)
        ensures
            match r {
                Ok(v) => self@.get_spec(name@) == Some(v@),
                Err(e) => self@.get_spec(name@) is None && (e matches OrientError::Field(f)
                    && f@ == name@),
            },
    {
        match self.get_raw(name) {
            Some(val) => Ok(val),
            None => Err(OrientError::Field(name.to_owned())),
        }
    }
}

/// One event of a live-query subscription.
#[derive(Debug)]
pub enum LiveResult {
    Created(OResult),
    Updated((OResult, OResult)),
    Deleted(OResult),
}

} // verus!
