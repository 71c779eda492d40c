use vstd::prelude::*;

verus! {

/// One entry of the error chain a server attaches to a failed request:
/// an exception type name and its message.
#[derive(Debug, Clone)]
pub struct OError {
    pub err_type: String,
    pub err_msg: String,
}

impl OError {
    pub fn new(err_type: String, err_msg: String) -> (r: OError)
        ensures
            r.err_type@ == err_type@,
            r.err_msg@ == err_msg@,
    {
        OError { err_type, err_msg }
    }
}

/// A server-reported request failure: the numeric code (code 3 is the
/// retry-eligible concurrent-modification error), an identifier, the chain of
/// (type, message) entries and the serialised exception blob.
#[derive(Debug, Clone)]
pub struct RequestError {
    pub session_id: i32,
    pub code: i32,
    pub identifier: i32,
    pub errors: Vec<OError>,
    pub serialized: Vec<u8>,
}

impl RequestError {
    pub fn new() -> (r: RequestError)
        ensures
            r.session_id == -1i32,
            r.code == -1i32,
            r.identifier == -1i32,
            r.errors@.len() == 0,
            r.serialized@.len() == 0,
    {
        RequestError {
            code: -1,
            identifier: -1,
            session_id: -1,
            errors: Vec::new(),
            serialized: Vec::new(),
        }
    }

    pub fn new_with_code(code: i32, identifier: i32) -> (r: RequestError)
        ensures
            r.session_id == -1i32,
            r.code == code,
            r.identifier == identifier,
            r.errors@.len() == 0,
            r.serialized@.len() == 0,
    {
        RequestError {
            code,
            identifier,
            session_id: -1,
            errors: Vec::new(),
            serialized: Vec::new(),
        }
    }

    pub fn add_error(&mut self, err: OError)
        ensures
            final(self).errors@ == old(self).errors@.push(err),
            final(self).session_id == old(self).session_id,
            final(self).code == old(self).code,
            final(self).identifier == old(self).identifier,
            final(self).serialized@ == old(self).serialized@,
    {
        self.errors.push(err);
    }
}

/// Mathematical shape of a server-reported request error.
pub struct ReqErrVal {
    pub session_id: i32,
    pub code: i32,
    pub identifier: i32,
    pub errors: Seq<(Seq<char>, Seq<char>)>,
    pub serialized: Seq<u8>,
}

/// Model of an error chain: each entry as its (type, message) text.
pub open spec fn oerrors_model(errors: Seq<OError>) -> Seq<(Seq<char>, Seq<char>)>
    decreases errors,
{
    if errors.len() == 0 {
        Seq::empty()
    } else {
        oerrors_model(errors.drop_last()) + seq![
            (errors.last().err_type@, errors.last().err_msg@)
        ]
    }
}

pub broadcast proof fn lemma_oerrors_model(errors: Seq<OError>)
    ensures
        (#[trigger] oerrors_model(errors)).len() == errors.len(),
        forall|i: int| 0 <= i < errors.len() ==> oerrors_model(errors)[i] == (
            errors[i].err_type@,
            errors[i].err_msg@,
        ),
    decreases errors,
{
    if errors.len() > 0 {
        lemma_oerrors_model(errors.drop_last());
    }
}

/// Model of a request error.
pub open spec fn req_err_model(r: RequestError) -> ReqErrVal {
    ReqErrVal {
        session_id: r.session_id,
        code: r.code,
        identifier: r.identifier,
        errors: oerrors_model(r.errors@),
        serialized: r.serialized@,
    }
}

/// Every failure the driver can surface, tagged by origin.
#[derive(Debug)]
pub enum OrientError {
    /// Failure of the underlying transport.
    Io(String),
    /// A server-reported request error.
    Request(RequestError),
    /// Version mismatch, unexpected opcode or malformed frame.
    Protocol(String),
    /// Document or projection decoding failure.
    Decoder(String),
    /// Malformed string payload from the server.
    UTF8(String),
    /// Pool acquisition failure or timeout.
    Pool(String),
    /// A named field was not found on a result.
    Field(String),
    /// A value was present but of the wrong type for the asked extraction.
    Conversion(String),
    /// Catch-all for glue around the pool adapters.
    Generic(String),
}

impl OrientError {
    /// The retry combinator re-dispatches exactly on a server-reported
    /// request error with code 3.
    pub open spec fn is_retryable(&self) -> bool {
        match self {
            OrientError::Request(r) => r.code == 3,
            _ => false,
        }
    }

    /// Stable human-readable rendering of the error category.
    pub fn category(&self) -> (r: &'static str)
        ensures
            r@ == self.category_spec(),
    {
        match self {
            OrientError::Io(_) => "IO error",
            OrientError::Request(_) => "Request error",
            OrientError::Protocol(_) => "Protocol error",
            OrientError::Decoder(_) => "Decoder error",
            OrientError::UTF8(_) => "UTF8 error",
            OrientError::Pool(_) => "Pool error",
            OrientError::Field(_) => "Field error",
            OrientError::Conversion(_) => "Conversion error",
            OrientError::Generic(_) => "Generic error",
        }
    }

    pub open spec fn category_spec(&self) -> Seq<char> {
        match self {
            OrientError::Io(_) => "IO error"@,
            OrientError::Request(_) => "Request error"@,
            OrientError::Protocol(_) => "Protocol error"@,
            OrientError::Decoder(_) => "Decoder error"@,
            OrientError::UTF8(_) => "UTF8 error"@,
            OrientError::Pool(_) => "Pool error"@,
            OrientError::Field(_) => "Field error"@,
            OrientError::Conversion(_) => "Conversion error"@,
            OrientError::Generic(_) => "Generic error"@,
        }
    }
}

pub type OrientResult<T> = Result<T, OrientError>;

} // verus!
