use vstd::prelude::*;

verus! {

/// The failure categories every operation of this crate reports.
#[derive(Clone, Debug, PartialEq, Eq, Structural)]
pub enum ErrorKind {
    /// An operation that needs a persisted record was given an in-memory one.
    MissingLocalPath,
    /// A remote fetch failed; the caller may retry, the crate does not.
    TransportFailure,
    /// A target directory is occupied by an incompatible prior state.
    PathCollision,
    /// The comment lexer met an unparseable sequence.
    MalformedInput,
    /// Strict localization found no value for a required variable name.
    MissingVariable,
    /// A persisted record could not be decoded or encoded.
    SerializationFailure,
}

/// A typed failure together with the path/positional context gathered while
/// it unwinds.  Context lines are pushed outermost-last.
#[derive(Debug)]
pub struct SpecError {
    kind: ErrorKind,
    context: Vec<String>,
}

impl SpecError {
    pub closed spec fn spec_kind(&self) -> ErrorKind {
        self.kind
    }

    pub closed spec fn spec_context(&self) -> Seq<Seq<char>> {
        self.context.deep_view()
    }

    pub fn new(kind: ErrorKind) -> (r: Self)
        ensures
            r.spec_kind() == kind,
            r.spec_context().len() == 0,
    {
        SpecError { kind, context: Vec::new() }
    }

    pub fn kind(&self) -> (r: &ErrorKind)
        ensures
            *r == self.spec_kind(),
    {
        &self.kind
    }

    /// Attach one more line of context while the error unwinds.
    pub fn with_context(self, line: String) -> (r: Self)
        ensures
            r.spec_kind() == self.spec_kind(),
            r.spec_context() == self.spec_context().push(line@),
    {
        let SpecError { kind, mut context } = self;
        context.push(line);
        SpecError { kind, context }
    }

    pub fn context(&self) -> (r: &Vec<String>)
        ensures
            r.deep_view() == self.spec_context(),
    {
        &self.context
    }
}

pub type SpecResult<T> = Result<T, SpecError>;

} // verus!
