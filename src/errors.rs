//! Error kinds and errors that carry their chain of causes.
use vstd::prelude::*;

verus! {

/// What kind of operation failed.
#[derive(Clone, Copy, Debug, PartialEq, Eq)]
pub enum ErrorKind {
    /// A memory operation failed; the text says which.
    MemOpFailed(&'static str),
    /// A file operation failed.
    FileOpFailed,
    /// A libc call failed; the text names the call.
    LibcFailed(&'static str),
}

/// An error with its chain of causes: the outermost kind first, the
/// failure that started it last.
#[derive(Debug)]
pub struct Error {
    kind: ErrorKind,
    cause: Option<Box<Error>>,
}

impl Error {
    /// The kinds along the cause chain, outermost first.
    pub closed spec fn chain(self) -> Seq<ErrorKind>
        decreases self,
    {
        match self.cause {
            None => seq![self.kind],
            Some(c) => seq![self.kind] + (*c).chain(),
        }
    }

    proof fn lemma_chain_nonempty(self)
        ensures
            self.chain().len() >= 1,
            self.chain()[0] == self.kind,
        decreases self,
    {
        match self.cause {
            None => {},
            Some(c) => {
                (*c).lemma_chain_nonempty();
            },
        }
    }
}

impl Error {
    /// The error of kind `kind` with no cause.
    pub closed spec fn root(kind: ErrorKind) -> Error {
        Error { kind, cause: None }
    }

    /// An error without a cause has a chain of its own kind alone.
    pub proof fn lemma_root_chain(kind: ErrorKind)
        ensures
            Error::root(kind)@ == seq![kind],
    {
    }
}

impl View for Error {
    type V = Seq<ErrorKind>;

    closed spec fn view(&self) -> Seq<ErrorKind> {
        self.chain()
    }
}

impl Error {
    /// An error of kind `kind` with no cause.
    pub fn new(kind: ErrorKind) -> (e: Error)
        ensures
            e == Error::root(kind),
            e@ == seq![kind],
    {
        Error { kind, cause: None }
    }

    /// Wraps `self` as the cause of a new error of kind `kind`.
    pub fn context(self, kind: ErrorKind) -> (e: Error)
        ensures
            e@ == seq![kind] + self@,
    {
        Error { kind, cause: Some(Box::new(self)) }
    }

    /// A failed libc call `syscall`, wrapped as a failed file operation.
    pub fn libc_failed(syscall: &'static str) -> (e: Error)
        ensures
            e@ == seq![ErrorKind::FileOpFailed, ErrorKind::LibcFailed(syscall)],
    {
        let e = Error::new(ErrorKind::LibcFailed(syscall)).context(ErrorKind::FileOpFailed);
        assert(e@ =~= seq![ErrorKind::FileOpFailed, ErrorKind::LibcFailed(syscall)]);
        e
    }

    /// The kind of this error: the outermost of its chain.
    pub fn kind(&self) -> (k: &ErrorKind)
        ensures
            self@.len() >= 1,
            *k == self@[0],
    {
        proof {
            self.lemma_chain_nonempty();
        }
        &self.kind
    }

    /// The error that caused this one, if any.
    pub fn cause(&self) -> (c: Option<&Error>)
        ensures
            self@.len() >= 1,
            c is None <==> self@.len() == 1,
            c matches Some(e) ==> e@ == self@.drop_first(),
    {
        proof {
            self.lemma_chain_nonempty();
        }
        match &self.cause {
            None => None,
            Some(b) => {
                proof {
                    (**b).lemma_chain_nonempty();
                    assert((seq![self.kind] + (**b).chain()).drop_first() =~= (**b).chain());
                }
                Some(&**b)
            },
        }
    }

    /// The kinds along the cause chain, outermost first.
    pub fn kinds(&self) -> (v: Vec<ErrorKind>)
        ensures
            v@ == self@,
        decreases self,
    {
        let mut v: Vec<ErrorKind> = Vec::new();
        v.push(self.kind);
        match &self.cause {
            None => {
                assert(v@ =~= self@);
            },
            Some(b) => {
                let mut rest = (**b).kinds();
                v.append(&mut rest);
                assert(v@ =~= self@);
            },
        }
        v
    }
}

impl Clone for Error {
    /// A copy of the outermost kind alone; the cause chain is not copied.
    fn clone(&self) -> (e: Error) {
        Error { kind: self.kind, cause: None }
    }
}

impl From<ErrorKind> for Error {
    fn from(kind: ErrorKind) -> (e: Error) {
        Error { kind, cause: None }
    }
}

impl vstd::std_specs::convert::FromSpecImpl<ErrorKind> for Error {
    open spec fn obeys_from_spec() -> bool {
        true
    }

    open spec fn from_spec(kind: ErrorKind) -> Error {
        Error::root(kind)
    }
}

} // verus!
