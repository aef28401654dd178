//! Read strategies: resolving a request's size, picking the hint and the
//! backend, and deciding what a failed hint means.
use vstd::prelude::*;

use crate::errors::{Error, ErrorKind};

verus! {

/// Files smaller than this many bytes get no hint at all.
pub const HINT_MIN_SIZE: u64 = 8 * 1024;

/// Files up to this many bytes get the sequential read-ahead hint; larger
/// ones get a byte-range advisory instead.
pub const READ_AHEAD_MAX_SIZE: u64 = 268_435_456;

/// The largest byte count a byte-range advisory carries.
pub const ADVISE_MAX_COUNT: i32 = 2147483647;

/// The hint issued to the operating system before the first read.
#[derive(Clone, Copy, Debug, PartialEq, Eq, Structural)]
pub enum ReadHint {
    /// No hint.
    NoHint,
    /// Turn on sequential read-ahead for the descriptor (best effort).
    ReadAhead,
    /// Ask that the first `count` bytes be brought into the cache.
    ReadAdvise { count: i32 },
}

/// The byte source a reader is built on.
#[derive(Clone, Copy, Debug, PartialEq, Eq, Structural)]
pub enum Backend {
    /// Sequential reads on the file descriptor.
    DirectFile,
    /// A read-only memory map of the whole file.
    MemoryMapped,
}

/// What a strategy decided for one open request.
#[derive(Clone, Copy, Debug, PartialEq, Eq, Structural)]
pub struct ReadPlan {
    /// The size the reader declares, resolved once.
    pub size: u64,
    /// The hint to issue before the backend is built.
    pub hint: ReadHint,
    /// The backend to build.
    pub backend: Backend,
}

/// A policy that picks the hint and the backend for a file of a given size.
pub trait ReaderStrategy {
    /// The hint to issue for a file of `size` bytes.
    fn hint(&self, size: u64) -> ReadHint;

    /// The backend to read a file of `size` bytes with.
    fn backend(&self, size: u64) -> Backend;
}

/// The hint the default strategy picks for a file of `size` bytes.
pub open spec fn default_hint(size: u64) -> ReadHint {
    if size < HINT_MIN_SIZE {
        ReadHint::NoHint
    } else if size <= READ_AHEAD_MAX_SIZE {
        ReadHint::ReadAhead
    } else if size <= ADVISE_MAX_COUNT as u64 {
        ReadHint::ReadAdvise { count: size as i32 }
    } else {
        ReadHint::ReadAdvise { count: ADVISE_MAX_COUNT }
    }
}

/// The default strategy: hints chosen by size, always the direct backend.
#[derive(Debug)]
pub struct DefaultMacOsReaderStrategy {}

impl DefaultMacOsReaderStrategy {
    /// The default strategy.
    pub fn new() -> (s: DefaultMacOsReaderStrategy) {
        DefaultMacOsReaderStrategy {  }
    }

    /// No hint below `HINT_MIN_SIZE` bytes, read-ahead up to
    /// `READ_AHEAD_MAX_SIZE` bytes, a byte-range advisory over the whole file
    /// (at most `ADVISE_MAX_COUNT` bytes) beyond.
    pub fn hint_for_size(&self, size: u64) -> (h: ReadHint)
        ensures
            h == default_hint(size),
    {
        if size < HINT_MIN_SIZE {
            ReadHint::NoHint
        } else if size <= READ_AHEAD_MAX_SIZE {
            ReadHint::ReadAhead
        } else if size <= ADVISE_MAX_COUNT as u64 {
            ReadHint::ReadAdvise { count: size as i32 }
        } else {
            ReadHint::ReadAdvise { count: ADVISE_MAX_COUNT }
        }
    }

    /// Every size is read through the direct backend.
    pub fn backend_for_size(&self, size: u64) -> (b: Backend)
        ensures
            b == Backend::DirectFile,
    {
        Backend::DirectFile
    }
}

impl DefaultMacOsReaderStrategy {
    /// Resolves the size of `request` once and plans the open: the hint for
    /// that size and the direct backend.
    pub fn plan(&self, request: &ReadRequest, stat_len: Option<u64>) -> (r: Result<ReadPlan, Error>)
        ensures
            resolved_size(request@.0, request@.1, stat_len) matches Some(s) ==> r == Ok::<
                ReadPlan,
                Error,
            >(ReadPlan { size: s, hint: default_hint(s), backend: Backend::DirectFile }),
            resolved_size(request@.0, request@.1, stat_len) is None ==> (r matches Err(e) && e@
                == seq![ErrorKind::FileOpFailed]),
    {
        let size = match request.resolve_size(stat_len) {
            Ok(s) => s,
            Err(e) => return Err(e),
        };
        Ok(ReadPlan { size, hint: self.hint_for_size(size), backend: self.backend_for_size(size) })
    }
}

impl ReaderStrategy for DefaultMacOsReaderStrategy {
    fn hint(&self, size: u64) -> ReadHint {
        self.hint_for_size(size)
    }

    fn backend(&self, size: u64) -> Backend {
        self.backend_for_size(size)
    }
}

/// The size a reader declares: the explicit size if one was given, else the
/// size hint, else the length the file system reported.
pub open spec fn resolved_size(size: Option<u64>, size_hint: Option<u64>, stat_len: Option<u64>) -> Option<u64> {
    match size {
        Some(s) => Some(s),
        None => match size_hint {
            Some(h) => Some(h),
            None => stat_len,
        },
    }
}

/// The parameters of an open request: an optional explicit size and an
/// optional size hint.
#[derive(Debug)]
pub struct ReadRequest {
    size: Option<u64>,
    size_hint: Option<u64>,
}

impl View for ReadRequest {
    type V = (Option<u64>, Option<u64>);

    closed spec fn view(&self) -> (Option<u64>, Option<u64>) {
        (self.size, self.size_hint)
    }
}

impl ReadRequest {
    /// A request with neither size nor size hint.
    pub fn new() -> (r: ReadRequest)
        ensures
            r@ == (None::<u64>, None::<u64>),
    {
        ReadRequest { size: None, size_hint: None }
    }

    /// The same request with the explicit size `size`.
    pub fn with_size(self, size: u64) -> (r: ReadRequest)
        ensures
            r@ == (Some(size), self@.1),
    {
        ReadRequest { size: Some(size), ..self }
    }

    /// The same request with the size hint `size_hint`.
    pub fn with_size_hint(self, size_hint: u64) -> (r: ReadRequest)
        ensures
            r@ == (self@.0, Some(size_hint)),
    {
        ReadRequest { size_hint: Some(size_hint), ..self }
    }

    /// The explicit size, if one was given.
    pub fn size(&self) -> (r: Option<u64>)
        ensures
            r == self@.0,
    {
        self.size
    }

    /// The size hint, if one was given.
    pub fn size_hint(&self) -> (r: Option<u64>)
        ensures
            r == self@.1,
    {
        self.size_hint
    }

    /// Whether the file's length must be asked of the file system: neither
    /// a size nor a size hint was given.
    pub fn needs_stat(&self) -> (r: bool)
        ensures
            r <==> self@.0 is None && self@.1 is None,
    {
        self.size.is_none() && self.size_hint.is_none()
    }

    /// Resolves the size once: the explicit size, else the hint, else
    /// `stat_len`, the length the file system reported (`None` when asking
    /// it failed, which fails the request as a file operation).
    pub fn resolve_size(&self, stat_len: Option<u64>) -> (r: Result<u64, Error>)
        ensures
            resolved_size(self@.0, self@.1, stat_len) matches Some(s) ==> r == Ok::<u64, Error>(s),
            resolved_size(self@.0, self@.1, stat_len) is None ==> (r matches Err(e) && e@ == seq![
                ErrorKind::FileOpFailed,
            ]),
    {
        match self.size {
            Some(s) => Ok(s),
            None => match self.size_hint {
                Some(h) => Ok(h),
                None => match stat_len {
                    Some(l) => Ok(l),
                    None => Err(Error::new(ErrorKind::FileOpFailed)),
                },
            },
        }
    }
}

/// Resolves the size of `request` and lets `strategy` choose the hint and
/// the backend for it.
pub fn plan_open<S: ReaderStrategy>(strategy: &S, request: &ReadRequest, stat_len: Option<u64>) -> (r:
    Result<ReadPlan, Error>)
    ensures
        resolved_size(request@.0, request@.1, stat_len) matches Some(s) ==> (r matches Ok(p)
            && p.size == s),
        resolved_size(request@.0, request@.1, stat_len) is None ==> (r matches Err(e) && e@
            == seq![ErrorKind::FileOpFailed]),
{
    let size = match request.resolve_size(stat_len) {
        Ok(s) => s,
        Err(e) => return Err(e),
    };
    let hint = strategy.hint(size);
    let backend = strategy.backend(size);
    Ok(ReadPlan { size, hint, backend })
}

/// What becomes of a hint once it was issued and the call returned `code`
/// (zero on success, as `posix_fadvise` reports it). A failed read-ahead
/// only costs throughput and is ignored; a failed byte-range advisory fails
/// the open as a failed file operation caused by the call.
pub fn hint_outcome(hint: ReadHint, code: i32) -> (r: Result<(), Error>)
    ensures
        r is Err <==> hint is ReadAdvise && code != 0,
        r matches Err(e) ==> e@ == seq![
            ErrorKind::FileOpFailed,
            ErrorKind::LibcFailed("posix_fadvise"),
        ],
{
    match hint {
        ReadHint::ReadAdvise { .. } => {
            if code != 0 {
                Err(Error::libc_failed("posix_fadvise"))
            } else {
                Ok(())
            }
        },
        _ => Ok(()),
    }
}

} // verus!
