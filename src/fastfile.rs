//! Read-buffer sizing and the state machine behind a buffered reader.
use vstd::prelude::*;

use crate::cursor::{drain, lemma_drain_yields_rest};
use crate::errors::{Error, ErrorKind};
use crate::os::PAGE_SIZE;

verus! {

/// Smallest scratch buffer a reader allocates: one page.
pub const MIN_READ_BUF_SIZE: usize = PAGE_SIZE;

/// Largest scratch buffer a reader allocates: 4 MiB.
pub const MAX_READ_BUF_SIZE: usize = 4 * 1024 * 1024;

/// `s` rounded up to the next multiple of `p` (`s` itself when it is one).
pub open spec fn round_up(s: int, p: int) -> int {
    if s % p == 0 {
        s
    } else {
        s - s % p + p
    }
}

/// `x` clamped into `[lo, hi]`.
pub open spec fn clamp(x: int, lo: int, hi: int) -> int {
    if x < lo {
        lo
    } else if x > hi {
        hi
    } else {
        x
    }
}

/// The buffer size for a file of `s` bytes: `s` rounded up to a whole
/// number of pages of `p` bytes, then clamped into `[lo, hi]`.
pub open spec fn buffer_size_spec(s: int, p: int, lo: int, hi: int) -> int {
    clamp(round_up(s, p), lo, hi)
}

/// The buffer size that `optimal_buffer_size` picks for a file of `s` bytes.
pub open spec fn optimal_size(s: int) -> int {
    buffer_size_spec(s, PAGE_SIZE as int, MIN_READ_BUF_SIZE as int, MAX_READ_BUF_SIZE as int)
}

proof fn lemma_round_up_bounds(s: int, p: int)
    requires
        s >= 0,
        p > 0,
    ensures
        s <= round_up(s, p) < s + p,
        round_up(s, p) % p == 0,
        round_up(s, p) == p * (s / p) + (if s % p == 0 { 0 } else { p }),
{
    vstd::arithmetic::div_mod::lemma_fundamental_div_mod(s, p);
    vstd::arithmetic::div_mod::lemma_mod_bound(s, p);
    if s % p != 0 {
        vstd::arithmetic::div_mod::lemma_mod_multiples_vanish(s / p + 1, 0, p);
        assert(round_up(s, p) == p * (s / p + 1)) by (nonlinear_arith)
            requires
                s == p * (s / p) + s % p,
                round_up(s, p) == s - s % p + p,
        ;
        vstd::arithmetic::div_mod::lemma_mod_multiples_basic(s / p + 1, p);
    }
}

/// Rounding up to whole pages never decreases as the size grows.
pub proof fn lemma_round_up_monotonic(s1: int, s2: int, p: int)
    requires
        0 <= s1 <= s2,
        p > 0,
    ensures
        round_up(s1, p) <= round_up(s2, p),
{
    lemma_round_up_bounds(s1, p);
    lemma_round_up_bounds(s2, p);
    vstd::arithmetic::div_mod::lemma_div_is_ordered(s1, s2, p);
    vstd::arithmetic::div_mod::lemma_fundamental_div_mod(s1, p);
    vstd::arithmetic::div_mod::lemma_fundamental_div_mod(s2, p);
    vstd::arithmetic::div_mod::lemma_mod_bound(s1, p);
    vstd::arithmetic::div_mod::lemma_mod_bound(s2, p);
    if s1 / p < s2 / p {
        assert(p * (s1 / p) + p <= p * (s2 / p)) by (nonlinear_arith)
            requires
                s1 / p < s2 / p,
                p > 0,
        ;
    }
}

/// The buffer size of a larger file is never smaller, whatever the page
/// size and bounds.
pub proof fn lemma_buffer_size_monotonic(s1: int, s2: int, p: int, lo: int, hi: int)
    requires
        0 <= s1 <= s2,
        p > 0,
        lo <= hi,
    ensures
        buffer_size_spec(s1, p, lo, hi) <= buffer_size_spec(s2, p, lo, hi),
{
    lemma_round_up_monotonic(s1, s2, p);
}

/// Computes the read-buffer size for a file of `file_size` bytes: the size
/// rounded up to whole pages of `page_size` bytes, clamped into
/// `[min_buf, max_buf]`.
pub fn buffer_size_for(file_size: u64, page_size: usize, min_buf: usize, max_buf: usize) -> (r:
    usize)
    requires
        page_size > 0,
        min_buf <= max_buf,
    ensures
        r == buffer_size_spec(file_size as int, page_size as int, min_buf as int, max_buf as int),
        min_buf <= r <= max_buf,
{
    proof {
        lemma_round_up_bounds(file_size as int, page_size as int);
    }
    if file_size >= max_buf as u64 {
        return max_buf;
    }
    let s = file_size as usize;
    let rem = s % page_size;
    let rounded: usize;
    if rem == 0 {
        rounded = s;
    } else {
        let gap = page_size - rem;
        if gap > max_buf - s {
            return max_buf;
        }
        rounded = s + gap;
    }
    if rounded < min_buf {
        min_buf
    } else if rounded > max_buf {
        max_buf
    } else {
        rounded
    }
}

/// Computes the optimal read-buffer size for a file of `file_size` bytes:
/// page-aligned, at least `MIN_READ_BUF_SIZE` and at most
/// `MAX_READ_BUF_SIZE`.
pub fn optimal_buffer_size(file_size: u64) -> (r: usize)
    ensures
        r == optimal_size(file_size as int),
        MIN_READ_BUF_SIZE <= r <= MAX_READ_BUF_SIZE,
        file_size <= MIN_READ_BUF_SIZE ==> r == MIN_READ_BUF_SIZE,
        file_size >= MAX_READ_BUF_SIZE ==> r == MAX_READ_BUF_SIZE,
{
    proof {
        lemma_optimal_size_laws(file_size as int);
    }
    buffer_size_for(file_size, PAGE_SIZE, MIN_READ_BUF_SIZE, MAX_READ_BUF_SIZE)
}

/// For every file size the optimal buffer size lies in
/// `[MIN_READ_BUF_SIZE, MAX_READ_BUF_SIZE]`, is `MIN_READ_BUF_SIZE` for sizes
/// up to `MIN_READ_BUF_SIZE` (zero included) and `MAX_READ_BUF_SIZE` for
/// sizes from `MAX_READ_BUF_SIZE` on.
pub proof fn lemma_optimal_size_laws(s: int)
    requires
        s >= 0,
    ensures
        MIN_READ_BUF_SIZE <= optimal_size(s) <= MAX_READ_BUF_SIZE,
        s <= MIN_READ_BUF_SIZE ==> optimal_size(s) == MIN_READ_BUF_SIZE,
        s >= MAX_READ_BUF_SIZE ==> optimal_size(s) == MAX_READ_BUF_SIZE,
{
    lemma_round_up_bounds(s, PAGE_SIZE as int);
    if s <= MIN_READ_BUF_SIZE {
        lemma_round_up_monotonic(s, MIN_READ_BUF_SIZE as int, PAGE_SIZE as int);
        assert(round_up(MIN_READ_BUF_SIZE as int, PAGE_SIZE as int) == MIN_READ_BUF_SIZE);
    }
}

/// The optimal buffer size never decreases as the file size grows.
pub proof fn lemma_optimal_size_monotonic(s1: int, s2: int)
    requires
        0 <= s1 <= s2,
    ensures
        optimal_size(s1) <= optimal_size(s2),
{
    lemma_buffer_size_monotonic(
        s1,
        s2,
        PAGE_SIZE as int,
        MIN_READ_BUF_SIZE as int,
        MAX_READ_BUF_SIZE as int,
    );
}

/// `std::io::Error`, carried opaquely in the results of `FastFileRead`.
#[verifier::external_type_specification]
#[verifier::external_body]
pub struct ExIoError(std::io::Error);

/// Buffered reading of a whole file: `read` returns the bytes of one
/// underlying read, `read_to_end` everything that is left. A reader is
/// drained with one of the two, not both.
pub trait FastFileRead {
    /// The bytes of one underlying read; empty at the end of the file, and
    /// on every call after that.
    fn read(&mut self) -> std::io::Result<&[u8]>;

    /// Everything from the current position to the end of the file.
    fn read_to_end(&mut self) -> std::io::Result<&[u8]>;
}

/// The way a reader is being drained: one read at a time or all at once.
#[derive(Clone, Copy, Debug, PartialEq, Eq, Structural)]
pub enum DrainStyle {
    /// With `read`, one underlying read per call.
    Chunks,
    /// With `read_to_end`, everything at once.
    ToEnd,
}

/// What a reader looks like from outside.
pub struct ReaderView {
    /// The size declared at construction.
    pub size: u64,
    /// The bytes the last read returned.
    pub data: Seq<u8>,
    /// Whether the end of the file was reached.
    pub at_eof: bool,
    /// How the reader is being drained, once that is decided.
    pub style: Option<DrainStyle>,
}

/// How a read call begins.
pub enum ReadStart {
    /// The reader is being drained with `read_to_end`: refused.
    Refused,
    /// The end of the file was reached: the call returns no bytes.
    Exhausted,
    /// One underlying read fills the scratch buffer.
    Fill,
}

/// How a `read` call on a reader that looks like `v` begins.
pub open spec fn read_start(v: ReaderView) -> ReadStart {
    if v.style == Some(DrainStyle::ToEnd) {
        ReadStart::Refused
    } else if v.at_eof {
        ReadStart::Exhausted
    } else {
        ReadStart::Fill
    }
}

/// How a `read_to_end` call on a reader that looks like `v` begins.
pub open spec fn drain_start(v: ReaderView) -> ReadStart {
    if v.style == Some(DrainStyle::Chunks) {
        ReadStart::Refused
    } else if v.at_eof {
        ReadStart::Exhausted
    } else {
        ReadStart::Fill
    }
}

/// The reader after a `read` whose underlying read returned `bytes`.
pub open spec fn after_read(v: ReaderView, bytes: Seq<u8>) -> ReaderView {
    ReaderView {
        size: v.size,
        data: bytes,
        at_eof: bytes.len() == 0,
        style: Some(DrainStyle::Chunks),
    }
}

/// The reader after a `read` call, where `bytes` is what the underlying
/// read returns if the call makes one: a refused or exhausted call leaves
/// the reader as it is.
pub open spec fn read_call(v: ReaderView, bytes: Seq<u8>) -> ReaderView {
    match read_start(v) {
        ReadStart::Fill => after_read(v, bytes),
        _ => v,
    }
}

/// Once a `read` has returned no bytes, the reader is at a fixed point: the
/// next `read` is exhausted and returns no bytes, whatever the backing
/// reader would give, and leaves the reader as it is, so every later `read`
/// returns no bytes too.
pub proof fn lemma_eof_is_sticky(v: ReaderView, bytes: Seq<u8>)
    requires
        v.style != Some(DrainStyle::ToEnd),
    ensures
        after_read(v, Seq::empty()).data.len() == 0,
        read_start(after_read(v, Seq::empty())) == ReadStart::Exhausted,
        read_call(after_read(v, Seq::empty()), bytes) == after_read(v, Seq::empty()),
{
}

/// A reader over a file of `size` bytes whose backing reader fills the
/// scratch buffer as a cursor over the bytes `data` does (as `MmapCursor`
/// is proved to), read with `read` until a call returns nothing, returns
/// exactly `data`: every byte once, in order. An empty file gives nothing
/// on the first read.
pub proof fn lemma_reader_round_trip(data: Seq<u8>, size: u64)
    ensures
        drain(data, 0, optimal_size(size as int)) == data,
        data.len() == 0 ==> drain(data, 0, optimal_size(size as int)).len() == 0,
{
    lemma_optimal_size_laws(size as int);
    lemma_drain_yields_rest(data, 0, optimal_size(size as int));
    assert(data.subrange(0, data.len() as int) =~= data);
}

/// The state of a reader between calls: its declared size, its scratch
/// buffer (allocated on the first read), how much of the buffer the last
/// read filled, whether the end was reached, and how it is being drained.
///
/// The bytes come from elsewhere: a read takes the scratch buffer with
/// `start_read`, fills it from the backing reader, and hands it back with
/// `finish_read`.
#[derive(Debug)]
pub struct ReaderState {
    size: u64,
    buffer: Option<Vec<u8>>,
    filled: usize,
    at_eof: bool,
    style: Option<DrainStyle>,
}

impl ReaderState {
    /// The scratch buffer covers what the last read filled; while reads
    /// come one at a time it has the optimal size for the declared size,
    /// and nothing is left in it once the end was reached.
    pub closed spec fn wf(self) -> bool {
        &&& self.buffer matches Some(b) ==> self.filled <= b@.len()
        &&& self.buffer is None ==> self.filled == 0
        &&& self.at_eof && self.style != Some(DrainStyle::ToEnd) ==> self.filled == 0
        &&& self.style != Some(DrainStyle::ToEnd) ==> (self.buffer matches Some(b) ==> b@.len()
            == optimal_size(self.size as int))
    }

    /// The scratch buffer's bytes, if the reader holds one: none before the
    /// first read allocates it, and none while a read has it out.
    pub closed spec fn scratch(&self) -> Option<Seq<u8>> {
        match self.buffer {
            Some(b) => Some(b@),
            None => None,
        }
    }

    /// What the reader looks like from outside.
    pub closed spec fn view(&self) -> ReaderView {
        ReaderView {
            size: self.size,
            data: match self.buffer {
                Some(b) => b@.subrange(0, self.filled as int),
                None => Seq::empty(),
            },
            at_eof: self.at_eof,
            style: self.style,
        }
    }

    /// A reader for a file of `size` bytes, with no buffer yet.
    pub fn new(size: u64) -> (r: ReaderState)
        ensures
            r.wf(),
            r.view().size == size,
            r.view().data.len() == 0,
            !r.view().at_eof,
            r.view().style is None,
            r.scratch() is None,
    {
        ReaderState { size, buffer: None, filled: 0, at_eof: false, style: None }
    }

    /// The size declared at construction.
    pub fn size(&self) -> (r: u64)
        ensures
            r == self.view().size,
    {
        self.size
    }

    /// Whether the end of the file was reached.
    pub fn at_eof(&self) -> (r: bool)
        ensures
            r == self.view().at_eof,
    {
        self.at_eof
    }

    /// The bytes the last read returned.
    pub fn filled(&self) -> (r: &[u8])
        requires
            self.wf(),
        ensures
            r@ == self.view().data,
    {
        match &self.buffer {
            Some(b) => vstd::slice::slice_subrange(b.as_slice(), 0, self.filled),
            None => &[],
        }
    }

    /// Begins a `read`: refused while the reader is drained with
    /// `read_to_end`; no bytes once the end was reached; else hands out the
    /// scratch buffer to be filled by one underlying read, allocating it on
    /// the first call with the optimal size for the declared size.
    pub fn start_read(&mut self) -> (r: Result<Option<Vec<u8>>, Error>)
        requires
            old(self).wf(),
        ensures
            final(self).wf(),
            read_start(old(self).view()) is Refused ==> {
                &&& r matches Err(e) && e@ == seq![ErrorKind::MemOpFailed("read after read_to_end")]
                &&& final(self).view() == old(self).view()
                &&& final(self).scratch() == old(self).scratch()
            },
            read_start(old(self).view()) is Exhausted ==> {
                &&& r matches Ok(None)
                &&& final(self).view() == old(self).view()
                &&& final(self).scratch() == old(self).scratch()
            },
            read_start(old(self).view()) is Fill ==> {
                &&& r matches Ok(Some(buf)) && buf@.len() == optimal_size(old(self).view().size as int)
                &&& old(self).scratch() matches Some(b) ==> (r matches Ok(Some(buf)) && buf@ == b)
                &&& old(self).scratch() is None ==> (r matches Ok(Some(buf)) && buf@ == Seq::new(
                    optimal_size(old(self).view().size as int) as nat,
                    |i: int| 0u8,
                ))
                &&& final(self).scratch() is None
                &&& final(self).view() == (ReaderView {
                    size: old(self).view().size,
                    data: Seq::empty(),
                    at_eof: false,
                    style: Some(DrainStyle::Chunks),
                })
            },
    {
        if matches!(self.style, Some(DrainStyle::ToEnd)) {
            return Err(Error::new(ErrorKind::MemOpFailed("read after read_to_end")));
        }
        if self.at_eof {
            return Ok(None);
        }
        let buf = match self.buffer.take() {
            Some(b) => b,
            None => vec![0u8; optimal_buffer_size(self.size)],
        };
        self.filled = 0;
        self.style = Some(DrainStyle::Chunks);
        Ok(Some(buf))
    }

    /// Ends a `read` whose underlying read put `n` bytes at the start of
    /// `buf`, the scratch buffer that `start_read` handed out; no bytes
    /// means the end of the file.
    pub fn finish_read(&mut self, buf: Vec<u8>, n: usize)
        requires
            old(self).wf(),
            old(self).view().style == Some(DrainStyle::Chunks),
            buf@.len() == optimal_size(old(self).view().size as int),
            n <= buf@.len(),
        ensures
            final(self).wf(),
            final(self).view() == after_read(old(self).view(), buf@.subrange(0, n as int)),
            final(self).scratch() == Some(buf@),
    {
        self.buffer = Some(buf);
        self.filled = n;
        self.at_eof = n == 0;
    }

    /// Ends a `read` whose underlying read failed: the scratch buffer comes
    /// back and the call returned no bytes; the end was not reached.
    pub fn abort_read(&mut self, buf: Vec<u8>)
        requires
            old(self).wf(),
            old(self).view().style == Some(DrainStyle::Chunks),
            buf@.len() == optimal_size(old(self).view().size as int),
        ensures
            final(self).wf(),
            final(self).view() == (ReaderView { data: Seq::empty(), ..old(self).view() }),
            final(self).scratch() == Some(buf@),
    {
        self.buffer = Some(buf);
        self.filled = 0;
        assert(self.view().data =~= Seq::<u8>::empty());
    }

    /// Begins a `read_to_end`: refused while the reader is read one call at
    /// a time; no bytes once the end was reached; else hands out the scratch
    /// buffer, emptied, to take everything that is left.
    pub fn start_drain(&mut self) -> (r: Result<Option<Vec<u8>>, Error>)
        requires
            old(self).wf(),
        ensures
            final(self).wf(),
            drain_start(old(self).view()) is Refused ==> {
                &&& r matches Err(e) && e@ == seq![ErrorKind::MemOpFailed("read_to_end after read")]
                &&& final(self).view() == old(self).view()
                &&& final(self).scratch() == old(self).scratch()
            },
            drain_start(old(self).view()) is Exhausted ==> {
                &&& r matches Ok(None)
                &&& final(self).view() == (ReaderView { data: Seq::empty(), ..old(self).view() })
                &&& final(self).scratch() == old(self).scratch()
            },
            drain_start(old(self).view()) is Fill ==> {
                &&& r matches Ok(Some(buf)) && buf@.len() == 0
                &&& final(self).scratch() is None
                &&& final(self).view() == (ReaderView {
                    size: old(self).view().size,
                    data: Seq::empty(),
                    at_eof: false,
                    style: Some(DrainStyle::ToEnd),
                })
            },
    {
        if matches!(self.style, Some(DrainStyle::Chunks)) {
            return Err(Error::new(ErrorKind::MemOpFailed("read_to_end after read")));
        }
        if self.at_eof {
            self.filled = 0;
            assert(self.view().data =~= Seq::<u8>::empty());
            return Ok(None);
        }
        let mut buf = match self.buffer.take() {
            Some(b) => b,
            None => Vec::with_capacity(optimal_buffer_size(self.size)),
        };
        buf.clear();
        self.filled = 0;
        self.style = Some(DrainStyle::ToEnd);
        Ok(Some(buf))
    }

    /// Ends a `read_to_end` that put everything that was left into `buf`.
    pub fn finish_drain(&mut self, buf: Vec<u8>)
        requires
            old(self).wf(),
            old(self).view().style == Some(DrainStyle::ToEnd),
        ensures
            final(self).wf(),
            final(self).view() == (ReaderView {
                size: old(self).view().size,
                data: buf@,
                at_eof: true,
                style: Some(DrainStyle::ToEnd),
            }),
            final(self).scratch() == Some(buf@),
    {
        self.filled = buf.len();
        self.buffer = Some(buf);
        self.at_eof = true;
        assert(self.view().data =~= buf@);
    }

    /// Ends a `read_to_end` whose underlying reads failed: the buffer comes
    /// back emptied and the call returned no bytes.
    pub fn abort_drain(&mut self, buf: Vec<u8>)
        requires
            old(self).wf(),
            old(self).view().style == Some(DrainStyle::ToEnd),
        ensures
            final(self).wf(),
            final(self).scratch() == Some(Seq::<u8>::empty()),
            final(self).view() == (ReaderView { data: Seq::empty(), ..old(self).view() }),
    {
        let mut buf = buf;
        buf.clear();
        self.buffer = Some(buf);
        self.filled = 0;
        assert(self.view().data =~= Seq::<u8>::empty());
    }
}

} // verus!
