//! Page arithmetic, page-cache residency accounting and the checks on
//! what system calls return.
use vstd::prelude::*;

use crate::errors::{Error, ErrorKind};

verus! {

/// Size of one memory page, in bytes.
pub const PAGE_SIZE: usize = 4096;

/// The number of pages that `b` bytes occupy: `b / PAGE_SIZE` rounded up.
pub open spec fn pages_for(b: int) -> int {
    if b % (PAGE_SIZE as int) == 0 {
        b / (PAGE_SIZE as int)
    } else {
        b / (PAGE_SIZE as int) + 1
    }
}

/// The number of pages that `bytes` bytes occupy.
pub fn bytes_in_pages(bytes: usize) -> (r: usize)
    ensures
        r == pages_for(bytes as int),
        r * PAGE_SIZE >= bytes,
        bytes > 0 ==> (r - 1) * PAGE_SIZE < bytes,
        bytes == 0 ==> r == 0,
{
    if bytes % PAGE_SIZE == 0 {
        bytes / PAGE_SIZE
    } else {
        bytes / PAGE_SIZE + 1
    }
}

/// The number of pages of `p` bytes that `b` bytes occupy: `b / p`
/// rounded up.
pub open spec fn pages_of(b: int, p: int) -> int {
    if b % p == 0 {
        b / p
    } else {
        b / p + 1
    }
}

/// The number of pages of `page_size` bytes that `bytes` bytes occupy.
pub fn pages_in(bytes: usize, page_size: usize) -> (r: usize)
    requires
        page_size > 0,
    ensures
        r == pages_of(bytes as int, page_size as int),
        bytes == 0 ==> r == 0,
{
    proof {
        vstd::arithmetic::div_mod::lemma_fundamental_div_mod(bytes as int, page_size as int);
        vstd::arithmetic::div_mod::lemma_mod_bound(bytes as int, page_size as int);
        vstd::arithmetic::div_mod::lemma_div_pos_is_pos(bytes as int, page_size as int);
        if bytes == 0 {
            vstd::arithmetic::div_mod::lemma_div_of0(page_size as int);
        }
        let q = bytes as int / page_size as int;
        assert(page_size as int * q >= q) by (nonlinear_arith)
            requires
                page_size > 0,
                q >= 0,
        ;
    }
    if bytes % page_size == 0 {
        bytes / page_size
    } else {
        bytes / page_size + 1
    }
}

/// The number of entries of a residency vector whose lowest bit is set.
pub open spec fn resident_count(v: Seq<u8>) -> nat
    decreases v.len(),
{
    if v.len() == 0 {
        0
    } else {
        resident_count(v.drop_last()) + (if v.last() % 2 == 1 {
            1nat
        } else {
            0nat
        })
    }
}

proof fn lemma_resident_count_bound(v: Seq<u8>)
    ensures
        resident_count(v) <= v.len(),
    decreases v.len(),
{
    if v.len() > 0 {
        lemma_resident_count_bound(v.drop_last());
    }
}

/// A snapshot of how many pages of a file were resident in the page cache.
#[derive(Debug)]
pub struct PageCacheInfo {
    total: usize,
    cached: usize,
}

impl PageCacheInfo {
    /// The number of pages the file occupies.
    pub closed spec fn total_spec(&self) -> nat {
        self.total as nat
    }

    /// The number of those pages that were resident.
    pub closed spec fn cached_spec(&self) -> nat {
        self.cached as nat
    }

    /// The number of pages the file occupies.
    pub fn total(&self) -> (r: usize)
        ensures
            r == self.total_spec(),
    {
        self.total
    }

    /// The number of those pages that were resident.
    pub fn cached(&self) -> (r: usize)
        ensures
            r == self.cached_spec(),
    {
        self.cached
    }

    /// Counts the resident pages of a file of `file_size` bytes, in pages of
    /// `page_size` bytes, from its residency vector: one entry per page,
    /// whose lowest bit tells whether the page is resident.
    ///
    /// Fails with `MemOpFailed` when the vector does not hold exactly one
    /// entry per page.
    pub fn from_residency(file_size: usize, page_size: usize, residency: &[u8]) -> (r: Result<
        PageCacheInfo,
        Error,
    >)
        requires
            page_size > 0,
        ensures
            r is Ok <==> residency@.len() == pages_of(file_size as int, page_size as int),
            r matches Ok(info) ==> {
                &&& info.total_spec() == pages_of(file_size as int, page_size as int)
                &&& file_size == 0 ==> info.total_spec() == 0
                &&& info.cached_spec() == resident_count(residency@)
                &&& info.cached_spec() <= info.total_spec()
            },
            r matches Err(e) ==> e@ == seq![ErrorKind::MemOpFailed("residency vector length")],
    {
        let total = pages_in(file_size, page_size);
        if residency.len() != total {
            return Err(Error::new(ErrorKind::MemOpFailed("residency vector length")));
        }
        let mut cached: usize = 0;
        let mut i: usize = 0;
        while i < residency.len()
            invariant
                i <= residency@.len(),
                cached == resident_count(residency@.subrange(0, i as int)),
                cached <= i,
            decreases residency@.len() - i,
        {
            proof {
                let next = residency@.subrange(0, i as int + 1);
                assert(next.drop_last() =~= residency@.subrange(0, i as int));
            }
            if residency[i] % 2 == 1 {
                cached = cached + 1;
            }
            i = i + 1;
        }
        proof {
            assert(residency@.subrange(0, i as int) =~= residency@);
            lemma_resident_count_bound(residency@);
        }
        Ok(PageCacheInfo { total, cached })
    }
}

/// Turns the return code of a libc call into a result: a negative code is
/// a failure of `syscall`, reported as a failed file operation caused by it.
pub fn libc_result(code: i64, syscall: &'static str) -> (r: Result<(), Error>)
    ensures
        r is Ok <==> code >= 0,
        r matches Err(e) ==> e@ == seq![ErrorKind::FileOpFailed, ErrorKind::LibcFailed(syscall)],
{
    if code < 0 {
        Err(Error::libc_failed(syscall))
    } else {
        Ok(())
    }
}

/// Whether `n` is a positive power of two.
pub open spec fn is_power_of_two(n: int) -> bool
    decreases n,
{
    if n <= 0 {
        false
    } else if n == 1 {
        true
    } else if n % 2 == 1 {
        false
    } else {
        is_power_of_two(n / 2)
    }
}

/// Checks the page size that the system reported: it is accepted when it
/// is a positive power of two that fits a `usize`, else the probe counts
/// as a failed `sysconf` call.
pub fn page_size_from_probe(raw: i64) -> (r: Result<usize, Error>)
    ensures
        r is Ok <==> is_power_of_two(raw as int) && raw <= usize::MAX,
        r matches Ok(p) ==> p == raw,
        r matches Err(e) ==> e@ == seq![ErrorKind::FileOpFailed, ErrorKind::LibcFailed("sysconf")],
{
    if raw <= 0 || raw as u64 > usize::MAX as u64 {
        return Err(Error::libc_failed("sysconf"));
    }
    let mut n: u64 = raw as u64;
    while n % 2 == 0
        invariant
            n > 0,
            is_power_of_two(n as int) == is_power_of_two(raw as int),
        decreases n,
    {
        n = n / 2;
    }
    if n == 1 {
        Ok(raw as usize)
    } else {
        Err(Error::libc_failed("sysconf"))
    }
}

} // verus!
