//! Reading a memory-mapped file through a cursor.
use vstd::prelude::*;

use memmap::Mmap;

verus! {

/// `memmap::Mmap`, a read-only memory map, carried opaquely: its bytes are
/// reached only through `mapped_bytes`.
#[verifier::external_type_specification]
#[verifier::external_body]
pub struct ExMmap(Mmap);

/// The bytes a memory map holds. A `memmap::Mmap` is an immutable buffer:
/// its pointer and length are fixed when it is made.
pub uninterp spec fn mmap_contents(m: Mmap) -> Seq<u8>;

/// Relies on `<memmap::Mmap as Deref>::deref`: the mapped bytes as a slice,
/// built from the map's fixed pointer and length, the same on every call.
#[verifier::external_body]
fn mapped_bytes(map: &Mmap) -> (r: &[u8])
    ensures
        r@ == mmap_contents(*map),
{
    std::ops::Deref::deref(map)
}

/// The bytes one read takes from `data` at `pos` into a buffer of `cap`
/// bytes: as many as fit, up to the end of `data`.
pub open spec fn chunk(data: Seq<u8>, pos: int, cap: int) -> Seq<u8> {
    if pos >= data.len() {
        Seq::empty()
    } else if pos + cap <= data.len() {
        data.subrange(pos, pos + cap)
    } else {
        data.subrange(pos, data.len() as int)
    }
}

/// Everything that reads of `cap` bytes each take from `data`, starting at
/// `pos`, until a read takes nothing.
pub open spec fn drain(data: Seq<u8>, pos: int, cap: int) -> Seq<u8>
    decreases data.len() - pos,
    when cap > 0 && pos >= 0
{
    if pos >= data.len() {
        Seq::empty()
    } else {
        chunk(data, pos, cap) + drain(data, pos + chunk(data, pos, cap).len(), cap)
    }
}

/// Reading a byte sequence to its end in chunks of any positive size yields
/// exactly the bytes from the start position on, so a mapped file read in
/// full yields the file's bytes, as many as there are.
pub proof fn lemma_drain_yields_rest(data: Seq<u8>, pos: int, cap: int)
    requires
        cap > 0,
        0 <= pos <= data.len(),
    ensures
        drain(data, pos, cap) == data.subrange(pos, data.len() as int),
    decreases data.len() - pos,
{
    if pos < data.len() {
        let c = chunk(data, pos, cap);
        lemma_drain_yields_rest(data, pos + c.len(), cap);
        assert(c + data.subrange(pos + c.len(), data.len() as int) =~= data.subrange(
            pos,
            data.len() as int,
        ));
    } else {
        assert(data.subrange(pos, data.len() as int) =~= Seq::<u8>::empty());
    }
}

/// Copies the next bytes of `data`, from `pos` on, into `buf`: as many as
/// `buf` holds, up to the end of `data`. Returns how many were copied; the
/// rest of `buf` is left as it was.
pub fn copy_from(data: &[u8], pos: usize, buf: &mut [u8]) -> (n: usize)
    ensures
        n == chunk(data@, pos as int, old(buf)@.len() as int).len(),
        final(buf)@.len() == old(buf)@.len(),
        final(buf)@.subrange(0, n as int) == chunk(data@, pos as int, old(buf)@.len() as int),
        final(buf)@.subrange(n as int, final(buf)@.len() as int) == old(buf)@.subrange(
            n as int,
            old(buf)@.len() as int,
        ),
{
    if pos >= data.len() {
        proof {
            assert(final(buf)@.subrange(0, 0) =~= Seq::<u8>::empty());
        }
        return 0;
    }
    let avail = data.len() - pos;
    let n: usize = if buf.len() < avail {
        buf.len()
    } else {
        avail
    };
    let mut i: usize = 0;
    while i < n
        invariant
            n <= buf@.len(),
            pos + n <= data@.len(),
            data@.len() <= usize::MAX,
            pos < data@.len(),
            i <= n,
            buf@.len() == old(buf)@.len(),
            forall|k: int| 0 <= k < i ==> buf@[k] == data@[pos + k],
            forall|k: int| n <= k < buf@.len() ==> buf@[k] == old(buf)@[k],
        decreases n - i,
    {
        buf[i] = data[pos + i];
        i = i + 1;
    }
    proof {
        assert(buf@.subrange(0, n as int) =~= chunk(data@, pos as int, old(buf)@.len() as int));
        assert(buf@.subrange(n as int, buf@.len() as int) =~= old(buf)@.subrange(
            n as int,
            old(buf)@.len() as int,
        ));
    }
    n
}

/// A read position over a read-only memory map of a whole file.
pub struct MmapCursor {
    map: Mmap,
    pos: usize,
}

impl MmapCursor {
    /// A cursor at the start of `map`.
    pub fn new(map: Mmap) -> (c: MmapCursor)
        ensures
            c.position() == 0,
            c.data() == mmap_contents(map),
    {
        MmapCursor { map, pos: 0 }
    }

    /// The mapped bytes the cursor reads.
    pub closed spec fn data(&self) -> Seq<u8> {
        mmap_contents(self.map)
    }

    /// How many bytes the cursor has read so far.
    pub closed spec fn position(&self) -> nat {
        self.pos as nat
    }

    /// How many bytes the cursor has read so far.
    pub fn pos(&self) -> (r: usize)
        ensures
            r == self.position(),
    {
        self.pos
    }

    /// Copies the next bytes of the mapping into `buf` and advances past
    /// them; returns how many, zero only at the end of the mapping (or for
    /// an empty `buf`).
    pub fn read(&mut self, buf: &mut [u8]) -> (n: usize)
        ensures
            n == chunk(old(self).data(), old(self).position() as int, old(buf)@.len() as int).len(),
            final(buf)@.subrange(0, n as int) == chunk(
                old(self).data(),
                old(self).position() as int,
                old(buf)@.len() as int,
            ),
            final(self).data() == old(self).data(),
            n <= old(buf)@.len(),
            final(self).position() == old(self).position() + n,
            final(buf)@.len() == old(buf)@.len(),
            final(buf)@.subrange(n as int, final(buf)@.len() as int) == old(buf)@.subrange(
                n as int,
                old(buf)@.len() as int,
            ),
    {
        let data = mapped_bytes(&self.map);
        let n = copy_from(data, self.pos, buf);
        let len = data.len();
        assert(n == 0 || self.pos + n <= len);
        self.pos = self.pos + n;
        n
    }
}

} // verus!
