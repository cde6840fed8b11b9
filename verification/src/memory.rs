//! Linear memory and the bounds-checked access layer.
//!
//! A guest hands the host plain numbers for addresses and lengths. Every read
//! and write of a linear memory goes through [`LinearMemory::read_into`],
//! [`LinearMemory::read`] or [`LinearMemory::write_from`], which check the
//! whole range before a single byte moves.

use vstd::prelude::*;

use crate::error::HostError;

verus! {

/// The size of one wasm page in bytes.
pub const PAGE_SIZE: u32 = 65536;

/// The largest number of pages a linear memory can have (4 GiB of pages).
pub const MAX_WASM_PAGES: u32 = 65536;

/// The largest number of bytes one allocation may ask for (32 MiB).
pub const MAX_POSSIBLE_ALLOCATION: u32 = 33_554_432;

/// `len` zero bytes.
pub open spec fn zeroes(len: nat) -> Seq<u8> {
    Seq::new(len, |i: int| 0u8)
}

/// Whether the `len` bytes from `address` on lie inside a memory of `size` bytes.
pub open spec fn in_bounds(size: nat, address: u32, len: nat) -> bool {
    address as nat + len <= size
}

/// The `len` bytes of `contents` from `address` on.
pub open spec fn bytes_at(contents: Seq<u8>, address: u32, len: nat) -> Seq<u8>
    recommends
        in_bounds(contents.len(), address, len),
{
    contents.subrange(address as int, address as int + len as int)
}

/// `contents` with `data` laid over it from `address` on.
pub open spec fn overwritten(contents: Seq<u8>, address: u32, data: Seq<u8>) -> Seq<u8>
    recommends
        in_bounds(contents.len(), address, data.len()),
{
    Seq::new(
        contents.len(),
        |i: int|
            if address as int <= i < address as int + data.len() {
                data[i - address as int]
            } else {
                contents[i]
            },
    )
}

/// Whether `after` is `before` but for the `len` bytes from `start` on: every
/// other byte of `before` is kept, and what `after` has past the end of
/// `before` is zero.
pub open spec fn same_but_range(before: Seq<u8>, after: Seq<u8>, start: int, len: int) -> bool {
    &&& after.len() >= before.len()
    &&& forall|i: int|
        0 <= i < after.len() && !(start <= i < start + len) ==> #[trigger] after[i] == if i
            < before.len() {
            before[i]
        } else {
            0u8
        }
}

/// Bytes that were written are the bytes that are read back: reading a range
/// right after writing `data` to it gives `data`.
pub proof fn lemma_write_then_read(contents: Seq<u8>, address: u32, data: Seq<u8>)
    requires
        in_bounds(contents.len(), address, data.len()),
    ensures
        in_bounds(overwritten(contents, address, data).len(), address, data.len()),
        bytes_at(overwritten(contents, address, data), address, data.len()) == data,
{
    assert(bytes_at(overwritten(contents, address, data), address, data.len()) =~= data);
}

/// A write changes the bytes of its range and nothing else: the memory keeps
/// its size and every byte outside the range.
pub proof fn lemma_write_keeps_the_rest(contents: Seq<u8>, address: u32, data: Seq<u8>, at: int)
    requires
        in_bounds(contents.len(), address, data.len()),
        0 <= at < contents.len(),
        at < address || at >= address + data.len(),
    ensures
        overwritten(contents, address, data).len() == contents.len(),
        overwritten(contents, address, data)[at] == contents[at],
{
}

/// The number of whole pages in `len` bytes.
pub open spec fn page_count(len: nat) -> nat {
    len / (PAGE_SIZE as nat)
}

/// A whole number of pages is that many pages, with nothing left over.
pub proof fn lemma_whole_pages(pages: nat)
    ensures
        (pages * (PAGE_SIZE as nat)) % (PAGE_SIZE as nat) == 0,
        page_count(pages * (PAGE_SIZE as nat)) == pages,
{
    assert((pages * 65536) % 65536 == 0 && (pages * 65536) / 65536 == pages) by (nonlinear_arith);
}

/// What every linear memory keeps: it is made of whole pages, no more than the
/// wasm limit, and no more than its own maximum where it has one.
pub open spec fn is_paged(contents: Seq<u8>, limit: Option<u32>) -> bool {
    &&& contents.len() % (PAGE_SIZE as nat) == 0
    &&& page_count(contents.len()) <= MAX_WASM_PAGES
    &&& limit matches Some(maximum) ==> page_count(contents.len()) <= maximum <= MAX_WASM_PAGES
}

/// The page count up to which a memory with this `limit` may grow.
pub open spec fn effective_limit(limit: Option<u32>) -> u32 {
    match limit {
        Some(maximum) => maximum,
        None => MAX_WASM_PAGES,
    }
}

/// Grants the allocator access to a linear memory.
///
/// Memory of wasm is allocated in pages of 64 KiB, up to 65536 of them.
pub trait Memory {
    /// The bytes of the memory.
    spec fn contents(&self) -> Seq<u8>;

    /// The maximum number of pages, if the memory has one of its own.
    spec fn page_limit(&self) -> Option<u32>;

    /// Runs `run` with write access to the raw memory. The closure sees the
    /// current bytes; what it leaves in the slice is the memory afterwards.
    /// A slice keeps its length whatever is done to it, which the second
    /// condition on `run` spells out.
    fn with_access_mut<R, F: FnOnce(&mut [u8]) -> R>(&mut self, run: F) -> (result: R)
        requires
            is_paged(old(self).contents(), old(self).page_limit()),
            forall|bytes: &mut [u8]| bytes@ == old(self).contents() ==> call_requires(run, (bytes, )),
            forall|bytes: &mut [u8], result: R| #[trigger]
                call_ensures(run, (bytes, ), result) ==> final(bytes)@.len() == bytes@.len(),
        ensures
            final(self).page_limit() == old(self).page_limit(),
            final(self).contents().len() == old(self).contents().len(),
            exists|bytes: &mut [u8]|
                bytes@ == old(self).contents() && final(bytes)@ == final(self).contents()
                    && call_ensures(run, (bytes, ), result),
    ;

    /// Runs `run` with read access to the raw memory.
    fn with_access<R, F: FnOnce(&[u8]) -> R>(&self, run: F) -> (result: R)
        requires
            is_paged(self.contents(), self.page_limit()),
            forall|bytes: &[u8]| bytes@ == self.contents() ==> call_requires(run, (bytes, )),
        ensures
            exists|bytes: &[u8]| bytes@ == self.contents() && call_ensures(run, (bytes, ), result),
    ;

    /// Grows the memory by `additional` zeroed pages, or leaves it as it is.
    fn grow(&mut self, additional: u32) -> (result: Result<(), ()>)
        requires
            is_paged(old(self).contents(), old(self).page_limit()),
        ensures
            is_paged(final(self).contents(), final(self).page_limit()),
            final(self).page_limit() == old(self).page_limit(),
            result is Ok ==> final(self).contents() == old(self).contents() + zeroes(
                (additional as nat) * (PAGE_SIZE as nat),
            ),
            result is Err ==> final(self).contents() == old(self).contents(),
    ;

    /// The current number of pages.
    fn pages(&self) -> (count: u32)
        requires
            is_paged(self.contents(), self.page_limit()),
        ensures
            count == page_count(self.contents().len()),
    ;

    /// The maximum number of pages this memory may have, or `None` where only
    /// the wasm limit applies.
    fn max_pages(&self) -> (limit: Option<u32>)
        ensures
            limit == self.page_limit(),
    ;
}

/// A linear memory held as plain bytes.
#[derive(Clone, Debug, PartialEq, Eq)]
pub struct LinearMemory {
    bytes: Vec<u8>,
    maximum: Option<u32>,
}

impl View for LinearMemory {
    type V = Seq<u8>;

    closed spec fn view(&self) -> Seq<u8> {
        self.bytes@
    }
}

impl LinearMemory {
    /// The maximum number of pages the memory was made with.
    pub closed spec fn limit(&self) -> Option<u32> {
        self.maximum
    }

    /// The invariant of a linear memory.
    pub open spec fn wf(&self) -> bool {
        is_paged(self@, self.limit())
    }

    /// Whether a memory of `initial` pages and this `maximum` can be made.
    pub open spec fn valid_limits(initial: u32, maximum: Option<u32>) -> bool {
        &&& initial <= MAX_WASM_PAGES
        &&& (initial as nat) * (PAGE_SIZE as nat) <= usize::MAX
        &&& maximum matches Some(m) ==> initial <= m <= MAX_WASM_PAGES
    }

    /// Whether this memory can take `additional` more pages.
    pub open spec fn can_grow(&self, additional: u32) -> bool {
        &&& page_count(self@.len()) + additional <= effective_limit(self.limit())
        &&& self@.len() + (additional as nat) * (PAGE_SIZE as nat) <= usize::MAX
    }

    /// A zeroed memory of `initial` pages that may grow up to `maximum` pages.
    pub fn new(initial: u32, maximum: Option<u32>) -> (made: Option<LinearMemory>)
        ensures
            made is Some <==> Self::valid_limits(initial, maximum),
            made matches Some(memory) ==> {
                &&& memory.wf()
                &&& memory@ == zeroes((initial as nat) * (PAGE_SIZE as nat))
                &&& memory.limit() == maximum
            },
    {
        if initial > MAX_WASM_PAGES {
            return None;
        }
        match maximum {
            Some(m) => {
                if initial > m || m > MAX_WASM_PAGES {
                    return None;
                }
            },
            None => {},
        }
        assert((initial as u64) * (PAGE_SIZE as u64) <= 0x1_0000_0000) by (nonlinear_arith)
            requires
                initial <= 65536,
                PAGE_SIZE == 65536,
        ;
        let len: u64 = (initial as u64) * (PAGE_SIZE as u64);
        if len > usize::MAX as u64 {
            return None;
        }
        let mut bytes: Vec<u8> = Vec::new();
        bytes.resize(len as usize, 0u8);
        proof {
            lemma_whole_pages(initial as nat);
        }
        assert(bytes@ =~= zeroes((initial as nat) * (PAGE_SIZE as nat)));
        Some(LinearMemory { bytes, maximum })
    }

    /// Takes over `bytes` as a memory, if they are whole pages within the
    /// limits.
    pub fn from_bytes(bytes: Vec<u8>, maximum: Option<u32>) -> (made: Option<LinearMemory>)
        ensures
            made is Some <==> is_paged(bytes@, maximum),
            made matches Some(memory) ==> memory@ == bytes@ && memory.limit() == maximum,
    {
        let len = bytes.len();
        if len % (PAGE_SIZE as usize) != 0 {
            return None;
        }
        let pages = len / (PAGE_SIZE as usize);
        if pages > MAX_WASM_PAGES as usize {
            return None;
        }
        match maximum {
            Some(m) => {
                if pages > m as usize || m > MAX_WASM_PAGES {
                    return None;
                }
            },
            None => {},
        }
        Some(LinearMemory { bytes, maximum })
    }

    /// Gives the bytes back.
    pub fn into_bytes(self) -> (bytes: Vec<u8>)
        ensures
            bytes@ == self@,
    {
        self.bytes
    }

    /// The bytes of the memory.
    pub fn as_bytes(&self) -> (bytes: &[u8])
        ensures
            bytes@ == self@,
    {
        self.bytes.as_slice()
    }

    /// The size of the memory in bytes.
    pub fn size(&self) -> (len: usize)
        ensures
            len == self@.len(),
    {
        self.bytes.len()
    }

    /// Whether the `len` bytes from `address` on lie inside the memory.
    pub fn contains_range(&self, address: u32, len: usize) -> (inside: bool)
        ensures
            inside == in_bounds(self@.len(), address, len as nat),
    {
        let size = self.bytes.len();
        (address as usize) <= size && len <= size - (address as usize)
    }

    /// Copies `dest.len()` bytes from `address` on into `dest`, or fails and
    /// leaves `dest` as it was.
    pub fn read_into(&self, address: u32, dest: &mut [u8]) -> (result: Result<(), HostError>)
        ensures
            in_bounds(self@.len(), address, old(dest)@.len()) ==> result is Ok && final(dest)@
                == bytes_at(self@, address, old(dest)@.len()),
            !in_bounds(self@.len(), address, old(dest)@.len()) ==> result == Err::<(), HostError>(
                HostError::ReadOutOfBounds,
            ) && final(dest)@ == old(dest)@,
    {
        let len = dest.len();
        if !self.contains_range(address, len) {
            return Err(HostError::ReadOutOfBounds);
        }
        let start = address as usize;
        let size = self.bytes.len();
        let mut i: usize = 0;
        while i < len
            invariant
                i <= len,
                len == dest@.len(),
                size == self.bytes@.len(),
                start + len <= size,
                start == address,
                forall|k: int| 0 <= k < i ==> dest@[k] == self.bytes@[start + k],
            decreases len - i,
        {
            dest[i] = self.bytes[start + i];
            i += 1;
        }
        assert(dest@ =~= bytes_at(self@, address, len as nat));
        Ok(())
    }

    /// The `len` bytes from `address` on.
    pub fn read(&self, address: u32, len: usize) -> (result: Result<Vec<u8>, HostError>)
        ensures
            in_bounds(self@.len(), address, len as nat) ==> result is Ok && result->Ok_0@
                == bytes_at(self@, address, len as nat),
            !in_bounds(self@.len(), address, len as nat) ==> result == Err::<Vec<u8>, HostError>(
                HostError::ReadOutOfBounds,
            ),
    {
        if !self.contains_range(address, len) {
            return Err(HostError::ReadOutOfBounds);
        }
        let start = address as usize;
        let size = self.bytes.len();
        let mut out: Vec<u8> = Vec::with_capacity(len);
        let mut i: usize = 0;
        while i < len
            invariant
                i <= len,
                out@.len() == i,
                size == self.bytes@.len(),
                start + len <= size,
                start == address,
                forall|k: int| 0 <= k < i ==> out@[k] == self.bytes@[start + k],
            decreases len - i,
        {
            out.push(self.bytes[start + i]);
            i += 1;
        }
        assert(out@ =~= bytes_at(self@, address, len as nat));
        Ok(out)
    }

    /// Copies `data` into the memory from `address` on, or fails and leaves
    /// the memory as it was.
    pub fn write_from(&mut self, address: u32, data: &[u8]) -> (result: Result<(), HostError>)
        ensures
            final(self).limit() == old(self).limit(),
            final(self)@.len() == old(self)@.len(),
            in_bounds(old(self)@.len(), address, data@.len()) ==> result is Ok && final(self)@
                == overwritten(old(self)@, address, data@),
            !in_bounds(old(self)@.len(), address, data@.len()) ==> result == Err::<(), HostError>(
                HostError::WriteOutOfBounds,
            ) && *final(self) == *old(self),
    {
        let len = data.len();
        if !self.contains_range(address, len) {
            return Err(HostError::WriteOutOfBounds);
        }
        let start = address as usize;
        let size = self.bytes.len();
        let ghost before = self.bytes@;
        let mut i: usize = 0;
        while i < len
            invariant
                i <= len,
                len == data@.len(),
                start == address,
                size == before.len(),
                start + len <= size,
                self.bytes@.len() == before.len(),
                self.maximum == old(self).maximum,
                forall|k: int| 0 <= k < before.len() ==> self.bytes@[k] == if start <= k < start + i {
                    data@[k - start]
                } else {
                    before[k]
                },
            decreases len - i,
        {
            self.bytes[start + i] = data[i];
            i += 1;
        }
        assert(self.bytes@ =~= overwritten(before, address, data@));
        Ok(())
    }
}

impl Memory for LinearMemory {
    open spec fn contents(&self) -> Seq<u8> {
        self@
    }

    open spec fn page_limit(&self) -> Option<u32> {
        self.limit()
    }

    fn with_access_mut<R, F: FnOnce(&mut [u8]) -> R>(&mut self, run: F) -> (result: R) {
        run(self.bytes.as_mut_slice())
    }

    fn with_access<R, F: FnOnce(&[u8]) -> R>(&self, run: F) -> (result: R) {
        run(self.bytes.as_slice())
    }

    /// Succeeds exactly when the new page count stays within the limit and
    /// the new length fits the machine.
    fn grow(&mut self, additional: u32) -> (result: Result<(), ()>)
        ensures
            result is Ok <==> old(self).can_grow(additional),
            result is Err ==> *final(self) == *old(self),
    {
        let pages = self.pages();
        let limit = match self.maximum {
            Some(m) => m,
            None => MAX_WASM_PAGES,
        };
        if additional > limit - pages {
            return Err(());
        }
        let new_pages: u64 = pages as u64 + additional as u64;
        let new_len: u64 = new_pages * (PAGE_SIZE as u64);
        let ghost before = self.bytes@;
        proof {
            lemma_whole_pages(new_pages as nat);
            lemma_whole_pages(pages as nat);
            assert(before.len() == (pages as nat) * (PAGE_SIZE as nat));
            assert(new_len == before.len() + (additional as nat) * (PAGE_SIZE as nat))
                by (nonlinear_arith)
                requires
                    new_len == (pages + additional) * (PAGE_SIZE as nat),
                    before.len() == (pages as nat) * (PAGE_SIZE as nat),
            ;
        }
        if new_len > usize::MAX as u64 {
            return Err(());
        }
        self.bytes.resize(new_len as usize, 0u8);
        assert(self.bytes@ =~= before + zeroes((additional as nat) * (PAGE_SIZE as nat)));
        Ok(())
    }

    fn pages(&self) -> (count: u32) {
        (self.bytes.len() / (PAGE_SIZE as usize)) as u32
    }

    fn max_pages(&self) -> (limit: Option<u32>) {
        self.maximum
    }
}

} // verus!
