//! A bump allocator over the guest's single linear-memory page.
//!
//! The manager holds the host's copy of the page. Payloads are placed one
//! after another from the start of the page and never freed: the page is
//! dropped with the call.
use vstd::prelude::*;

use crate::allocation::AllocationDescriptor;

verus! {

/// The size in bytes of one page of guest linear memory.
pub const PAGE_SIZE: usize = 65536;

/// Why a write into the page failed.
#[derive(Clone, Copy, Debug, PartialEq, Eq, Structural)]
pub enum AllocError {
    /// Nothing to write: there is no allocation to make.
    ZeroLength,
    /// The bytes do not fit in what is left of the page (or a read reaches
    /// past its end).
    OutOfBounds,
}

/// The page after `b` is placed at offset `at`.
pub open spec fn written_page(page: Seq<u8>, at: nat, b: Seq<u8>) -> Seq<u8> {
    page.subrange(0, at as int) + b + page.subrange((at + b.len()) as int, page.len() as int)
}

/// The bytes of `page` that `d` names, where it lies inside the page.
pub open spec fn bytes_at(page: Seq<u8>, d: AllocationDescriptor) -> Option<Seq<u8>> {
    if d.within(page.len()) {
        Some(page.subrange(d.offset as int, d.end() as int))
    } else {
        None
    }
}

/// Host-side owner of one call's guest page.
pub struct SinglePageManager {
    page: Vec<u8>,
    top: u32,
}

impl SinglePageManager {
    /// The page's bytes.
    pub closed spec fn page_bytes(&self) -> Seq<u8> {
        self.page@
    }

    /// The first free offset.
    pub closed spec fn top_offset(&self) -> nat {
        self.top as nat
    }

    /// The page has its full size and the free offset lies in it.
    pub open spec fn wf(&self) -> bool {
        &&& self.page_bytes().len() == PAGE_SIZE
        &&& self.top_offset() <= PAGE_SIZE
    }

    /// A manager over a zeroed page with nothing allocated.
    pub fn new() -> (m: Self)
        ensures
            m.wf(),
            m.top_offset() == 0,
            m.page_bytes() == Seq::new(PAGE_SIZE as nat, |i: int| 0u8),
    {
        let mut page: Vec<u8> = Vec::new();
        let mut i: usize = 0;
        while i < PAGE_SIZE
            invariant
                i <= PAGE_SIZE,
                page@ == Seq::new(i as nat, |j: int| 0u8),
            decreases PAGE_SIZE - i,
        {
            page.push(0u8);
            i = i + 1;
            assert(page@ =~= Seq::new(i as nat, |j: int| 0u8));
        }
        SinglePageManager { page, top: 0 }
    }

    /// A manager over a copy of the guest's page, with nothing allocated;
    /// `None` where the copy is not exactly one page long.
    pub fn from_page(page: Vec<u8>) -> (r: Option<Self>)
        ensures
            page@.len() == PAGE_SIZE <==> r is Some,
            r matches Some(m) ==> m.wf() && m.top_offset() == 0 && m.page_bytes() == page@,
    {
        if page.len() == PAGE_SIZE {
            Some(SinglePageManager { page, top: 0 })
        } else {
            None
        }
    }

    /// Takes a fresh copy of the guest's page after the guest has run,
    /// keeping what was allocated; returns false, changing nothing, where the
    /// copy is not exactly one page long.
    pub fn replace_page(&mut self, page: Vec<u8>) -> (replaced: bool)
        requires
            old(self).wf(),
        ensures
            final(self).wf(),
            replaced == (page@.len() == PAGE_SIZE),
            final(self).top_offset() == old(self).top_offset(),
            final(self).page_bytes() == if replaced {
                page@
            } else {
                old(self).page_bytes()
            },
    {
        if page.len() == PAGE_SIZE {
            self.page = page;
            true
        } else {
            false
        }
    }

    /// The page's bytes.
    pub fn page(&self) -> (r: &Vec<u8>)
        ensures
            r@ == self.page_bytes(),
    {
        &self.page
    }

    /// The first free offset.
    pub fn top(&self) -> (r: u32)
        requires
            self.wf(),
        ensures
            r == self.top_offset(),
            r <= PAGE_SIZE,
    {
        self.top
    }

    /// Places `bytes` at the first free offset and advances it.
    pub fn write(&mut self, bytes: &Vec<u8>) -> (r: Result<AllocationDescriptor, AllocError>)
        requires
            old(self).wf(),
        ensures
            final(self).wf(),
            bytes@.len() == 0 ==> r == Err::<AllocationDescriptor, AllocError>(
                AllocError::ZeroLength,
            ),
            bytes@.len() > 0 && old(self).top_offset() + bytes@.len() > PAGE_SIZE ==> r == Err::<
                AllocationDescriptor,
                AllocError,
            >(AllocError::OutOfBounds),
            r is Err ==> *final(self) == *old(self),
            bytes@.len() > 0 && old(self).top_offset() + bytes@.len() <= PAGE_SIZE ==> {
                &&& r == Ok::<AllocationDescriptor, AllocError>(
                    AllocationDescriptor {
                        offset: old(self).top_offset() as u32,
                        length: bytes@.len() as u32,
                    },
                )
                &&& final(self).top_offset() == old(self).top_offset() + bytes@.len()
                &&& final(self).page_bytes() == written_page(
                    old(self).page_bytes(),
                    old(self).top_offset(),
                    bytes@,
                )
            },
    {
        let len: usize = bytes.len();
        if len == 0 {
            return Err(AllocError::ZeroLength);
        }
        if len > PAGE_SIZE - self.top as usize {
            return Err(AllocError::OutOfBounds);
        }
        let start: usize = self.top as usize;
        let ghost before = self.page@;
        let mut i: usize = 0;
        while i < len
            invariant
                len == bytes@.len(),
                start + len <= PAGE_SIZE,
                i <= len,
                self.page@.len() == PAGE_SIZE,
                before.len() == PAGE_SIZE,
                self.top == old(self).top,
                self.page@ == before.subrange(0, start as int) + bytes@.subrange(0, i as int)
                    + before.subrange(start + i, PAGE_SIZE as int),
            decreases len - i,
        {
            self.page.set(start + i, bytes[i]);
            i = i + 1;
            assert(self.page@ =~= before.subrange(0, start as int) + bytes@.subrange(0, i as int)
                + before.subrange(start + i, PAGE_SIZE as int));
        }
        assert(bytes@.subrange(0, len as int) =~= bytes@);
        self.top = (start + len) as u32;
        Ok(AllocationDescriptor { offset: start as u32, length: len as u32 })
    }

    /// Copies out the bytes that `d` names; fails where they reach past the
    /// end of the page.
    pub fn read(&self, d: AllocationDescriptor) -> (r: Result<Vec<u8>, AllocError>)
        requires
            self.wf(),
        ensures
            match bytes_at(self.page_bytes(), d) {
                Some(b) => r matches Ok(v) && v@ == b,
                None => r == Err::<Vec<u8>, AllocError>(AllocError::OutOfBounds),
            },
    {
        let start: usize = d.offset as usize;
        let len: usize = d.length as usize;
        if start > PAGE_SIZE || len > PAGE_SIZE - start {
            return Err(AllocError::OutOfBounds);
        }
        let mut out: Vec<u8> = Vec::new();
        let mut i: usize = 0;
        while i < len
            invariant
                start + len <= PAGE_SIZE,
                self.page@.len() == PAGE_SIZE,
                i <= len,
                out@ == self.page@.subrange(start as int, start + i),
            decreases len - i,
        {
            out.push(self.page[start + i]);
            i = i + 1;
            assert(out@ =~= self.page@.subrange(start as int, start + i));
        }
        Ok(out)
    }
}

/// Reading back what was just written gives the bytes written: for every
/// non-empty `b` that fits in what is left of the page, the descriptor that
/// `write` returns names exactly `b` in the page that `write` leaves.
pub proof fn lemma_read_after_write(page: Seq<u8>, top: nat, b: Seq<u8>)
    requires
        page.len() == PAGE_SIZE,
        0 < b.len(),
        top + b.len() <= PAGE_SIZE,
    ensures
        bytes_at(
            written_page(page, top, b),
            AllocationDescriptor { offset: top as u32, length: b.len() as u32 },
        ) == Some(b),
{
    let p = written_page(page, top, b);
    assert(p.len() == PAGE_SIZE);
    assert(p.subrange(top as int, (top + b.len()) as int) =~= b);
}

} // verus!
