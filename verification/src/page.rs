//! The page store: whole pages read from and written to a file image.

use crate::backing::max_file_len;
use crate::backing::read_at;
use crate::backing::read_exact_at;
use crate::backing::write_all_at;
use crate::backing::write_at;
use crate::backing::IoError;
use vstd::prelude::*;

verus! {

/// The page size, in bytes, of a store that is opened without one of its own.
pub const PAGE_SIZE: usize = 8192;

/// A single page of data: an owned buffer that a read of the store fills
/// with exactly one page's bytes.
#[derive(Debug, Clone)]
pub struct Page {
    pub data: Vec<u8>,
}

/// The mathematical state of a page store.
#[verifier::ext_equal]
pub struct PagerView {
    /// The bytes of the backing file.
    pub file: Seq<u8>,
    /// The length of every page, fixed when the store is opened.
    pub page_size: nat,
    /// The number of pages that the store counts as present.
    pub page_count: nat,
}

impl PagerView {
    /// Every counted page lies wholly inside the file, and pages have a
    /// length.
    pub open spec fn wf(self) -> bool {
        &&& self.page_size > 0
        &&& self.page_count * self.page_size <= self.file.len()
    }

    /// The store as it is opened over `file`: every whole page of the file
    /// is counted, and bytes after the last whole page are not.
    pub open spec fn open(file: Seq<u8>, page_size: nat) -> PagerView {
        PagerView { file, page_size, page_count: file.len() / page_size }
    }

    /// The byte offset at which page `page_num` begins.
    pub open spec fn page_offset(self, page_num: nat) -> nat {
        page_num * self.page_size
    }

    /// Whether page `page_num` can be written at all: it has to end within
    /// the largest length a file can have.
    pub open spec fn addressable(self, page_num: nat) -> bool {
        self.page_offset(page_num) + self.page_size <= max_file_len()
    }

    /// What a read of page `page_num` gives: the bytes of the file at the
    /// page's offset, or a short read where the file ends before the page
    /// does. The page count plays no part in it.
    pub open spec fn get_page(self, page_num: nat) -> Result<Seq<u8>, IoError> {
        read_at(self.file, self.page_offset(page_num) as int, self.page_size as int)
    }

    /// What a write of `data` to page `page_num` leads to. A payload that is
    /// not one page long, or a page that is not addressable, is an error and
    /// the store stays as it is. Otherwise the payload stands at the page's
    /// offset, and a page at or beyond the count becomes the last counted
    /// page.
    pub open spec fn write_page(self, page_num: nat, data: Seq<u8>) -> Result<PagerView, IoError> {
        if data.len() != self.page_size {
            Err(IoError::InvalidInput)
        } else if !self.addressable(page_num) {
            Err(IoError::FileTooLarge)
        } else {
            Ok(
                PagerView {
                    file: write_at(self.file, self.page_offset(page_num) as int, data),
                    page_size: self.page_size,
                    page_count: if page_num >= self.page_count {
                        page_num + 1
                    } else {
                        self.page_count
                    },
                },
            )
        }
    }
}

/// Reads and writes the pages of a backing file, which it holds as a byte
/// image.
pub struct Pager {
    file: Vec<u8>,
    page_size: usize,
    page_count: usize,
}

impl View for Pager {
    type V = PagerView;

    closed spec fn view(&self) -> PagerView {
        PagerView {
            file: self.file@,
            page_size: self.page_size as nat,
            page_count: self.page_count as nat,
        }
    }
}

impl Pager {
    /// The invariant of a store.
    pub open spec fn wf(&self) -> bool {
        self@.wf()
    }

    /// Opens a store over the bytes of a backing file, with pages of
    /// `page_size` bytes. A new file is the empty image.
    pub fn new(file: Vec<u8>, page_size: usize) -> (pager: Pager)
        requires
            page_size > 0,
        ensures
            pager.wf(),
            pager@ == PagerView::open(file@, page_size as nat),
    {
        let page_count: usize = file.len() / page_size;
        proof {
            lemma_whole_pages_fit(file@.len() as int, page_size as int);
        }
        Pager { file, page_size, page_count }
    }

    /// Reads page `page_num`: exactly one page's bytes at the page's offset.
    /// The read is not held against the page count. Where the file ends
    /// before the page does, it is a short read and no page is made up.
    pub fn get_page(&self, page_num: usize) -> (r: Result<Page, IoError>)
        requires
            self.wf(),
        ensures
            match r {
                Ok(page) => self@.get_page(page_num as nat) == Ok::<Seq<u8>, IoError>(page.data@),
                Err(e) => self@.get_page(page_num as nat) == Err::<Seq<u8>, IoError>(e),
            },
            r matches Ok(page) ==> page.data@.len() == self@.page_size,
            page_num < self@.page_count ==> r is Ok,
    {
        proof {
            if page_num < self.page_count {
                lemma_counted_page_fits(
                    page_num as int,
                    self.page_count as int,
                    self.page_size as int,
                );
            }
        }
        match page_num.checked_mul(self.page_size) {
            Some(offset) => {
                match read_exact_at(&self.file, offset, self.page_size) {
                    Ok(data) => Ok(Page { data }),
                    Err(e) => Err(e),
                }
            },
            None => {
                assert(page_num * self.page_size > self.file.len());
                Err(IoError::UnexpectedEof)
            },
        }
    }

    /// Writes `data` as page `page_num`. The payload must be exactly one
    /// page long and the page addressable; otherwise the write is refused
    /// and neither the file nor the page count changes. A write at or beyond
    /// the page count makes the written page the last counted one; pages
    /// skipped on the way read as zeros until they are written.
    pub fn write_page(&mut self, page_num: usize, data: &[u8]) -> (r: Result<(), IoError>)
        requires
            old(self).wf(),
        ensures
            final(self).wf(),
            match old(self)@.write_page(page_num as nat, data@) {
                Ok(written) => r is Ok && final(self)@ == written,
                Err(e) => r == Err::<(), IoError>(e) && final(self)@ == old(self)@,
            },
            r is Err ==> final(self)@ == old(self)@,
            r is Ok ==> final(self)@.page_count == if page_num >= old(self)@.page_count {
                page_num + 1
            } else {
                old(self)@.page_count as int
            },
            final(self)@.page_size == old(self)@.page_size,
            final(self)@.page_count >= old(self)@.page_count,
    {
        if data.len() != self.page_size {
            return Err(IoError::InvalidInput);
        }
        let offset: usize = match page_num.checked_mul(self.page_size) {
            Some(offset) => offset,
            None => {
                return Err(IoError::FileTooLarge);
            },
        };
        match write_all_at(&mut self.file, offset, data) {
            Ok(()) => {},
            Err(e) => {
                return Err(e);
            },
        }
        proof {
            lemma_next_page_begins(page_num as int, self.page_size as int);
        }
        if page_num >= self.page_count {
            self.page_count = page_num + 1;
        }
        Ok(())
    }

    /// The number of pages that the store counts as present.
    pub fn page_count(&self) -> (n: usize)
        ensures
            n == self@.page_count,
    {
        self.page_count
    }

    /// The length of every page of the store.
    pub fn page_size(&self) -> (n: usize)
        ensures
            n == self@.page_size,
    {
        self.page_size
    }

    /// The bytes of the backing file as they now stand.
    pub fn file_bytes(&self) -> (bytes: &Vec<u8>)
        ensures
            bytes@ == self@.file,
    {
        &self.file
    }
}

/// A page that has been written reads back as the bytes that were written:
/// for every addressable page and every payload of one page's length, the
/// write succeeds and a read of the same page then gives the payload.
pub proof fn lemma_written_page_reads_back(store: PagerView, page_num: nat, data: Seq<u8>)
    requires
        store.wf(),
        data.len() == store.page_size,
        store.addressable(page_num),
    ensures
        store.write_page(page_num, data) is Ok,
        store.write_page(page_num, data).unwrap().wf(),
        store.write_page(page_num, data).unwrap().get_page(page_num) == Ok::<Seq<u8>, IoError>(
            data,
        ),
{
    let written = store.write_page(page_num, data).unwrap();
    let offset = store.page_offset(page_num) as int;
    lemma_write_keeps_store_well_formed(store, page_num, data);
    assert(written.file.subrange(offset, offset + store.page_size) =~= data);
}

/// A write leaves every other page as it was: a page that could be read
/// before the write reads the same afterwards.
pub proof fn lemma_write_keeps_other_pages(
    store: PagerView,
    page_num: nat,
    data: Seq<u8>,
    other: nat,
)
    requires
        store.wf(),
        other != page_num,
        store.write_page(page_num, data) is Ok,
        store.get_page(other) is Ok,
    ensures
        store.write_page(page_num, data).unwrap().get_page(other) == store.get_page(other),
{
    let written = store.write_page(page_num, data).unwrap();
    let size = store.page_size as int;
    lemma_pages_do_not_overlap(page_num as int, other as int, size);
    assert(written.file.subrange(other * size, other * size + size) =~= store.file.subrange(
        other * size,
        other * size + size,
    ));
}

/// Pages that a write beyond the end of the file skips read as zeros: where
/// page `skipped` begins at or after the old end of the file and comes
/// before the written page, a read of it gives one page of zero bytes.
pub proof fn lemma_skipped_page_reads_zero(
    store: PagerView,
    page_num: nat,
    data: Seq<u8>,
    skipped: nat,
)
    requires
        store.wf(),
        store.write_page(page_num, data) is Ok,
        skipped < page_num,
        store.file.len() <= store.page_offset(skipped),
    ensures
        store.write_page(page_num, data).unwrap().get_page(skipped) == Ok::<Seq<u8>, IoError>(
            Seq::new(store.page_size, |i: int| 0u8),
        ),
{
    let written = store.write_page(page_num, data).unwrap();
    let size = store.page_size as int;
    lemma_pages_do_not_overlap(page_num as int, skipped as int, size);
    assert(written.file.subrange(skipped * size, skipped * size + size) =~= Seq::new(
        store.page_size,
        |i: int| 0u8,
    ));
}

/// A store that is opened over an empty file counts no page, and a read of
/// any page of it is a short read.
pub proof fn lemma_empty_store_has_no_page(page_size: nat, page_num: nat)
    requires
        page_size > 0,
    ensures
        PagerView::open(Seq::empty(), page_size).wf(),
        PagerView::open(Seq::empty(), page_size).page_count == 0,
        PagerView::open(Seq::empty(), page_size).get_page(page_num) == Err::<Seq<u8>, IoError>(
            IoError::UnexpectedEof,
        ),
{
    lemma_whole_pages_fit(0, page_size as int);
    assert(0int / (page_size as int) == 0) by (nonlinear_arith)
        requires
            page_size > 0,
    ;
    assert(page_num * page_size >= 0) by (nonlinear_arith);
}

/// A read succeeds exactly when the file reaches the end of the page, and
/// so it does for every counted page.
pub proof fn lemma_counted_pages_are_readable(store: PagerView, page_num: nat)
    requires
        store.wf(),
    ensures
        store.get_page(page_num) is Ok <==> store.page_offset(page_num) + store.page_size
            <= store.file.len(),
        page_num < store.page_count ==> store.get_page(page_num) is Ok,
        store.get_page(page_num) matches Ok(bytes) ==> bytes.len() == store.page_size,
{
    if page_num < store.page_count {
        lemma_counted_page_fits(page_num as int, store.page_count as int, store.page_size as int);
    }
}

/// A successful write keeps the invariant of the store, never lowers the
/// page count, and makes a page at or beyond the count the last counted one.
pub proof fn lemma_write_keeps_store_well_formed(store: PagerView, page_num: nat, data: Seq<u8>)
    requires
        store.wf(),
        store.write_page(page_num, data) is Ok,
    ensures
        store.write_page(page_num, data).unwrap().wf(),
        store.write_page(page_num, data).unwrap().page_size == store.page_size,
        store.write_page(page_num, data).unwrap().page_count >= store.page_count,
        page_num >= store.page_count ==> store.write_page(page_num, data).unwrap().page_count
            == page_num + 1,
        page_num < store.page_count ==> store.write_page(page_num, data).unwrap().page_count
            == store.page_count,
{
    lemma_next_page_begins(page_num as int, store.page_size as int);
}

/// Two different pages share no byte.
proof fn lemma_pages_do_not_overlap(a: int, b: int, page_size: int)
    by (nonlinear_arith)
    requires
        0 <= a,
        0 <= b,
        a != b,
        0 < page_size,
    ensures
        a < b ==> a * page_size + page_size <= b * page_size,
        b < a ==> b * page_size + page_size <= a * page_size,
{
}

/// The whole pages of a file of `len` bytes lie inside it.
proof fn lemma_whole_pages_fit(len: int, page_size: int)
    by (nonlinear_arith)
    requires
        0 <= len,
        0 < page_size,
    ensures
        0 <= len / page_size,
        (len / page_size) * page_size <= len,
{
}

/// A page below the count ends inside whatever the counted pages fit in.
proof fn lemma_counted_page_fits(page_num: int, page_count: int, page_size: int)
    by (nonlinear_arith)
    requires
        0 <= page_num < page_count,
        0 < page_size,
    ensures
        page_num * page_size + page_size <= page_count * page_size,
{
}

/// The page after `page_num` begins where page `page_num` ends, and a page
/// of some length ends after at least as many bytes as its number plus one.
proof fn lemma_next_page_begins(page_num: int, page_size: int)
    by (nonlinear_arith)
    requires
        0 <= page_num,
        0 < page_size,
    ensures
        (page_num + 1) * page_size == page_num * page_size + page_size,
        page_num + 1 <= page_num * page_size + page_size,
{
}

} // verus!
