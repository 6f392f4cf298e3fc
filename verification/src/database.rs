//! The storage handle: a page store behind an open/closed lifecycle.

use crate::backing::IoError;
use crate::config::Config;
use crate::page::lemma_empty_store_has_no_page;
use crate::page::lemma_written_page_reads_back;
use crate::page::Page;
use crate::page::Pager;
use crate::page::PagerView;
use crate::page::PAGE_SIZE;
use vstd::prelude::*;

verus! {

/// Why an operation on a storage handle failed.
#[derive(Debug, Clone, Copy, PartialEq, Eq, Structural)]
pub enum DatabaseError {
    /// The handle was closed before the operation, a second close included.
    Closed,
    /// The page number does not name a page.
    InvalidPageId,
    /// The page size is not one the store can work with.
    InvalidPageSize,
    /// The page store failed; the cause is inside.
    Io(IoError),
}

impl DatabaseError {
    /// The text that describes the failure. A failure of the page store is
    /// described by the store's own text after a fixed prefix.
    pub open spec fn spec_message(self) -> Seq<char> {
        match self {
            DatabaseError::Closed => "database is closed"@,
            DatabaseError::InvalidPageId => "invalid page ID"@,
            DatabaseError::InvalidPageSize => "invalid page size"@,
            DatabaseError::Io(e) => "io error: "@ + e.spec_message(),
        }
    }

    /// Describes the failure in words.
    pub fn message(&self) -> (text: String)
        ensures
            text@ == self.spec_message(),
    {
        match self {
            DatabaseError::Closed => String::from_str("database is closed"),
            DatabaseError::InvalidPageId => String::from_str("invalid page ID"),
            DatabaseError::InvalidPageSize => String::from_str("invalid page size"),
            DatabaseError::Io(e) => {
                let cause = e.message();
                String::from_str("io error: ").concat(cause.as_str())
            },
        }
    }
}

impl From<IoError> for DatabaseError {
    /// Wraps a failure of the page store.
    fn from(e: IoError) -> (wrapped: DatabaseError) {
        DatabaseError::Io(e)
    }
}

impl vstd::std_specs::convert::FromSpecImpl<IoError> for DatabaseError {
    open spec fn obeys_from_spec() -> bool {
        true
    }

    open spec fn from_spec(e: IoError) -> DatabaseError {
        DatabaseError::Io(e)
    }
}

/// The mathematical state of a storage handle.
#[verifier::ext_equal]
pub struct DatabaseView {
    /// The state of the page store that the handle owns.
    pub pager: PagerView,
    /// Whether the handle has been closed.
    pub closed: bool,
}

impl DatabaseView {
    /// The invariant of a handle is that of its store.
    pub open spec fn wf(self) -> bool {
        self.pager.wf()
    }

    /// The handle as it is opened over `file`: open, its store opened over
    /// the same bytes.
    pub open spec fn open(file: Seq<u8>, page_size: nat) -> DatabaseView {
        DatabaseView { pager: PagerView::open(file, page_size), closed: false }
    }

    /// What a read of page `page_id` gives: nothing but the closed-handle
    /// error once the handle is closed, and before that what the store
    /// gives, its failure wrapped.
    pub open spec fn get_page(self, page_id: nat) -> Result<Seq<u8>, DatabaseError> {
        if self.closed {
            Err(DatabaseError::Closed)
        } else {
            match self.pager.get_page(page_id) {
                Ok(bytes) => Ok(bytes),
                Err(e) => Err(DatabaseError::Io(e)),
            }
        }
    }

    /// What a write of `data` to page `page_id` leads to: the closed-handle
    /// error once the handle is closed, and before that what the store
    /// makes of the write, its failure wrapped.
    pub open spec fn write_page(self, page_id: nat, data: Seq<u8>) -> Result<
        DatabaseView,
        DatabaseError,
    > {
        if self.closed {
            Err(DatabaseError::Closed)
        } else {
            match self.pager.write_page(page_id, data) {
                Ok(pager) => Ok(DatabaseView { pager, closed: false }),
                Err(e) => Err(DatabaseError::Io(e)),
            }
        }
    }

    /// What closing leads to: an open handle becomes closed and keeps its
    /// store; a closed one gives the closed-handle error.
    pub open spec fn close(self) -> Result<DatabaseView, DatabaseError> {
        if self.closed {
            Err(DatabaseError::Closed)
        } else {
            Ok(DatabaseView { pager: self.pager, closed: true })
        }
    }
}

/// The page size a store is opened with under `config`: the one that the
/// options ask for, and the default where there are no options or they ask
/// for none.
pub open spec fn spec_effective_page_size(config: Option<&Config>) -> usize {
    match config {
        Some(config) => match config.page_size_override() {
            Some(page_size) => page_size,
            None => PAGE_SIZE,
        },
        None => PAGE_SIZE,
    }
}

/// Computes the page size a store is opened with under `config`.
pub fn effective_page_size(config: Option<&Config>) -> (page_size: usize)
    ensures
        page_size == spec_effective_page_size(config),
{
    match config {
        Some(config) => match &config.storage {
            Some(storage) => match storage.page_size {
                Some(page_size) => page_size,
                None => PAGE_SIZE,
            },
            None => PAGE_SIZE,
        },
        None => PAGE_SIZE,
    }
}

/// A page store behind a lifecycle: open from its creation until it is
/// closed, and closed for good after that.
pub struct Database {
    pager: Pager,
    closed: bool,
}

impl View for Database {
    type V = DatabaseView;

    closed spec fn view(&self) -> DatabaseView {
        DatabaseView { pager: self.pager@, closed: self.closed }
    }
}

impl Database {
    /// The invariant of a handle.
    pub open spec fn wf(&self) -> bool {
        self@.wf()
    }

    /// Opens a handle over the bytes of a backing file, with the page size
    /// that `config` asks for or else the default. A new file is the empty
    /// image. The page size has to be positive.
    pub fn new_with_config(file: Vec<u8>, config: Option<&Config>) -> (db: Database)
        requires
            spec_effective_page_size(config) > 0,
        ensures
            db.wf(),
            db@ == DatabaseView::open(file@, spec_effective_page_size(config) as nat),
    {
        let page_size: usize = effective_page_size(config);
        let pager = Pager::new(file, page_size);
        Database { pager, closed: false }
    }

    /// Closes the handle. A handle can be closed once: closing a closed
    /// handle fails and changes nothing.
    pub fn close(&mut self) -> (r: Result<(), DatabaseError>)
        ensures
            match old(self)@.close() {
                Ok(closed) => r is Ok && final(self)@ == closed,
                Err(e) => r == Err::<(), DatabaseError>(e) && final(self)@ == old(self)@,
            },
            final(self)@.closed,
            final(self)@.pager == old(self)@.pager,
    {
        if self.closed {
            return Err(DatabaseError::Closed);
        }
        self.closed = true;
        Ok(())
    }

    /// Reads page `page_id` through the handle.
    pub fn get_page(&self, page_id: usize) -> (r: Result<Page, DatabaseError>)
        requires
            self.wf(),
        ensures
            match r {
                Ok(page) => self@.get_page(page_id as nat) == Ok::<Seq<u8>, DatabaseError>(
                    page.data@,
                ),
                Err(e) => self@.get_page(page_id as nat) == Err::<Seq<u8>, DatabaseError>(e),
            },
            r matches Ok(page) ==> page.data@.len() == self@.pager.page_size,
            self@.closed ==> r matches Err(DatabaseError::Closed),
    {
        if self.closed {
            return Err(DatabaseError::Closed);
        }
        match self.pager.get_page(page_id) {
            Ok(page) => Ok(page),
            Err(e) => Err(DatabaseError::Io(e)),
        }
    }

    /// Writes `data` as page `page_id` through the handle. Whenever the
    /// write fails, the handle and its store are as they were.
    pub fn write_page(&mut self, page_id: usize, data: &[u8]) -> (r: Result<(), DatabaseError>)
        requires
            old(self).wf(),
        ensures
            final(self).wf(),
            match old(self)@.write_page(page_id as nat, data@) {
                Ok(written) => r is Ok && final(self)@ == written,
                Err(e) => r == Err::<(), DatabaseError>(e) && final(self)@ == old(self)@,
            },
            r is Err ==> final(self)@ == old(self)@,
            old(self)@.closed ==> r matches Err(DatabaseError::Closed),
            final(self)@.closed == old(self)@.closed,
            r is Ok ==> final(self)@.pager.page_count == if page_id >= old(self)@.pager.page_count {
                page_id + 1
            } else {
                old(self)@.pager.page_count as int
            },
    {
        if self.closed {
            return Err(DatabaseError::Closed);
        }
        match self.pager.write_page(page_id, data) {
            Ok(()) => Ok(()),
            Err(e) => Err(DatabaseError::Io(e)),
        }
    }

    /// The number of pages that the store counts as present. It is
    /// answered on a closed handle as on an open one.
    pub fn page_count(&self) -> (n: usize)
        ensures
            n == self@.pager.page_count,
    {
        self.pager.page_count()
    }

    /// The length of every page of the store. It is answered on a closed
    /// handle as on an open one.
    pub fn page_size(&self) -> (n: usize)
        ensures
            n == self@.pager.page_size,
    {
        self.pager.page_size()
    }

    /// Whether the handle has been closed.
    pub fn is_closed(&self) -> (closed: bool)
        ensures
            closed == self@.closed,
    {
        self.closed
    }

    /// The bytes of the backing file as they now stand.
    pub fn file_bytes(&self) -> (bytes: &Vec<u8>)
        ensures
            bytes@ == self@.pager.file,
    {
        self.pager.file_bytes()
    }
}

/// A page that has been written through an open handle reads back through
/// it as the bytes that were written.
pub proof fn lemma_written_page_reads_back_through_handle(
    db: DatabaseView,
    page_id: nat,
    data: Seq<u8>,
)
    requires
        db.wf(),
        !db.closed,
        data.len() == db.pager.page_size,
        db.pager.addressable(page_id),
    ensures
        db.write_page(page_id, data) is Ok,
        db.write_page(page_id, data).unwrap().get_page(page_id) == Ok::<Seq<u8>, DatabaseError>(
            data,
        ),
{
    lemma_written_page_reads_back(db.pager, page_id, data);
}

/// A handle that is opened over an empty file counts no page, and a read of
/// any page through it is a short read, never a page of made-up bytes.
pub proof fn lemma_fresh_handle_has_no_page(page_size: nat, page_id: nat)
    requires
        page_size > 0,
    ensures
        DatabaseView::open(Seq::empty(), page_size).wf(),
        !DatabaseView::open(Seq::empty(), page_size).closed,
        DatabaseView::open(Seq::empty(), page_size).pager.page_count == 0,
        DatabaseView::open(Seq::empty(), page_size).get_page(page_id) == Err::<
            Seq<u8>,
            DatabaseError,
        >(DatabaseError::Io(IoError::UnexpectedEof)),
{
    lemma_empty_store_has_no_page(page_size, page_id);
}

/// Closing is final. An open handle can be closed, and on the closed handle
/// every read, every write and every further close gives the closed-handle
/// error.
pub proof fn lemma_close_is_final(db: DatabaseView, page_id: nat, data: Seq<u8>)
    requires
        !db.closed,
    ensures
        db.close() is Ok,
        db.close().unwrap().closed,
        db.close().unwrap().pager == db.pager,
        db.close().unwrap().get_page(page_id) == Err::<Seq<u8>, DatabaseError>(
            DatabaseError::Closed,
        ),
        db.close().unwrap().write_page(page_id, data) == Err::<DatabaseView, DatabaseError>(
            DatabaseError::Closed,
        ),
        db.close().unwrap().close() == Err::<DatabaseView, DatabaseError>(DatabaseError::Closed),
{
}

/// A closed handle never opens again: no operation on it succeeds, so none
/// leads to another state.
pub proof fn lemma_closed_handle_refuses_all(db: DatabaseView, page_id: nat, data: Seq<u8>)
    requires
        db.closed,
    ensures
        db.get_page(page_id) == Err::<Seq<u8>, DatabaseError>(DatabaseError::Closed),
        db.write_page(page_id, data) == Err::<DatabaseView, DatabaseError>(DatabaseError::Closed),
        db.close() == Err::<DatabaseView, DatabaseError>(DatabaseError::Closed),
{
}

/// No operation opens a handle or closes it by the way: a write leaves the
/// lifecycle flag as it was, and what a close leads to is closed.
pub proof fn lemma_lifecycle_is_monotonic(db: DatabaseView, page_id: nat, data: Seq<u8>)
    ensures
        db.write_page(page_id, data) matches Ok(written) ==> written.closed == db.closed,
        db.close() matches Ok(closed) ==> closed.closed,
{
}

} // verus!
