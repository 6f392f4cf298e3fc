//! Exact-length reads and writes at byte offsets of a file image.

use vstd::prelude::*;
use vstd::slice::slice_subrange;
use vstd::slice::slice_to_vec;

verus! {

/// Why an operation on the backing file failed.
#[derive(Debug, Clone, Copy, PartialEq, Eq, Structural)]
pub enum IoError {
    /// The payload handed to a write does not have the length of a page.
    InvalidInput,
    /// Fewer bytes than asked for lie at the offset of a read.
    UnexpectedEof,
    /// A write would end beyond the largest length a file image can have.
    FileTooLarge,
}

impl IoError {
    /// The text that describes the failure.
    pub open spec fn spec_message(self) -> Seq<char> {
        match self {
            IoError::InvalidInput => "invalid page size"@,
            IoError::UnexpectedEof => "failed to fill whole buffer"@,
            IoError::FileTooLarge => "file too large"@,
        }
    }

    /// Describes the failure in words.
    pub fn message(&self) -> (text: String)
        ensures
            text@ == self.spec_message(),
    {
        match self {
            IoError::InvalidInput => String::from_str("invalid page size"),
            IoError::UnexpectedEof => String::from_str("failed to fill whole buffer"),
            IoError::FileTooLarge => String::from_str("file too large"),
        }
    }
}

/// The largest length, in bytes, that a file image can have.
pub open spec fn max_file_len() -> int {
    isize::MAX as int
}

/// What an exact read of `len` bytes at `offset` of `file` gives: the bytes
/// there if all of them exist, and a short read otherwise. No byte is ever
/// made up for a region beyond the end of the file.
pub open spec fn read_at(file: Seq<u8>, offset: int, len: int) -> Result<Seq<u8>, IoError> {
    if len == 0 {
        Ok(Seq::empty())
    } else if offset + len <= file.len() {
        Ok(file.subrange(offset, offset + len))
    } else {
        Err(IoError::UnexpectedEof)
    }
}

/// Reads exactly `len` bytes at `offset` of `file`.
pub fn read_exact_at(file: &Vec<u8>, offset: usize, len: usize) -> (r: Result<Vec<u8>, IoError>)
    ensures
        match r {
            Ok(bytes) => read_at(file@, offset as int, len as int) == Ok::<Seq<u8>, IoError>(bytes@),
            Err(e) => read_at(file@, offset as int, len as int) == Err::<Seq<u8>, IoError>(e),
        },
{
    if len == 0 {
        return Ok(Vec::new());
    }
    if offset > file.len() || len > file.len() - offset {
        return Err(IoError::UnexpectedEof);
    }
    let bytes = slice_to_vec(slice_subrange(file.as_slice(), offset, offset + len));
    Ok(bytes)
}

/// What `file` holds after all of `data` has been written at `offset`. A
/// write of no bytes changes nothing. A write that ends beyond the end of the
/// file lengthens it, and the bytes between the old end and `offset`, which
/// nobody wrote, are zero.
pub open spec fn write_at(file: Seq<u8>, offset: int, data: Seq<u8>) -> Seq<u8> {
    let end = offset + data.len();
    let len = if end > file.len() { end } else { file.len() as int };
    if data.len() == 0 {
        file
    } else {
        Seq::new(
            len as nat,
            |i: int|
                if offset <= i < end {
                    data[i - offset]
                } else if i < file.len() {
                    file[i]
                } else {
                    0u8
                },
        )
    }
}

/// Writes all of `data` at `offset` of `file`, lengthening the file where the
/// write ends beyond its end. The write is refused, and the file left as it
/// was, exactly when it would end beyond the largest length a file can have.
pub fn write_all_at(file: &mut Vec<u8>, offset: usize, data: &[u8]) -> (r: Result<(), IoError>)
    ensures
        match r {
            Ok(()) => {
                &&& offset + data@.len() <= max_file_len()
                &&& final(file)@ == write_at(old(file)@, offset as int, data@)
            },
            Err(e) => {
                &&& e == IoError::FileTooLarge
                &&& offset + data@.len() > max_file_len()
                &&& final(file)@ == old(file)@
            },
        },
{
    let limit: usize = isize::MAX as usize;
    if offset > limit || data.len() > limit - offset {
        return Err(IoError::FileTooLarge);
    }
    if data.len() == 0 {
        return Ok(());
    }
    let end: usize = offset + data.len();
    if end > file.len() {
        file.resize(end, 0u8);
    }
    let ghost grown = file@;
    let mut i: usize = 0;
    while i < data.len()
        invariant
            i <= data@.len(),
            end == offset + data@.len(),
            file@.len() == grown.len(),
            end <= grown.len(),
            forall|j: int|
                0 <= j < grown.len() ==> file@[j] == if offset <= j < offset + i {
                    data@[j - offset]
                } else {
                    grown[j]
                },
        decreases data@.len() - i,
    {
        file.set(offset + i, data[i]);
        i += 1;
    }
    assert(file@ =~= write_at(old(file)@, offset as int, data@));
    Ok(())
}

} // verus!
