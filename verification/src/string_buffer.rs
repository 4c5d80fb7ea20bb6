//! A minimal in-memory text sink.
//!
//! An encoder materializes one formatted log line by writing byte chunks
//! into a [`StringBuffer`]; the buffer validates that each chunk is complete,
//! valid UTF-8 and accumulates the decoded text.

use vstd::prelude::*;
use vstd::utf8::{decode_utf8, valid_utf8};
use vstd::string::StringExecFns;

verus! {

/// The error a [`StringBuffer`] reports when bytes that are not valid UTF-8
/// reach it.
#[derive(Clone, Copy, Debug, PartialEq, Eq, Structural)]
pub enum BufferError {
    /// The written bytes were not a complete, valid UTF-8 sequence.
    InvalidEncoding,
}

/// A simple string buffer that an encoder can write formatted text into.
/// Each written chunk must be complete, valid UTF-8 on its own.
#[derive(Debug)]
pub struct StringBuffer(pub String);

/// Relies on `core::str::from_utf8`: it returns the bytes decoded as UTF-8
/// exactly when they are a valid UTF-8 sequence, and reports an error
/// otherwise. `valid_utf8` and `decode_utf8` are vstd's model of the same
/// encoding.
#[verifier::external_body]
fn bytes_as_utf8(buf: &[u8]) -> (r: Option<&str>)
    ensures
        match r {
            Some(s) => valid_utf8(buf@) && s@ == decode_utf8(buf@),
            None => !valid_utf8(buf@),
        },
{
    core::str::from_utf8(buf).ok()
}

impl StringBuffer {
    /// Create an empty buffer.
    pub fn new() -> (r: Self)
        ensures
            r.0@ == Seq::<char>::empty(),
    {
        StringBuffer(String::new())
    }

    /// Append one chunk of bytes to the buffer.
    ///
    /// If the chunk is valid UTF-8, the decoded text is appended and the
    /// number of bytes consumed is returned; otherwise the buffer is left
    /// unchanged and the write fails with [`BufferError::InvalidEncoding`].
    pub fn write(&mut self, buf: &[u8]) -> (r: Result<usize, BufferError>)
        ensures
            valid_utf8(buf@) ==> {
                &&& r == Ok::<usize, BufferError>(buf@.len() as usize)
                &&& final(self).0@ == old(self).0@ + decode_utf8(buf@)
            },
            !valid_utf8(buf@) ==> {
                &&& r == Err::<usize, BufferError>(BufferError::InvalidEncoding)
                &&& final(self).0@ == old(self).0@
            },
    {
        match bytes_as_utf8(buf) {
            Some(s) => {
                self.0.append(s);
                Ok(buf.len())
            },
            None => Err(BufferError::InvalidEncoding),
        }
    }

    /// Flushing is a no-op: the buffer is in memory and there is nothing
    /// downstream to push the text to. It always succeeds.
    pub fn flush(&mut self) -> (r: Result<(), BufferError>)
        ensures
            r == Ok::<(), BufferError>(()),
            final(self).0@ == old(self).0@,
    {
        Ok(())
    }
}

} // verus!
