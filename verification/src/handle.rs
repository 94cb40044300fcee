//! The read handle: a randomly-addressable view over one open file.
//!
//! The handle caches the file's byte length at open time; the open
//! descriptor itself, and the lock that serializes seek-and-read on
//! it, live outside the library beside this bookkeeping. The bytes a
//! completed read produced are packaged as an owned buffer.

use vstd::prelude::*;

verus! {

#[verifier::external_type_specification]
#[verifier::external_body]
pub struct ExOwnedBytes(ownedbytes::OwnedBytes);

/// The bytes an owned buffer exposes.
pub uninterp spec fn owned_bytes_view(b: ownedbytes::OwnedBytes) -> Seq<u8>;

/// Relies on `ownedbytes::OwnedBytes::new`: the returned buffer
/// exposes exactly the bytes of the vector it was given.
#[verifier::external_body]
fn owned_bytes_new(data: Vec<u8>) -> (r: ownedbytes::OwnedBytes)
    ensures
        owned_bytes_view(r) == data@,
{
    ownedbytes::OwnedBytes::new(data)
}

/// A read handle over one already-open file: the byte length is
/// captured when the handle is opened and stays fixed for the
/// handle's lifetime even if the underlying file grows or shrinks
/// afterward. A caller that must observe a new length requests a
/// fresh handle.
#[derive(Clone, Copy, Debug)]
pub struct FsHandle {
    /// The byte length captured at open time.
    pub length: usize,
}

impl FsHandle {
    /// The cached byte length.
    pub fn len(&self) -> (l: usize)
        ensures
            l == self.length,
    {
        self.length
    }

    /// Whether `[start, end)` is a well-formed byte range within
    /// `[0, length)`. Only such ranges may be read.
    pub fn range_in_bounds(&self, start: usize, end: usize) -> (b: bool)
        ensures
            b == (start <= end && end <= self.length),
    {
        start <= end && end <= self.length
    }

    /// The buffer a read of `[start, end)` must fill: exactly
    /// `end - start` zeroed bytes.
    pub fn read_buffer(&self, start: usize, end: usize) -> (v: Vec<u8>)
        requires
            start <= end <= self.length,
        ensures
            v@.len() == end - start,
            forall|i: int| 0 <= i < v@.len() ==> v@[i] == 0u8,
    {
        let n = end - start;
        let mut v: Vec<u8> = Vec::new();
        while v.len() < n
            invariant
                v@.len() <= n,
                forall|i: int| 0 <= i < v@.len() ==> v@[i] == 0u8,
            decreases n - v@.len(),
        {
            v.push(0u8);
        }
        v
    }

    /// Packages the bytes a completed read produced as an owned
    /// buffer holding exactly those bytes.
    pub fn finish_read(&self, buffer: Vec<u8>) -> (r: ownedbytes::OwnedBytes)
        ensures
            owned_bytes_view(r) == buffer@,
    {
        owned_bytes_new(buffer)
    }
}

} // verus!
