//! Strings of the filesystem.
use crate::error::NtfsError;
use crate::window::NtfsWindow;
use vstd::prelude::*;

verus! {

/// A string in UTF-16LE, as it lies on disk.
#[derive(Debug)]
pub struct NtfsString<'a>(pub &'a [u8]);

impl<'a> View for NtfsString<'a> {
    type V = Seq<u8>;

    open spec fn view(&self) -> Seq<u8> {
        self.0@
    }
}

impl<'a> NtfsString<'a> {
    /// Reads the string of `length` bytes that lies at `position` into the start of `buf`, and
    /// returns it. The rest of `buf` stays as it is, and all of it if this fails.
    pub fn from_window(fs: &NtfsWindow, position: u64, length: usize, buf: &'a mut [u8]) -> (result:
        Result<NtfsString<'a>, NtfsError>)
        ensures
            result is Ok <==> length <= old(buf)@.len() && fs@.covers(
                position as int,
                length as int,
            ),
            result is Ok <==> length <= old(buf)@.len() && (length == 0 || (fs@.start <= position
                && position + length <= fs@.start + fs@.bytes.len())),
            result matches Ok(string) ==> {
                &&& string@ == fs@.known_from(position as int).take(length as int)
                &&& final(buf)@ == string@ + old(buf)@.skip(length as int)
                &&& string.0@.len() == length
                &&& forall|i: int|
                    0 <= i < length ==> #[trigger] string.0@[i] == fs@.bytes[position - fs@.start
                        + i]
                &&& final(buf)@ == string.0@ + old(buf)@.skip(length as int)
            },
            result matches Err(error) ==> {
                &&& final(buf)@ == old(buf)@
                &&& error == if old(buf)@.len() < length {
                    NtfsError::BufferTooSmall {
                        expected: length,
                        available: old(buf)@.len() as usize,
                    }
                } else {
                    NtfsError::OutOfWindow { position, length: length as u64 }
                }
            },
    {
        if buf.len() < length {
            return Err(NtfsError::BufferTooSmall { expected: length, available: buf.len() });
        }
        let bytes = fs.bytes_from(position);
        if bytes.len() < length {
            return Err(NtfsError::OutOfWindow { position, length: length as u64 });
        }
        let ghost before = buf@;
        let mut i: usize = 0;
        while i < length
            invariant
                i <= length <= bytes@.len(),
                length <= before.len(),
                buf@ == bytes@.take(i as int) + before.skip(i as int),
            decreases length - i,
        {
            buf[i] = bytes[i];
            i = i + 1;
            assert(buf@ =~= bytes@.take(i as int) + before.skip(i as int));
        }
        Ok(NtfsString(&buf[0..length]))
    }
}

} // verus!
