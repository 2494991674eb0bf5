//! The part of a filesystem that has been read into memory.
use vstd::prelude::*;
use vstd::slice::slice_subrange;

verus! {

/// What a [`NtfsWindow`] knows: the filesystem's bytes from the position `start` on.
#[verifier::ext_equal]
pub struct WindowModel {
    pub start: int,
    pub bytes: Seq<u8>,
}

impl WindowModel {
    /// The known bytes from `position` on; none if `position` is outside of the window.
    pub open spec fn known_from(self, position: int) -> Seq<u8> {
        if self.start <= position <= self.start + self.bytes.len() {
            self.bytes.skip(position - self.start)
        } else {
            Seq::empty()
        }
    }

    /// Whether the `length` bytes from `position` on are known.
    pub open spec fn covers(self, position: int, length: int) -> bool {
        length <= self.known_from(position).len()
    }

    /// Whether `larger` knows all that this window knows, and nothing that contradicts it.
    pub open spec fn is_part_of(self, larger: WindowModel) -> bool {
        &&& larger.start <= self.start
        &&& self.start + self.bytes.len() <= larger.start + larger.bytes.len()
        &&& self.bytes == larger.bytes.subrange(
            self.start - larger.start,
            self.start - larger.start + self.bytes.len(),
        )
    }
}

/// A run of bytes of the filesystem, and the absolute position at which it starts.
///
/// The functions of this library read the filesystem through a window. One that needs bytes
/// outside of it returns [`NtfsError::OutOfWindow`](crate::error::NtfsError::OutOfWindow), and
/// can be called again with a larger window.
#[derive(Debug)]
pub struct NtfsWindow {
    start: u64,
    bytes: Vec<u8>,
}

impl View for NtfsWindow {
    type V = WindowModel;

    closed spec fn view(&self) -> WindowModel {
        WindowModel { start: self.start as int, bytes: self.bytes@ }
    }
}

impl NtfsWindow {
    /// Makes a window of the bytes that were read from the position `start` on.
    pub fn new(start: u64, bytes: Vec<u8>) -> (window: NtfsWindow)
        ensures
            window@ == (WindowModel { start: start as int, bytes: bytes@ }),
    {
        NtfsWindow { start, bytes }
    }

    /// Returns the known bytes from `position` on; none if `position` is outside of the window.
    pub fn bytes_from(&self, position: u64) -> (bytes: &[u8])
        ensures
            bytes@ == self@.known_from(position as int),
            self@.start <= position < self@.start + self@.bytes.len() ==> bytes@
                == self@.bytes.subrange(position - self@.start, self@.bytes.len() as int),
            position < self@.start || self@.start + self@.bytes.len() <= position ==> bytes@.len()
                == 0,
    {
        let all = self.bytes.as_slice();
        let inside = self.start <= position && position - self.start <= all.len() as u64;
        let first: usize = if inside {
            (position - self.start) as usize
        } else {
            all.len()
        };
        let known = slice_subrange(all, first, all.len());
        assert(known@ =~= self@.known_from(position as int));
        known
    }
}

/// What is known from a position on is what lies in the window from there on.
pub proof fn law_known_bytes_are_in_place(window: WindowModel, position: int)
    ensures
        window.start <= position <= window.start + window.bytes.len() ==> {
            &&& window.known_from(position).len() == window.start + window.bytes.len() - position
            &&& forall|i: int|
                0 <= i < window.start + window.bytes.len() - position
                    ==> #[trigger] window.known_from(position)[i] == window.bytes[position
                    - window.start + i]
        },
        position < window.start || window.start + window.bytes.len() < position
            ==> window.known_from(position).len() == 0,
{
}

/// A run of bytes is covered if it lies between the two ends of the window, and no bytes at all
/// are covered everywhere.
pub proof fn law_covered_bytes_are_inside(window: WindowModel, position: int, length: int)
    ensures
        window.covers(position, length) <==> length <= 0 || (window.start <= position && position
            + length <= window.start + window.bytes.len()),
{
}

/// A window is part of another one if that one reaches as far on both sides, and has the same
/// byte at each position.
pub proof fn law_part_agrees_everywhere(window: WindowModel, larger: WindowModel)
    ensures
        window.is_part_of(larger) <==> {
            &&& larger.start <= window.start
            &&& window.start + window.bytes.len() <= larger.start + larger.bytes.len()
            &&& forall|i: int|
                0 <= i < window.bytes.len() ==> #[trigger] window.bytes[i]
                    == larger.bytes[window.start - larger.start + i]
        },
{
    if larger.start <= window.start && window.start + window.bytes.len() <= larger.start
        + larger.bytes.len() {
        let part = larger.bytes.subrange(
            window.start - larger.start,
            window.start - larger.start + window.bytes.len(),
        );
        if window.bytes == part {
            assert forall|i: int| 0 <= i < window.bytes.len() implies #[trigger] window.bytes[i]
                == larger.bytes[window.start - larger.start + i] by {
                assert(part[i] == larger.bytes[window.start - larger.start + i]);
            }
        } else if forall|i: int|
            0 <= i < window.bytes.len() ==> #[trigger] window.bytes[i]
                == larger.bytes[window.start - larger.start + i] {
            assert(window.bytes =~= part);
        }
    }
}

/// A larger window knows the same bytes at each position, and perhaps more after them.
pub proof fn law_larger_window_extends(window: WindowModel, larger: WindowModel, position: int)
    requires
        window.is_part_of(larger),
    ensures
        window.known_from(position).is_prefix_of(larger.known_from(position)),
{
    let known = window.known_from(position);
    let more = larger.known_from(position);
    if known.len() > 0 {
        assert forall|i: int| 0 <= i < known.len() implies known[i] == #[trigger] more[i] by {
            assert(known[i] == window.bytes[position - window.start + i]);
        }
    }
    assert(known =~= more.subrange(0, known.len() as int));
}

} // verus!
