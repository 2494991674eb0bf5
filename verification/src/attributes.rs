//! The list of the attributes of a file.
use crate::attribute::{attribute_at, result_view, AttributeModel, NtfsAttribute};
use crate::attribute_type::{NtfsAttributeType, END_CODE};
use crate::error::NtfsError;
use crate::file::NtfsFile;
use crate::little_endian::{little_endian, read_le_u32};
use crate::window::{NtfsWindow, WindowModel};
use core::ops::Range;
use vstd::prelude::*;

verus! {

/// Number of bytes of an attribute type, which is also the size of an end marker.
pub const TYPE_SIZE: u64 = 4;

/// What is left of a list of attributes: the absolute position of the next one, and that of the
/// first byte behind the list.
pub struct ListModel {
    pub start: u64,
    pub end: u64,
}

impl ListModel {
    /// Number of bytes that are left.
    pub open spec fn remaining(self) -> nat {
        if self.start < self.end {
            (self.end - self.start) as nat
        } else {
            0
        }
    }
}

/// The next attribute of a list: `None` if the list has no bytes left or an end marker is next.
pub open spec fn next_of(fs: WindowModel, list: ListModel) -> Option<
    Result<AttributeModel, NtfsError>,
> {
    let bytes = fs.known_from(list.start as int);
    if list.start >= list.end {
        None
    } else if bytes.len() < TYPE_SIZE {
        Some(Err(NtfsError::OutOfWindow { position: list.start, length: TYPE_SIZE }))
    } else if little_endian(bytes, 0, TYPE_SIZE as nat) == END_CODE {
        None
    } else {
        Some(attribute_at(fs, list.start))
    }
}

/// What is left of a list once its next attribute has been taken. Nothing is taken by an error,
/// and nothing at the end.
pub open spec fn after_next(fs: WindowModel, list: ListModel) -> ListModel {
    match next_of(fs, list) {
        Some(Ok(attribute)) => ListModel { start: attribute.end() as u64, end: list.end },
        _ => list,
    }
}

/// How a search ends, and what it leaves of the list.
pub struct SearchModel {
    pub outcome: Option<Result<AttributeModel, NtfsError>>,
    pub rest: ListModel,
}

/// How the search for the first attribute of the type `ty` ends: with that attribute, with the
/// first error before it, or with the end of the list.
///
/// `None` if it comes to no end, because it has to pass over an attribute that claims a length
/// of zero, or because an attribute's length leads to a position beyond 64 bits.
pub open spec fn search_of(fs: WindowModel, list: ListModel, ty: NtfsAttributeType) -> Option<
    SearchModel,
>
    decreases list.remaining(),
{
    match next_of(fs, list) {
        Some(Ok(attribute)) => {
            let rest = after_next(fs, list);
            if attribute.end() > u64::MAX {
                None
            } else {
                match attribute.ty() {
                    Err(error) => Some(SearchModel { outcome: Some(Err(error)), rest }),
                    Ok(found) => if found == ty {
                        Some(SearchModel { outcome: Some(Ok(attribute)), rest })
                    } else if attribute.header.length == 0 {
                        None
                    } else {
                        search_of(fs, rest, ty)
                    },
                }
            }
        },
        outcome => Some(SearchModel { outcome, rest: list }),
    }
}

/// What an iterating function returns, with the attribute replaced by what it holds.
pub open spec fn item_view(item: Option<Result<NtfsAttribute, NtfsError>>) -> Option<
    Result<AttributeModel, NtfsError>,
> {
    match item {
        Some(result) => Some(result_view(result)),
        None => None,
    }
}

/// An attribute is replaced by what it holds; errors and the end of a list stay.
pub proof fn law_item_view_is_faithful(attribute: NtfsAttribute, error: NtfsError)
    ensures
        item_view(Some(Ok(attribute))) == Some(Ok::<AttributeModel, NtfsError>(attribute@)),
        item_view(Some(Err(error))) == Some(Err::<AttributeModel, NtfsError>(error)),
        item_view(None) is None,
{
}

/// The attributes of a file that are still to be visited.
#[derive(Debug)]
pub struct NtfsAttributes {
    items_range: Range<u64>,
}

impl View for NtfsAttributes {
    type V = ListModel;

    closed spec fn view(&self) -> ListModel {
        ListModel { start: self.items_range.start, end: self.items_range.end }
    }
}

impl NtfsAttributes {
    /// Makes the list of all attributes of the given file.
    pub fn new(file: &NtfsFile) -> (attributes: NtfsAttributes)
        requires
            file.attributes_start() <= u64::MAX,
            file.attributes_end() <= u64::MAX,
        ensures
            attributes@.start == file.attributes_start(),
            attributes@.end == file.attributes_end(),
            attributes@.start == file.position + file.first_attribute_offset,
            attributes@.end == file.position + file.used_size,
    {
        let start: u64 = file.position() + file.first_attribute_offset() as u64;
        let end: u64 = file.position() + file.used_size() as u64;
        let items_range = start..end;
        NtfsAttributes { items_range }
    }

    /// Returns the absolute position at which the next attribute is expected.
    pub fn next_position(&self) -> (position: u64)
        ensures
            position == self@.start,
    {
        self.items_range.start
    }

    /// The list together with a window.
    pub closed spec fn spec_attach<'a>(self, fs: &'a NtfsWindow) -> NtfsAttributesAttached<'a> {
        NtfsAttributesAttached { fs, attributes: self }
    }

    /// Attaches a window to the list, so that it need not be passed again and again.
    pub fn attach<'a>(self, fs: &'a NtfsWindow) -> (attached: NtfsAttributesAttached<'a>)
        ensures
            attached == self.spec_attach(fs),
            attached.window() == fs@,
            attached.list() == self@,
    {
        NtfsAttributesAttached::new(fs, self)
    }

    /// Returns the next attribute without taking it.
    fn peek(&self, fs: &NtfsWindow) -> (item: Option<Result<NtfsAttribute, NtfsError>>)
        ensures
            item_view(item) == next_of(fs@, self@),
    {
        if self.items_range.start >= self.items_range.end {
            return None;
        }
        // This may be an entire attribute or just the 4-byte end marker.
        // Check if this marks the end of the attribute list.

        let position: u64 = self.items_range.start;
        match read_le_u32(fs.bytes_from(position), 0) {
            Ok(ty) => if ty == NtfsAttributeType::End.code() {
                return None;
            },
            Err(_) => return Some(Err(NtfsError::OutOfWindow { position, length: TYPE_SIZE })),
        }
        // It's a real attribute.
        Some(NtfsAttribute::new(fs, position))
    }

    /// Returns `true` if the position behind the next attribute, to which
    /// [`NtfsAttributes::next`] goes, fits into 64 bits.
    pub fn next_is_addressable(&self, fs: &NtfsWindow) -> (addressable: bool)
        ensures
            addressable == (next_of(fs@, self@) matches Some(Ok(attribute)) ==> attribute.end()
                <= u64::MAX),
    {
        match self.peek(fs) {
            Some(Ok(attribute)) => attribute.attribute_length() as u64 <= u64::MAX
                - self.items_range.start,
            _ => true,
        }
    }

    /// Takes the next attribute of the list, and returns it. Returns `None` at the end of the
    /// list. An error takes nothing.
    pub fn next(&mut self, fs: &NtfsWindow) -> (item: Option<Result<NtfsAttribute, NtfsError>>)
        requires
            next_of(fs@, old(self)@) matches Some(Ok(attribute)) ==> attribute.end() <= u64::MAX,
        ensures
            item_view(item) == next_of(fs@, old(self)@),
            final(self)@ == after_next(fs@, old(self)@),
            match item {
                Some(Ok(attribute)) => next_of(fs@, old(self)@) == Some(
                    Ok::<AttributeModel, NtfsError>(attribute@),
                ),
                Some(Err(error)) => next_of(fs@, old(self)@) == Some(
                    Err::<AttributeModel, NtfsError>(error),
                ),
                None => next_of(fs@, old(self)@) is None,
            },
            final(self)@.end == old(self)@.end,
            final(self)@.start == match item {
                Some(Ok(attribute)) => old(self)@.start + attribute@.header.length,
                _ => old(self)@.start as int,
            },
    {
        let item = self.peek(fs);
        if let Some(Ok(attribute)) = &item {
            self.items_range.start = self.items_range.start + attribute.attribute_length() as u64;
        }
        item
    }

    /// Returns `true` if [`NtfsAttributes::find_first_by_ty`] comes to an end.
    pub fn search_ends(&self, fs: &NtfsWindow, ty: NtfsAttributeType) -> (ends: bool)
        ensures
            ends == (search_of(fs@, self@, ty) is Some),
    {
        let mut rest = NtfsAttributes { items_range: self.items_range.start..self.items_range.end };
        loop
            invariant
                search_of(fs@, rest@, ty) == search_of(fs@, self@, ty),
            decreases rest@.remaining(),
        {
            let attribute = match rest.peek(fs) {
                Some(Ok(attribute)) => attribute,
                _ => return true,
            };
            let length: u32 = attribute.attribute_length();
            let next: u64 = match rest.items_range.start.checked_add(length as u64) {
                Some(next) => next,
                None => return false,
            };
            match attribute.ty() {
                Ok(found) => if found == ty {
                    return true;
                },
                Err(_) => return true,
            }
            if length == 0 {
                return false;
            }
            rest = NtfsAttributes { items_range: next..rest.items_range.end };
        }
    }

    /// Takes attributes until one of the type `ty` comes, and returns that one. Returns `None` if
    /// there is none, and the first error that comes before it.
    pub fn find_first_by_ty(&mut self, fs: &NtfsWindow, ty: NtfsAttributeType) -> (item: Option<
        Result<NtfsAttribute, NtfsError>,
    >)
        requires
            search_of(fs@, old(self)@, ty) is Some,
        ensures
            search_of(fs@, old(self)@, ty) == Some(
                SearchModel { outcome: item_view(item), rest: final(self)@ },
            ),
            match item {
                Some(Ok(attribute)) => {
                    &&& search_of(fs@, old(self)@, ty)->Some_0.outcome == Some(
                        Ok::<AttributeModel, NtfsError>(attribute@),
                    )
                    &&& attribute@.header.ty == ty.spec_code()
                    &&& final(self)@.start == attribute@.position + attribute@.header.length
                },
                Some(Err(error)) => search_of(fs@, old(self)@, ty)->Some_0.outcome == Some(
                    Err::<AttributeModel, NtfsError>(error),
                ),
                None => search_of(fs@, old(self)@, ty)->Some_0.outcome is None,
            },
            final(self)@.end == old(self)@.end,
    {
        loop
            invariant
                search_of(fs@, self@, ty) == search_of(fs@, old(self)@, ty),
                search_of(fs@, self@, ty) is Some,
                self@.end == old(self)@.end,
            decreases self@.remaining(),
        {
            let attribute = match self.next(fs) {
                Some(Ok(attribute)) => attribute,
                Some(Err(error)) => return Some(Err(error)),
                None => return None,
            };
            let attribute_ty = match attribute.ty() {
                Ok(attribute_ty) => attribute_ty,
                Err(error) => return Some(Err(error)),
            };
            if attribute_ty == ty {
                return Some(Ok(attribute));
            }
        }
    }
}

/// A list of attributes together with the window that it is read from.
pub struct NtfsAttributesAttached<'a> {
    fs: &'a NtfsWindow,
    attributes: NtfsAttributes,
}

impl<'a> NtfsAttributesAttached<'a> {
    /// What the window knows.
    pub closed spec fn window(&self) -> WindowModel {
        self.fs@
    }

    /// What is left of the list.
    pub closed spec fn list(&self) -> ListModel {
        self.attributes@
    }

    /// The list without the window.
    pub closed spec fn spec_detach(self) -> NtfsAttributes {
        self.attributes
    }

    fn new(fs: &'a NtfsWindow, attributes: NtfsAttributes) -> (attached: Self)
        ensures
            attached == attributes.spec_attach(fs),
    {
        NtfsAttributesAttached { fs, attributes }
    }

    /// Gives the list back, with what is left of it.
    pub fn detach(self) -> (attributes: NtfsAttributes)
        ensures
            attributes == self.spec_detach(),
            attributes@ == self.list(),
    {
        self.attributes
    }

    /// Takes the next attribute of the list, as [`NtfsAttributes::next`] does.
    pub fn next(&mut self) -> (item: Option<Result<NtfsAttribute, NtfsError>>)
        requires
            next_of(old(self).window(), old(self).list()) matches Some(Ok(attribute))
                ==> attribute.end() <= u64::MAX,
        ensures
            item_view(item) == next_of(old(self).window(), old(self).list()),
            final(self).list() == after_next(old(self).window(), old(self).list()),
            final(self).window() == old(self).window(),
            match item {
                Some(Ok(attribute)) => next_of(old(self).window(), old(self).list()) == Some(
                    Ok::<AttributeModel, NtfsError>(attribute@),
                ),
                Some(Err(error)) => next_of(old(self).window(), old(self).list()) == Some(
                    Err::<AttributeModel, NtfsError>(error),
                ),
                None => next_of(old(self).window(), old(self).list()) is None,
            },
            final(self).list().end == old(self).list().end,
            final(self).list().start == match item {
                Some(Ok(attribute)) => old(self).list().start + attribute@.header.length,
                _ => old(self).list().start as int,
            },
    {
        self.attributes.next(self.fs)
    }
}

/// Detaching gives back the list that was attached.
pub proof fn law_detach_undoes_attach(attributes: NtfsAttributes, fs: &NtfsWindow)
    ensures
        attributes.spec_attach(fs).spec_detach() == attributes,
{
}

} // verus!
