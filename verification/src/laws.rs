//! What holds of the library as a whole.
use crate::attribute::{attribute_at, law_type_is_the_number, AttributeModel};
use crate::attribute_header::{
    header_of, law_header_layout, law_non_resident_header_layout, law_resident_header_layout,
    non_resident_header_of, resident_header_of, NtfsAttributeExtraHeader, HEADER_SIZE,
};
use crate::attribute_type::NtfsAttributeType;
use crate::attribute_value::NtfsAttributeValue;
use crate::attributes::{after_next, next_of, search_of, ListModel, SearchModel, TYPE_SIZE};
use crate::error::NtfsError;
use crate::little_endian::{law_bytes_have_weights, little_endian, twos_complement_64};
use crate::window::{law_larger_window_extends, WindowModel};
use vstd::prelude::*;

verus! {

/// What is left of a list once `next` has been called `count` times.
pub open spec fn after_calls(fs: WindowModel, list: ListModel, count: nat) -> ListModel
    decreases count,
{
    if count == 0 {
        list
    } else {
        after_next(fs, after_calls(fs, list, (count - 1) as nat))
    }
}

/// Once the list has come to its end, it stays there: all further calls return `None`, too.
pub proof fn law_end_is_final(fs: WindowModel, list: ListModel, count: nat)
    requires
        next_of(fs, list) is None,
    ensures
        after_calls(fs, list, count) == list,
        next_of(fs, after_calls(fs, list, count)) is None,
    decreases count,
{
    if count > 0 {
        law_end_is_final(fs, list, (count - 1) as nat);
    }
}

/// An error takes nothing from the list: the call can be repeated, and returns the same as
/// long as it is given the same window.
pub proof fn law_error_can_be_retried(fs: WindowModel, list: ListModel)
    requires
        next_of(fs, list) matches Some(Err(_)),
    ensures
        after_next(fs, list) == list,
        next_of(fs, after_next(fs, list)) == next_of(fs, list),
{
}

/// An attribute lies where the list stands, within the list, and is a real one: not an end
/// marker, and with the extra header that its generic header announces.
pub proof fn law_attribute_is_in_list(fs: WindowModel, list: ListModel)
    requires
        next_of(fs, list) matches Some(Ok(_)),
    ensures
        ({
            let attribute = next_of(fs, list)->Some_0->Ok_0;
            &&& attribute.position == list.start
            &&& attribute.position < list.end
            &&& attribute.wf()
            &&& attribute.ty() != Ok::<NtfsAttributeType, NtfsError>(NtfsAttributeType::End)
        }),
{
    let bytes = fs.known_from(list.start as int);
    assert(next_of(fs, list) == Some(attribute_at(fs, list.start)));
    lemma_little_endian_bound(bytes, 0, 4);
}

/// The list ends if and only if no bytes of it are left, or the window holds the four bytes at
/// its start and each of them is 0xFF. Nothing else ends it.
pub proof fn law_only_a_marker_ends_the_list(fs: WindowModel, list: ListModel)
    ensures
        next_of(fs, list) is None <==> list.start >= list.end || {
            let at = list.start - fs.start;
            &&& 0 <= at && at + 4 <= fs.bytes.len()
            &&& fs.bytes[at] == 0xFF
            &&& fs.bytes[at + 1] == 0xFF
            &&& fs.bytes[at + 2] == 0xFF
            &&& fs.bytes[at + 3] == 0xFF
        },
{
    let bytes = fs.known_from(list.start as int);
    law_bytes_have_weights(bytes, 0);
}

/// A call fails if and only if the window ends before what has to be read: the type, then the
/// generic header, then the extra header, which is longer for a non-resident attribute.
pub proof fn law_only_missing_bytes_fail(fs: WindowModel, list: ListModel)
    requires
        next_of(fs, list) is Some,
    ensures
        ({
            let at = list.start - fs.start;
            let known = if at < 0 || fs.bytes.len() < at {
                0
            } else {
                fs.bytes.len() - at
            };
            let needed: u64 = if known < 4 {
                4
            } else if known < 16 {
                16
            } else if fs.bytes[at + 8] == 0 {
                23
            } else {
                64
            };
            if known < needed {
                next_of(fs, list) == Some(
                    Err::<AttributeModel, NtfsError>(
                        NtfsError::OutOfWindow { position: list.start, length: needed },
                    ),
                )
            } else {
                next_of(fs, list) matches Some(Ok(_))
            }
        }),
{
}

/// An attribute is what the bytes at the start of the list say: each field of its headers is the
/// number that lies at the field's place.
pub proof fn law_attribute_is_what_lies_there(fs: WindowModel, list: ListModel)
    requires
        next_of(fs, list) matches Some(Ok(_)),
    ensures
        ({
            let attribute = next_of(fs, list)->Some_0->Ok_0;
            let at = list.start - fs.start;
            &&& attribute.position == list.start
            &&& attribute.header.ty == little_endian(fs.bytes, at, 4)
            &&& attribute.header.length == little_endian(fs.bytes, at + 4, 4)
            &&& attribute.header.is_non_resident == fs.bytes[at + 8]
            &&& attribute.header.name_length == fs.bytes[at + 9]
            &&& attribute.header.name_offset == little_endian(fs.bytes, at + 10, 2)
            &&& attribute.header.flags == little_endian(fs.bytes, at + 12, 2)
            &&& attribute.header.instance == little_endian(fs.bytes, at + 14, 2)
            &&& if fs.bytes[at + 8] == 0 {
                &&& attribute.extra_header matches NtfsAttributeExtraHeader::Resident(resident)
                &&& resident.value_length == little_endian(fs.bytes, at + 16, 4)
                &&& resident.value_offset == little_endian(fs.bytes, at + 20, 2)
                &&& resident.indexed_flag == fs.bytes[at + 22]
                &&& attribute.value_length() == little_endian(fs.bytes, at + 16, 4)
            } else {
                &&& attribute.extra_header matches NtfsAttributeExtraHeader::NonResident(extra)
                &&& extra.lowest_vcn.0 == twos_complement_64(
                    little_endian(fs.bytes, at + 16, 8),
                )
                &&& extra.highest_vcn.0 == twos_complement_64(
                    little_endian(fs.bytes, at + 24, 8),
                )
                &&& extra.data_runs_offset == little_endian(fs.bytes, at + 32, 2)
                &&& extra.compression_unit_exponent == fs.bytes[at + 34]
                &&& extra.reserved@ == fs.bytes.subrange(at + 35, at + 40)
                &&& extra.allocated_size == little_endian(fs.bytes, at + 40, 8)
                &&& extra.data_size == little_endian(fs.bytes, at + 48, 8)
                &&& extra.initialized_size == little_endian(fs.bytes, at + 56, 8)
                &&& attribute.value_length() == little_endian(fs.bytes, at + 48, 8)
            }
        }),
{
    let at = list.start - fs.start;
    let bytes = fs.known_from(list.start as int);
    let rest = bytes.skip(16);
    assert(bytes == fs.bytes.skip(at));
    assert(rest =~= fs.bytes.skip(at + 16));
    law_header_layout(bytes);
    lemma_little_endian_shift(fs.bytes, at, 0, 4);
    lemma_little_endian_shift(fs.bytes, at, 4, 4);
    lemma_little_endian_shift(fs.bytes, at, 10, 2);
    lemma_little_endian_shift(fs.bytes, at, 12, 2);
    lemma_little_endian_shift(fs.bytes, at, 14, 2);
    if fs.bytes[at + 8] == 0 {
        law_resident_header_layout(rest);
        lemma_little_endian_shift(fs.bytes, at + 16, 0, 4);
        lemma_little_endian_shift(fs.bytes, at + 16, 4, 2);
    } else {
        law_non_resident_header_layout(rest);
        lemma_little_endian_shift(fs.bytes, at + 16, 0, 8);
        lemma_little_endian_shift(fs.bytes, at + 16, 8, 8);
        lemma_little_endian_shift(fs.bytes, at + 16, 16, 2);
        lemma_little_endian_shift(fs.bytes, at + 16, 24, 8);
        lemma_little_endian_shift(fs.bytes, at + 16, 32, 8);
        lemma_little_endian_shift(fs.bytes, at + 16, 40, 8);
        assert(rest.subrange(19, 24) =~= fs.bytes.subrange(at + 35, at + 40));
    }
}

/// A number stays the same if the bytes before it are dropped.
proof fn lemma_little_endian_shift(bytes: Seq<u8>, dropped: int, at: int, width: nat)
    requires
        0 <= dropped,
        0 <= at,
        dropped + at + width <= bytes.len(),
    ensures
        little_endian(bytes.skip(dropped), at, width) == little_endian(bytes, dropped + at, width),
    decreases width,
{
    if width > 0 {
        lemma_little_endian_shift(bytes, dropped, at + 1, (width - 1) as nat);
    }
}

/// A step goes on by the length that the attribute claims, and by nothing at an error or at the
/// end. The end of the list stays where it is.
pub proof fn law_step_goes_by_the_length(fs: WindowModel, list: ListModel)
    ensures
        after_next(fs, list).end == list.end,
        next_of(fs, list) matches Some(Ok(attribute)) && list.start + attribute.header.length
            <= u64::MAX ==> after_next(fs, list).start == list.start + little_endian(
            fs.bytes,
            list.start - fs.start + 4,
            4,
        ),
        !(next_of(fs, list) matches Some(Ok(_))) ==> after_next(fs, list) == list,
{
    if next_of(fs, list) matches Some(Ok(_)) {
        law_attribute_is_what_lies_there(fs, list);
    }
}

/// Attributes follow each other without a gap: the next one lies where the length of the last
/// one leads to, whatever window it is read from.
pub proof fn law_attributes_are_adjacent(fs: WindowModel, list: ListModel, next_fs: WindowModel)
    requires
        next_of(fs, list) matches Some(Ok(attribute)) && attribute.end() <= u64::MAX,
        next_of(next_fs, after_next(fs, list)) matches Some(Ok(_)),
    ensures
        next_of(next_fs, after_next(fs, list))->Some_0->Ok_0.position == next_of(
            fs,
            list,
        )->Some_0->Ok_0.end(),
{
}

/// A step through the list never leads back, and leads forward unless the attribute claims a
/// length of zero.
pub proof fn law_list_moves_forward(fs: WindowModel, list: ListModel)
    requires
        next_of(fs, list) matches Some(Ok(attribute)) && attribute.end() <= u64::MAX,
    ensures
        after_next(fs, list).start >= list.start,
        after_next(fs, list).end == list.end,
        after_next(fs, list).start == list.start <==> next_of(
            fs,
            list,
        )->Some_0->Ok_0.header.length == 0,
{
}

/// The bytes of a little-endian number of up to four bytes bound it.
proof fn lemma_little_endian_bound(bytes: Seq<u8>, at: int, width: nat)
    requires
        width <= 4,
    ensures
        0 <= little_endian(bytes, at, width) < 0x1_0000_0000,
{
    reveal_with_fuel(little_endian, 5);
}

/// A number depends on no byte behind it.
proof fn lemma_little_endian_prefix(bytes: Seq<u8>, longer: Seq<u8>, at: int, width: nat)
    requires
        bytes.is_prefix_of(longer),
        0 <= at,
        at + width <= bytes.len(),
    ensures
        little_endian(bytes, at, width) == little_endian(longer, at, width),
    decreases width,
{
    if width > 0 {
        assert(bytes[at] == longer[at]) by {
            assert(bytes == longer.subrange(0, bytes.len() as int));
        }
        lemma_little_endian_prefix(bytes, longer, at + 1, (width - 1) as nat);
    }
}

/// An attribute depends on no byte behind its headers.
proof fn lemma_attribute_prefix(fs: WindowModel, larger: WindowModel, position: u64)
    requires
        fs.is_part_of(larger),
        attribute_at(fs, position) is Ok,
    ensures
        attribute_at(larger, position) == attribute_at(fs, position),
{
    let bytes = fs.known_from(position as int);
    let longer = larger.known_from(position as int);
    law_larger_window_extends(fs, larger, position as int);
    assert(bytes == longer.subrange(0, bytes.len() as int));
    assert(bytes[8] == longer[8] && bytes[9] == longer[9]);
    lemma_little_endian_prefix(bytes, longer, 0, 4);
    lemma_little_endian_prefix(bytes, longer, 4, 4);
    lemma_little_endian_prefix(bytes, longer, 10, 2);
    lemma_little_endian_prefix(bytes, longer, 12, 2);
    lemma_little_endian_prefix(bytes, longer, 14, 2);
    assert(header_of(bytes) == header_of(longer));
    let rest = bytes.skip(HEADER_SIZE as int);
    let longer_rest = longer.skip(HEADER_SIZE as int);
    assert(rest =~= longer_rest.subrange(0, rest.len() as int));
    if header_of(bytes).says_resident() {
        lemma_little_endian_prefix(rest, longer_rest, 0, 4);
        lemma_little_endian_prefix(rest, longer_rest, 4, 2);
        assert(rest[6] == longer_rest[6]);
        assert(resident_header_of(rest) == resident_header_of(longer_rest));
    } else {
        lemma_little_endian_prefix(rest, longer_rest, 0, 8);
        lemma_little_endian_prefix(rest, longer_rest, 8, 8);
        lemma_little_endian_prefix(rest, longer_rest, 16, 2);
        lemma_little_endian_prefix(rest, longer_rest, 24, 8);
        lemma_little_endian_prefix(rest, longer_rest, 32, 8);
        lemma_little_endian_prefix(rest, longer_rest, 40, 8);
        assert(forall|i: int| 18 <= i < 24 ==> rest[i] == longer_rest[i]);
        assert(non_resident_header_of(rest) == non_resident_header_of(longer_rest));
    }
}

/// A larger window changes no answer, but for the answer that the window is too small.
pub proof fn law_answers_are_stable(fs: WindowModel, larger: WindowModel, list: ListModel)
    requires
        fs.is_part_of(larger),
        !(next_of(fs, list) matches Some(Err(_))),
    ensures
        next_of(larger, list) == next_of(fs, list),
        after_next(larger, list) == after_next(fs, list),
{
    let bytes = fs.known_from(list.start as int);
    let longer = larger.known_from(list.start as int);
    law_larger_window_extends(fs, larger, list.start as int);
    if list.start < list.end {
        lemma_little_endian_prefix(bytes, longer, 0, TYPE_SIZE as nat);
        if next_of(fs, list) is Some {
            lemma_attribute_prefix(fs, larger, list.start);
        }
    }
}

/// The error that a call of `next` returns asks for bytes that the window does not hold, from
/// where the list stands on. A window that holds those is not asked for them again, and one
/// that holds 64 bytes is asked for nothing.
pub proof fn law_requests_come_to_an_end(fs: WindowModel, larger: WindowModel, list: ListModel)
    requires
        next_of(fs, list) matches Some(Err(_)),
    ensures
        next_of(fs, list) matches Some(Err(NtfsError::OutOfWindow { position, length })) && {
            &&& position == list.start
            &&& 0 < length <= 64
            &&& !fs.covers(position as int, length as int)
            &&& larger.covers(position as int, length as int) ==> next_of(larger, list)
                != next_of(fs, list)
        },
        larger.covers(list.start as int, 64) ==> !(next_of(larger, list) matches Some(Err(_))),
{
}

/// The search returns the first attribute of the wanted type: it is the one that some number of
/// calls of `next` comes to, and each of those calls returns an attribute of another known type.
pub proof fn law_search_finds_the_first(fs: WindowModel, list: ListModel, ty: NtfsAttributeType)
    requires
        search_of(fs, list, ty) matches Some(search) && search.outcome matches Some(Ok(_)),
    ensures
        search_of(fs, list, ty)->Some_0.outcome->Some_0->Ok_0.ty() == Ok::<
            NtfsAttributeType,
            NtfsError,
        >(ty),
        exists|count: nat| #[trigger] search_stops_at(fs, list, ty, count),
{
    lemma_search_stops(fs, list, ty);
}

/// The search returns `None` only where the list comes to its end, and each attribute of the
/// list has another known type.
pub proof fn law_search_misses_nothing(fs: WindowModel, list: ListModel, ty: NtfsAttributeType)
    requires
        search_of(fs, list, ty) matches Some(search) && search.outcome is None,
    ensures
        exists|count: nat| #[trigger]
            search_stops_at(fs, list, ty, count) && next_of(
                fs,
                after_calls(fs, list, count),
            ) is None,
{
    lemma_search_stops(fs, list, ty);
}

/// The search of a larger window ends as that of a smaller one, unless the smaller one is too
/// small; then it ends as if it was begun anew where the smaller one left off.
pub proof fn law_search_can_be_resumed(
    fs: WindowModel,
    larger: WindowModel,
    list: ListModel,
    ty: NtfsAttributeType,
)
    requires
        fs.is_part_of(larger),
        search_of(fs, list, ty) is Some,
    ensures
        ({
            let search = search_of(fs, list, ty)->Some_0;
            if search.outcome matches Some(Err(NtfsError::OutOfWindow { .. })) {
                search_of(larger, list, ty) == search_of(larger, search.rest, ty)
            } else {
                search_of(larger, list, ty) == search_of(fs, list, ty)
            }
        }),
    decreases list.remaining(),
{
    if next_of(fs, list) matches Some(Err(_)) {
        law_requests_come_to_an_end(fs, larger, list);
    } else {
        law_answers_are_stable(fs, larger, list);
        if is_passed_over(next_of(fs, list), ty) {
            law_search_can_be_resumed(fs, larger, after_next(fs, list), ty);
        }
    }
}

/// The value of an attribute is as long as the attribute says, and lies at an offset from the
/// attribute. The list of data runs of a non-resident value ends with the attribute.
pub proof fn law_value_matches_attribute(attribute: AttributeModel)
    requires
        attribute.wf(),
        attribute.value_is_addressable(),
    ensures
        attribute.value().spec_len() == attribute.value_length(),
        attribute.value() is Resident <==> attribute.header.says_resident(),
        attribute.value() matches NtfsAttributeValue::Resident(run) ==> run.position
            >= attribute.position && run.length <= u32::MAX,
        attribute.value() matches NtfsAttributeValue::NonResident(value)
            ==> value.data_runs_range.start >= attribute.position && value.data_runs_range.end
            == attribute.end(),
{
}

/// The search stops at the first attribute, error or end that it comes to, unless that is an
/// attribute of another known type. It cannot go on from one that claims a length of zero, nor to
/// a position beyond 64 bits.
pub proof fn law_search_stops_or_goes_on(fs: WindowModel, list: ListModel, ty: NtfsAttributeType)
    ensures
        next_of(fs, list) is None ==> search_of(fs, list, ty) == Some(
            SearchModel { outcome: None, rest: list },
        ),
        next_of(fs, list) matches Some(Err(error)) ==> search_of(fs, list, ty) == Some(
            SearchModel { outcome: Some(Err(error)), rest: list },
        ),
        next_of(fs, list) matches Some(Ok(attribute)) ==> {
            let end = attribute.position + attribute.header.length;
            let rest = ListModel { start: end as u64, end: list.end };
            let known = 0x10 <= attribute.header.ty <= 0x100 && attribute.header.ty % 0x10 == 0;
            if end > u64::MAX {
                search_of(fs, list, ty) is None
            } else if attribute.header.ty == ty.spec_code() {
                search_of(fs, list, ty) == Some(
                    SearchModel { outcome: Some(Ok(attribute)), rest },
                )
            } else if !known {
                search_of(fs, list, ty) == Some(
                    SearchModel {
                        outcome: Some(
                            Err(
                                NtfsError::UnsupportedNtfsAttributeType {
                                    position: attribute.position,
                                    actual: attribute.header.ty,
                                },
                            ),
                        ),
                        rest,
                    },
                )
            } else if attribute.header.length == 0 {
                search_of(fs, list, ty) is None
            } else {
                search_of(fs, list, ty) == search_of(fs, rest, ty)
            }
        },
{
    if let Some(Ok(attribute)) = next_of(fs, list) {
        law_attribute_is_in_list(fs, list);
        law_type_is_the_number(attribute, ty);
        law_type_is_the_number(attribute, NtfsAttributeType::End);
    }
}

/// Attributes of other known types make no difference to a search: from the first of any run of
/// them it comes to the same as from behind the last.
pub proof fn law_other_types_are_passed_over(
    fs: WindowModel,
    list: ListModel,
    ty: NtfsAttributeType,
    passed: Seq<AttributeModel>,
)
    requires
        passed.len() > 0,
        passed[0].position == list.start,
        forall|i: int|
            0 <= i < passed.len() ==> {
                &&& next_of(
                    fs,
                    ListModel { start: (#[trigger] passed[i]).position, end: list.end },
                ) == Some(Ok::<AttributeModel, NtfsError>(passed[i]))
                &&& 0x10 <= passed[i].header.ty <= 0x100
                &&& passed[i].header.ty % 0x10 == 0
                &&& passed[i].header.ty != ty.spec_code()
                &&& passed[i].header.length > 0
                &&& passed[i].position + passed[i].header.length <= u64::MAX
            },
        forall|i: int, j: int|
            0 <= i && j == i + 1 && j < passed.len() ==> (#[trigger] passed[j]).position == (
            #[trigger] passed[i]).position + passed[i].header.length,
    ensures
        search_of(fs, list, ty) == search_of(
            fs,
            ListModel {
                start: (passed.last().position + passed.last().header.length) as u64,
                end: list.end,
            },
            ty,
        ),
    decreases passed.len(),
{
    let first = passed[0];
    let rest = ListModel { start: (first.position + first.header.length) as u64, end: list.end };
    assert(list == ListModel { start: passed[0].position, end: list.end });
    law_search_stops_or_goes_on(fs, list, ty);
    if passed.len() > 1 {
        let others = passed.skip(1);
        assert(others[0] == passed[1]);
        assert(others[0].position == rest.start);
        assert forall|i: int, j: int|
            0 <= i && j == i + 1 && j < others.len() implies (#[trigger] others[j]).position == (
        #[trigger] others[i]).position + others[i].header.length by {
            assert(others[i] == passed[i + 1]);
            assert(others[j] == passed[j + 1]);
        }
        assert forall|i: int| 0 <= i < others.len() implies {
            &&& next_of(
                fs,
                ListModel { start: (#[trigger] others[i]).position, end: rest.end },
            ) == Some(Ok::<AttributeModel, NtfsError>(others[i]))
            &&& 0x10 <= others[i].header.ty <= 0x100
            &&& others[i].header.ty % 0x10 == 0
            &&& others[i].header.ty != ty.spec_code()
            &&& others[i].header.length > 0
            &&& others[i].position + others[i].header.length <= u64::MAX
        } by {
            assert(others[i] == passed[i + 1]);
        }
        law_other_types_are_passed_over(fs, rest, ty, others);
        assert(others.last() == passed.last());
    }
}

/// Whether the `count` first attributes of the list are passed over by the search for `ty`, and
/// the search ends with what the next call returns.
pub open spec fn search_stops_at(
    fs: WindowModel,
    list: ListModel,
    ty: NtfsAttributeType,
    count: nat,
) -> bool {
    &&& forall|i: nat|
        i < count ==> is_passed_over(#[trigger] next_of(fs, after_calls(fs, list, i)), ty)
    &&& !is_passed_over(next_of(fs, after_calls(fs, list, count)), ty)
    &&& search_of(fs, list, ty) matches Some(search) && search.outcome == stop_of(
        next_of(fs, after_calls(fs, list, count)),
    )
    &&& search_of(fs, list, ty) matches Some(search) && search.rest == after_calls(
        fs,
        list,
        count + 1,
    )
}

/// Whether what `next` returns is an attribute of a known type other than `ty`.
pub open spec fn is_passed_over(
    item: Option<Result<AttributeModel, NtfsError>>,
    ty: NtfsAttributeType,
) -> bool {
    item matches Some(Ok(attribute)) && attribute.ty() matches Ok(found) && found != ty
}

/// What the search returns if it stops at what `next` returns: the same, or the error if it is
/// an attribute of an unknown type.
pub open spec fn stop_of(item: Option<Result<AttributeModel, NtfsError>>) -> Option<
    Result<AttributeModel, NtfsError>,
> {
    match item {
        Some(Ok(attribute)) => match attribute.ty() {
            Ok(_) => item,
            Err(error) => Some(Err(error)),
        },
        _ => item,
    }
}

/// A call of `next` may be counted before the others.
proof fn lemma_after_calls_unfold(fs: WindowModel, list: ListModel, count: nat)
    ensures
        after_calls(fs, list, count + 1) == after_calls(fs, after_next(fs, list), count),
    decreases count,
{
    reveal_with_fuel(after_calls, 2);
    if count > 0 {
        lemma_after_calls_unfold(fs, list, (count - 1) as nat);
    }
}

/// A search that ends does so after passing over some number of attributes.
proof fn lemma_search_stops(fs: WindowModel, list: ListModel, ty: NtfsAttributeType)
    requires
        search_of(fs, list, ty) is Some,
    ensures
        exists|count: nat| #[trigger] search_stops_at(fs, list, ty, count),
    decreases list.remaining(),
{
    let item = next_of(fs, list);
    assert(after_calls(fs, list, 0) == list);
    assert(after_calls(fs, list, 1) == after_next(fs, list)) by {
        reveal_with_fuel(after_calls, 2);
    }
    if is_passed_over(item, ty) {
        let rest = after_next(fs, list);
        lemma_search_stops(fs, rest, ty);
        let count = choose|count: nat| #[trigger] search_stops_at(fs, rest, ty, count);
        assert forall|i: nat| i < count + 1 implies is_passed_over(
            #[trigger] next_of(fs, after_calls(fs, list, i)),
            ty,
        ) by {
            if i > 0 {
                lemma_after_calls_unfold(fs, list, (i - 1) as nat);
                assert(is_passed_over(next_of(fs, after_calls(fs, rest, (i - 1) as nat)), ty));
            }
        }
        lemma_after_calls_unfold(fs, list, count);
        lemma_after_calls_unfold(fs, list, count + 1);
        assert(search_stops_at(fs, list, ty, count + 1));
    } else {
        assert(search_stops_at(fs, list, ty, 0));
    }
}

} // verus!
