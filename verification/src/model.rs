//! A clipboard that answers every request without fault, and what the two
//! engines make of it.

use vstd::prelude::*;
use crate::capture::capture_next;
use crate::capture::capture_outcome;
use crate::capture::capture_run;
use crate::capture::capture_start;
use crate::capture::CaptureAnswer;
use crate::capture::CapturePhase;
use crate::capture::CaptureModel;
use crate::encoding::format_name_of;
use crate::error::ClipboardError;
use crate::error::OpenOutcome;
use crate::format::is_custom_format;
use crate::format::FormatView;
use crate::restore::restore_entry;
use crate::restore::restore_next;
use crate::restore::restore_outcome;
use crate::restore::restore_run;
use crate::restore::restore_set;
use crate::restore::restore_start;
use crate::restore::RestoreEvent;
use crate::restore::RestorePhase;
use crate::restore::RestoreModel;

verus! {

/// What a clipboard holds of one format: its identifier, its bytes, and the
/// code units that a lookup of its name writes.
pub struct HeldFormat {
    pub format_id: u32,
    pub data: Seq<u8>,
    pub name_units: Seq<u16>,
}

/// Whether a clipboard can hold a format: zero is no identifier, and a
/// payload fits the address space.
pub open spec fn can_hold(h: HeldFormat) -> bool {
    h.format_id != 0 && h.data.len() <= usize::MAX
}

/// The entry that stands for a held format in a snapshot.
pub open spec fn entry_of(h: HeldFormat) -> FormatView {
    FormatView {
        format_id: h.format_id,
        format_name: format_name_of(h.format_id, h.name_units),
        data: h.data,
    }
}

/// The snapshot of a clipboard that holds `held`.
pub open spec fn captured(held: Seq<HeldFormat>) -> Seq<FormatView> {
    held.map_values(|h: HeldFormat| entry_of(h))
}

/// The answers by which a clipboard hands out one format.
pub open spec fn reading(h: HeldFormat) -> Seq<CaptureAnswer> {
    let sized = Seq::<CaptureAnswer>::empty().push(CaptureAnswer::NextFormat(h.format_id)).push(
        CaptureAnswer::DataHandle(true),
    ).push(CaptureAnswer::ByteLength(h.data.len() as usize));
    let copied = if h.data.len() == 0 {
        sized
    } else {
        sized.push(CaptureAnswer::Copied(Some(h.data)))
    };
    if is_custom_format(h.format_id) {
        copied.push(CaptureAnswer::Name(h.name_units))
    } else {
        copied
    }
}

/// The answers by which a clipboard hands out its formats, one after another.
pub open spec fn enumeration(held: Seq<HeldFormat>) -> Seq<CaptureAnswer>
    decreases held.len(),
{
    if held.len() == 0 {
        Seq::empty()
    } else {
        enumeration(held.drop_last()) + reading(held.last())
    }
}

/// All the answers of a clipboard that holds `held` to one capture.
pub open spec fn capture_answers(held: Seq<HeldFormat>) -> Seq<CaptureAnswer> {
    (Seq::<CaptureAnswer>::empty().push(CaptureAnswer::Opened(OpenOutcome::Granted)) + enumeration(
        held,
    )).push(CaptureAnswer::NextFormat(0)).push(CaptureAnswer::Closed)
}

/// The identifier under which an entry is set when names are registered by
/// `registry`.
pub open spec fn effective_id(f: FormatView, registry: spec_fn(Seq<char>) -> u32) -> u32 {
    match f.format_name {
        Some(name) => registry(name),
        None => f.format_id,
    }
}

/// The answers by which a clipboard takes one entry.
pub open spec fn writing(f: FormatView, registry: spec_fn(Seq<char>) -> u32) -> Seq<RestoreEvent> {
    let registered = match f.format_name {
        Some(name) => Seq::<RestoreEvent>::empty().push(RestoreEvent::Registered(registry(name))),
        None => Seq::<RestoreEvent>::empty(),
    };
    registered.push(RestoreEvent::Allocated(true)).push(RestoreEvent::Filled(true)).push(
        RestoreEvent::DataSet(true),
    )
}

/// The answers by which a clipboard takes the first `count` entries.
pub open spec fn writings(formats: Seq<FormatView>, count: int, registry: spec_fn(Seq<char>) -> u32) -> Seq<
    RestoreEvent,
>
    decreases count,
{
    if count <= 0 {
        Seq::empty()
    } else {
        writings(formats, count - 1, registry) + writing(formats[count - 1], registry)
    }
}

/// All the answers of a clipboard to one restore of `formats`.
pub open spec fn restore_answers(formats: Seq<FormatView>, registry: spec_fn(Seq<char>) -> u32) -> Seq<
    RestoreEvent,
> {
    (Seq::<RestoreEvent>::empty().push(RestoreEvent::Opened(OpenOutcome::Granted)).push(
        RestoreEvent::Cleared(true),
    ) + writings(formats, formats.len() as int, registry)).push(RestoreEvent::Closed)
}

/// The first `count` entries, each with the identifier it is set under.
pub open spec fn handed_over(formats: Seq<FormatView>, count: int, registry: spec_fn(Seq<char>) -> u32) -> Seq<
    (int, u32),
> {
    Seq::new(count as nat, |i: int| (i, effective_id(formats[i], registry)))
}

/// What a cleared clipboard holds once it has taken the entries in `set`:
/// the bytes of each, under the identifier it was set under, with the name
/// that the clipboard knows that identifier by.
pub open spec fn held_after(
    formats: Seq<FormatView>,
    set: Seq<(int, u32)>,
    names: spec_fn(u32) -> Seq<u16>,
) -> Seq<HeldFormat> {
    Seq::new(
        set.len(),
        |k: int|
            HeldFormat {
                format_id: set[k].1,
                data: formats[set[k].0].data,
                name_units: names(set[k].1),
            },
    )
}

proof fn lemma_capture_run_push(s: CaptureModel, events: Seq<CaptureAnswer>, event: CaptureAnswer)
    ensures
        capture_run(s, events.push(event)) == capture_next(capture_run(s, events), event),
{
    assert(events.push(event).drop_last() =~= events);
}

proof fn lemma_capture_run_concat(s: CaptureModel, first: Seq<CaptureAnswer>, rest: Seq<CaptureAnswer>)
    ensures
        capture_run(s, first + rest) == capture_run(capture_run(s, first), rest),
    decreases rest.len(),
{
    if rest.len() == 0 {
        assert(first + rest =~= first);
    } else {
        lemma_capture_run_concat(s, first, rest.drop_last());
        assert((first + rest).drop_last() =~= first + rest.drop_last());
    }
}

proof fn lemma_restore_run_push(
    formats: Seq<FormatView>,
    s: RestoreModel,
    events: Seq<RestoreEvent>,
    event: RestoreEvent,
)
    ensures
        restore_run(formats, s, events.push(event)) == restore_next(
            formats,
            restore_run(formats, s, events),
            event,
        ),
        restore_set(formats, s, events.push(event)) == match (restore_run(formats, s, events).phase, event) {
            (RestorePhase::Setting { index, format_id }, RestoreEvent::DataSet(true)) => restore_set(
                formats,
                s,
                events,
            ).push((index as int, format_id)),
            _ => restore_set(formats, s, events),
        },
{
    assert(events.push(event).drop_last() =~= events);
}

proof fn lemma_restore_run_concat(
    formats: Seq<FormatView>,
    s: RestoreModel,
    first: Seq<RestoreEvent>,
    rest: Seq<RestoreEvent>,
)
    ensures
        restore_run(formats, s, first + rest) == restore_run(formats, restore_run(formats, s, first), rest),
        restore_set(formats, s, first + rest) == restore_set(formats, s, first) + restore_set(
            formats,
            restore_run(formats, s, first),
            rest,
        ),
    decreases rest.len(),
{
    if rest.len() == 0 {
        assert(first + rest =~= first);
        assert(restore_set(formats, s, first) + Seq::<(int, u32)>::empty() =~= restore_set(formats, s, first));
    } else {
        lemma_restore_run_concat(formats, s, first, rest.drop_last());
        assert((first + rest).drop_last() =~= first + rest.drop_last());
        let middle = restore_run(formats, s, first);
        let earlier = restore_set(formats, middle, rest.drop_last());
        match (restore_run(formats, middle, rest.drop_last()).phase, rest.last()) {
            (RestorePhase::Setting { index, format_id }, RestoreEvent::DataSet(true)) => {
                assert(restore_set(formats, s, first) + earlier.push((index as int, format_id)) =~= (
                restore_set(formats, s, first) + earlier).push((index as int, format_id)));
            },
            _ => {},
        }
    }
}

/// A clipboard that hands out one format adds exactly that format to the
/// capture.
pub proof fn lemma_reading_adds_the_entry(s: CaptureModel, h: HeldFormat)
    requires
        s.phase is Enumerating,
        can_hold(h),
    ensures
        capture_run(s, reading(h)) == (CaptureModel {
            phase: CapturePhase::Enumerating { after: h.format_id },
            formats: s.formats.push(entry_of(h)),
            pending: Seq::empty(),
            warnings: s.warnings,
        }),
{
    let e0 = Seq::<CaptureAnswer>::empty();
    let e1 = e0.push(CaptureAnswer::NextFormat(h.format_id));
    let e2 = e1.push(CaptureAnswer::DataHandle(true));
    let e3 = e2.push(CaptureAnswer::ByteLength(h.data.len() as usize));
    lemma_capture_run_push(s, e0, CaptureAnswer::NextFormat(h.format_id));
    lemma_capture_run_push(s, e1, CaptureAnswer::DataHandle(true));
    lemma_capture_run_push(s, e2, CaptureAnswer::ByteLength(h.data.len() as usize));
    let e4 = if h.data.len() == 0 {
        e3
    } else {
        e3.push(CaptureAnswer::Copied(Some(h.data)))
    };
    if h.data.len() != 0 {
        lemma_capture_run_push(s, e3, CaptureAnswer::Copied(Some(h.data)));
    } else {
        assert(h.data =~= Seq::<u8>::empty());
    }
    if is_custom_format(h.format_id) {
        lemma_capture_run_push(s, e4, CaptureAnswer::Name(h.name_units));
    }
}

/// A clipboard that hands out its formats one after another adds them to the
/// capture in that order, and nothing else.
pub proof fn lemma_enumeration_adds_the_entries(s: CaptureModel, held: Seq<HeldFormat>)
    requires
        s.phase is Enumerating,
        forall|i: int| 0 <= i < held.len() ==> can_hold(#[trigger] held[i]),
    ensures
        capture_run(s, enumeration(held)).phase is Enumerating,
        capture_run(s, enumeration(held)).formats == s.formats + captured(held),
        capture_run(s, enumeration(held)).warnings == s.warnings,
    decreases held.len(),
{
    if held.len() == 0 {
        assert(s.formats + captured(held) =~= s.formats);
    } else {
        let before = held.drop_last();
        assert forall|i: int| 0 <= i < before.len() implies can_hold(#[trigger] before[i]) by {
            assert(before[i] == held[i]);
        }
        lemma_enumeration_adds_the_entries(s, before);
        lemma_capture_run_concat(s, enumeration(before), reading(held.last()));
        lemma_reading_adds_the_entry(capture_run(s, enumeration(before)), held.last());
        assert((s.formats + captured(before)).push(entry_of(held.last())) =~= s.formats + captured(held));
    }
}

/// The capture of a clipboard that answers without fault succeeds with one
/// entry for each format it holds, in order, and no warning.
pub proof fn lemma_capture_of_held(held: Seq<HeldFormat>)
    requires
        forall|i: int| 0 <= i < held.len() ==> can_hold(#[trigger] held[i]),
    ensures
        capture_outcome(capture_run(capture_start(), capture_answers(held))) == Some(
            Ok::<Seq<FormatView>, ClipboardError>(captured(held)),
        ),
        capture_run(capture_start(), capture_answers(held)).warnings.len() == 0,
{
    let opening = Seq::<CaptureAnswer>::empty().push(CaptureAnswer::Opened(OpenOutcome::Granted));
    lemma_capture_run_push(capture_start(), Seq::empty(), CaptureAnswer::Opened(OpenOutcome::Granted));
    let opened = capture_run(capture_start(), opening);
    lemma_capture_run_concat(capture_start(), opening, enumeration(held));
    lemma_enumeration_adds_the_entries(opened, held);
    let listed = opening + enumeration(held);
    lemma_capture_run_push(capture_start(), listed, CaptureAnswer::NextFormat(0));
    lemma_capture_run_push(
        capture_start(),
        listed.push(CaptureAnswer::NextFormat(0)),
        CaptureAnswer::Closed,
    );
    assert(opened.formats + captured(held) =~= captured(held));
}

/// A clipboard that takes one entry is handed it under its effective
/// identifier, and the restore turns to the entry after it.
pub proof fn lemma_writing_sets_the_entry(
    formats: Seq<FormatView>,
    s: RestoreModel,
    index: int,
    registry: spec_fn(Seq<char>) -> u32,
)
    requires
        0 <= index < formats.len() <= usize::MAX,
        s.phase == restore_entry(formats, index),
    ensures
        restore_run(formats, s, writing(formats[index], registry)) == (RestoreModel {
            phase: restore_entry(formats, index + 1),
            warnings: s.warnings,
        }),
        restore_set(formats, s, writing(formats[index], registry)) == Seq::<(int, u32)>::empty().push(
            (index, effective_id(formats[index], registry)),
        ),
{
    let f = formats[index];
    let e0 = match f.format_name {
        Some(name) => Seq::<RestoreEvent>::empty().push(RestoreEvent::Registered(registry(name))),
        None => Seq::<RestoreEvent>::empty(),
    };
    if f.format_name is Some {
        lemma_restore_run_push(
            formats,
            s,
            Seq::empty(),
            RestoreEvent::Registered(registry(f.format_name->Some_0)),
        );
    }
    let e1 = e0.push(RestoreEvent::Allocated(true));
    let e2 = e1.push(RestoreEvent::Filled(true));
    lemma_restore_run_push(formats, s, e0, RestoreEvent::Allocated(true));
    lemma_restore_run_push(formats, s, e1, RestoreEvent::Filled(true));
    lemma_restore_run_push(formats, s, e2, RestoreEvent::DataSet(true));
}

/// A clipboard that takes the first `count` entries is handed each of them,
/// in order, and the restore turns to the entry after them.
pub proof fn lemma_writings_set_the_entries(
    formats: Seq<FormatView>,
    s: RestoreModel,
    count: int,
    registry: spec_fn(Seq<char>) -> u32,
)
    requires
        0 <= count <= formats.len() <= usize::MAX,
        s.phase == restore_entry(formats, 0),
    ensures
        restore_run(formats, s, writings(formats, count, registry)) == (RestoreModel {
            phase: restore_entry(formats, count),
            warnings: s.warnings,
        }),
        restore_set(formats, s, writings(formats, count, registry)) == handed_over(formats, count, registry),
    decreases count,
{
    if count == 0 {
        assert(handed_over(formats, count, registry) =~= Seq::<(int, u32)>::empty());
    } else {
        lemma_writings_set_the_entries(formats, s, count - 1, registry);
        let before = writings(formats, count - 1, registry);
        lemma_restore_run_concat(formats, s, before, writing(formats[count - 1], registry));
        lemma_writing_sets_the_entry(formats, restore_run(formats, s, before), count - 1, registry);
        assert(handed_over(formats, count - 1, registry) + Seq::<(int, u32)>::empty().push(
            (count - 1, effective_id(formats[count - 1], registry)),
        ) =~= handed_over(formats, count, registry));
    }
}

/// The restore of a snapshot to a clipboard that answers without fault
/// succeeds without a warning, and hands over every entry, in order, under
/// its effective identifier.
pub proof fn lemma_restore_of_snapshot(formats: Seq<FormatView>, registry: spec_fn(Seq<char>) -> u32)
    requires
        formats.len() <= usize::MAX,
    ensures
        restore_outcome(restore_run(formats, restore_start(), restore_answers(formats, registry))) == Some(
            Ok::<(), ClipboardError>(()),
        ),
        restore_run(formats, restore_start(), restore_answers(formats, registry)).warnings.len() == 0,
        restore_set(formats, restore_start(), restore_answers(formats, registry)) == handed_over(
            formats,
            formats.len() as int,
            registry,
        ),
{
    let e0 = Seq::<RestoreEvent>::empty();
    let e1 = e0.push(RestoreEvent::Opened(OpenOutcome::Granted));
    let e2 = e1.push(RestoreEvent::Cleared(true));
    lemma_restore_run_push(formats, restore_start(), e0, RestoreEvent::Opened(OpenOutcome::Granted));
    lemma_restore_run_push(formats, restore_start(), e1, RestoreEvent::Cleared(true));
    let cleared = restore_run(formats, restore_start(), e2);
    let entries = writings(formats, formats.len() as int, registry);
    lemma_restore_run_concat(formats, restore_start(), e2, entries);
    lemma_writings_set_the_entries(formats, cleared, formats.len() as int, registry);
    lemma_restore_run_push(formats, restore_start(), e2 + entries, RestoreEvent::Closed);
    assert(restore_set(formats, restore_start(), e2) + handed_over(formats, formats.len() as int, registry)
        =~= handed_over(formats, formats.len() as int, registry));
}

/// Capture, restore, capture: where the clipboard answers without fault,
/// knows each identifier by one name, and registers the name of a format
/// under the identifier the format had, it holds after the restore what it
/// held before, and the second capture gives the snapshot of the first.
pub proof fn lemma_capture_restore_capture(
    held: Seq<HeldFormat>,
    registry: spec_fn(Seq<char>) -> u32,
    names: spec_fn(u32) -> Seq<u16>,
)
    requires
        held.len() <= usize::MAX,
        forall|i: int| 0 <= i < held.len() ==> can_hold(#[trigger] held[i]),
        forall|i: int| 0 <= i < held.len() ==> (#[trigger] held[i]).name_units == names(held[i].format_id),
        forall|i: int|
            0 <= i < held.len() ==> effective_id(entry_of(#[trigger] held[i]), registry) == held[i].format_id,
    ensures
        ({
            let first = capture_run(capture_start(), capture_answers(held));
            let answers = restore_answers(first.formats, registry);
            let restored = restore_run(first.formats, restore_start(), answers);
            let set = restore_set(first.formats, restore_start(), answers);
            let second = capture_run(
                capture_start(),
                capture_answers(held_after(first.formats, set, names)),
            );
            &&& capture_outcome(first) == Some(Ok::<Seq<FormatView>, ClipboardError>(captured(held)))
            &&& restore_outcome(restored) == Some(Ok::<(), ClipboardError>(()))
            &&& held_after(first.formats, set, names) == held
            &&& capture_outcome(second) == capture_outcome(first)
        }),
{
    lemma_capture_of_held(held);
    let snapshot = captured(held);
    let first = capture_run(capture_start(), capture_answers(held));
    assert(first.formats == snapshot);
    lemma_restore_of_snapshot(snapshot, registry);
    let set = handed_over(snapshot, snapshot.len() as int, registry);
    assert(held_after(snapshot, set, names) =~= held);
}

} // verus!
