use vstd::prelude::*;
use crate::encoding::format_name_of;
use crate::encoding::get_format_name;
use crate::error::open_failure;
use crate::error::ClipboardError;
use crate::error::OpenOutcome;
use crate::format::formats_view;
use crate::format::is_custom_format;
use crate::format::lemma_formats_view_push;
use crate::format::names_match_identifiers;
use crate::format::names_only_on_custom;
use crate::format::FormatView;
use crate::format::WindowsClipboardFormat;
use crate::format::WindowsClipboardSnapshot;
use crate::format::CUSTOM_FORMAT_THRESHOLD;
use crate::format::FORMAT_NAME_CAPACITY;

verus! {

/// Why one format was left out of a snapshot.
#[derive(Clone, Copy, Debug, PartialEq, Eq)]
pub enum ReadFailure {
    /// The clipboard gave no data handle for the format.
    HandleUnavailable,
    /// The shared memory behind the handle could not be locked.
    LockFailed,
}

/// A format that was enumerated but could not be read.
#[derive(Clone, Copy, Debug, PartialEq, Eq)]
pub struct CaptureWarning {
    pub format_id: u32,
    pub reason: ReadFailure,
}

/// Which answer of the clipboard subsystem a capture is waiting for.
#[derive(Clone, Copy, Debug, PartialEq, Eq)]
pub enum CapturePhase {
    /// Exclusive access was requested.
    Opening,
    /// The format that follows `after` was requested; zero stands for the start.
    Enumerating { after: u32 },
    /// The data handle of the format was requested.
    Fetching { format_id: u32 },
    /// The byte length behind the handle was requested.
    Sizing { format_id: u32 },
    /// A locked copy of the bytes behind the handle was requested.
    Locking { format_id: u32 },
    /// The registered name of the format was requested.
    Naming { format_id: u32 },
    /// The release of the clipboard was requested.
    Closing,
    /// The capture is complete.
    Finished,
    /// The capture failed as a whole.
    Failed { error: ClipboardError },
}

/// An answer of the clipboard subsystem.
#[derive(Clone, Debug, PartialEq, Eq)]
pub enum CaptureEvent {
    /// Answer to a request for exclusive access.
    Opened(OpenOutcome),
    /// The next format identifier; zero when there is none.
    NextFormat(u32),
    /// Whether a data handle was obtained.
    DataHandle(bool),
    /// The byte length behind the handle.
    ByteLength(usize),
    /// The bytes copied under the lock, or nothing if locking failed.
    Copied(Option<Vec<u8>>),
    /// The code units that a name lookup wrote; none if it failed.
    Name(Vec<u16>),
    /// The clipboard was released.
    Closed,
}

/// Mathematical content of an answer.
pub enum CaptureAnswer {
    Opened(OpenOutcome),
    NextFormat(u32),
    DataHandle(bool),
    ByteLength(usize),
    Copied(Option<Seq<u8>>),
    Name(Seq<u16>),
    Closed,
}

impl View for CaptureEvent {
    type V = CaptureAnswer;

    open spec fn view(&self) -> CaptureAnswer {
        match *self {
            CaptureEvent::Opened(outcome) => CaptureAnswer::Opened(outcome),
            CaptureEvent::NextFormat(format_id) => CaptureAnswer::NextFormat(format_id),
            CaptureEvent::DataHandle(available) => CaptureAnswer::DataHandle(available),
            CaptureEvent::ByteLength(length) => CaptureAnswer::ByteLength(length),
            CaptureEvent::Copied(Some(bytes)) => CaptureAnswer::Copied(Some(bytes@)),
            CaptureEvent::Copied(None) => CaptureAnswer::Copied(None),
            CaptureEvent::Name(units) => CaptureAnswer::Name(units@),
            CaptureEvent::Closed => CaptureAnswer::Closed,
        }
    }
}

/// The request that a capture makes of its driver.
#[derive(Clone, Copy, Debug, PartialEq, Eq)]
pub enum CaptureAction {
    Open,
    NextFormat { after: u32 },
    GetData { format_id: u32 },
    QuerySize { format_id: u32 },
    LockAndCopy { format_id: u32 },
    LookupName { format_id: u32, capacity: usize },
    Close,
    /// Nothing is left to request: the capture has an outcome.
    Stop,
}

/// A capture in progress.
#[derive(Clone, Debug, PartialEq, Eq)]
pub struct CaptureState {
    pub phase: CapturePhase,
    /// The formats read so far, in the order of enumeration.
    pub formats: Vec<WindowsClipboardFormat>,
    /// The payload of the format whose name is awaited.
    pub pending: Vec<u8>,
    /// The formats left out so far.
    pub warnings: Vec<CaptureWarning>,
}

/// Mathematical content of a capture in progress.
pub struct CaptureModel {
    pub phase: CapturePhase,
    pub formats: Seq<FormatView>,
    pub pending: Seq<u8>,
    pub warnings: Seq<CaptureWarning>,
}

impl View for CaptureState {
    type V = CaptureModel;

    open spec fn view(&self) -> CaptureModel {
        CaptureModel {
            phase: self.phase,
            formats: formats_view(self.formats@),
            pending: self.pending@,
            warnings: self.warnings@,
        }
    }
}

/// A capture that has made no request yet but the first.
pub open spec fn capture_start() -> CaptureModel {
    CaptureModel {
        phase: CapturePhase::Opening,
        formats: Seq::empty(),
        pending: Seq::empty(),
        warnings: Seq::empty(),
    }
}

/// The capture after the pending payload was stored as an entry.
pub open spec fn capture_store(s: CaptureModel, format_id: u32, format_name: Option<Seq<char>>) -> CaptureModel {
    CaptureModel {
        phase: CapturePhase::Enumerating { after: format_id },
        formats: s.formats.push(FormatView { format_id, format_name, data: s.pending }),
        pending: Seq::empty(),
        warnings: s.warnings,
    }
}

/// The capture after the payload of a format was read: a predefined format is
/// stored at once, a registered one waits for its name.
pub open spec fn capture_read(s: CaptureModel, format_id: u32, data: Seq<u8>) -> CaptureModel {
    let held = CaptureModel { pending: data, ..s };
    if is_custom_format(format_id) {
        CaptureModel { phase: CapturePhase::Naming { format_id }, ..held }
    } else {
        capture_store(held, format_id, None)
    }
}

/// The capture after a format was left out.
pub open spec fn capture_skip(s: CaptureModel, format_id: u32, reason: ReadFailure) -> CaptureModel {
    CaptureModel {
        phase: CapturePhase::Enumerating { after: format_id },
        warnings: s.warnings.push(CaptureWarning { format_id, reason }),
        ..s
    }
}

/// The transition of a capture on one answer. An answer that the capture is
/// not waiting for changes nothing.
pub open spec fn capture_next(s: CaptureModel, event: CaptureAnswer) -> CaptureModel {
    match (s.phase, event) {
        (CapturePhase::Opening, CaptureAnswer::Opened(OpenOutcome::Granted)) => CaptureModel {
            phase: CapturePhase::Enumerating { after: 0 },
            ..s
        },
        (CapturePhase::Opening, CaptureAnswer::Opened(outcome)) => CaptureModel {
            phase: CapturePhase::Failed { error: open_failure(outcome) },
            ..s
        },
        (CapturePhase::Enumerating { after }, CaptureAnswer::NextFormat(format_id)) => {
            if format_id == 0 {
                CaptureModel { phase: CapturePhase::Closing, ..s }
            } else {
                CaptureModel { phase: CapturePhase::Fetching { format_id }, ..s }
            }
        },
        (CapturePhase::Fetching { format_id }, CaptureAnswer::DataHandle(available)) => {
            if available {
                CaptureModel { phase: CapturePhase::Sizing { format_id }, ..s }
            } else {
                capture_skip(s, format_id, ReadFailure::HandleUnavailable)
            }
        },
        (CapturePhase::Sizing { format_id }, CaptureAnswer::ByteLength(length)) => {
            if length == 0 {
                capture_read(s, format_id, Seq::empty())
            } else {
                CaptureModel { phase: CapturePhase::Locking { format_id }, ..s }
            }
        },
        (CapturePhase::Locking { format_id }, CaptureAnswer::Copied(Some(bytes))) => capture_read(
            s,
            format_id,
            bytes,
        ),
        (CapturePhase::Locking { format_id }, CaptureAnswer::Copied(None)) => capture_skip(
            s,
            format_id,
            ReadFailure::LockFailed,
        ),
        (CapturePhase::Naming { format_id }, CaptureAnswer::Name(units)) => capture_store(
            s,
            format_id,
            format_name_of(format_id, units),
        ),
        (CapturePhase::Closing, CaptureAnswer::Closed) => CaptureModel {
            phase: CapturePhase::Finished,
            ..s
        },
        _ => s,
    }
}

/// The request that a capture in a given phase makes.
pub open spec fn capture_request(phase: CapturePhase) -> CaptureAction {
    match phase {
        CapturePhase::Opening => CaptureAction::Open,
        CapturePhase::Enumerating { after } => CaptureAction::NextFormat { after },
        CapturePhase::Fetching { format_id } => CaptureAction::GetData { format_id },
        CapturePhase::Sizing { format_id } => CaptureAction::QuerySize { format_id },
        CapturePhase::Locking { format_id } => CaptureAction::LockAndCopy { format_id },
        CapturePhase::Naming { format_id } => CaptureAction::LookupName {
            format_id,
            capacity: FORMAT_NAME_CAPACITY,
        },
        CapturePhase::Closing => CaptureAction::Close,
        CapturePhase::Finished => CaptureAction::Stop,
        CapturePhase::Failed { error } => CaptureAction::Stop,
    }
}

/// What a capture returns to its caller, once it has stopped.
pub open spec fn capture_outcome(s: CaptureModel) -> Option<Result<Seq<FormatView>, ClipboardError>> {
    match s.phase {
        CapturePhase::Finished => Some(Ok(s.formats)),
        CapturePhase::Failed { error } => Some(Err(error)),
        _ => None,
    }
}

/// The capture after a sequence of answers, taken in order.
pub open spec fn capture_run(s: CaptureModel, events: Seq<CaptureAnswer>) -> CaptureModel
    decreases events.len(),
{
    if events.len() == 0 {
        s
    } else {
        capture_next(capture_run(s, events.drop_last()), events.last())
    }
}

impl CaptureState {
    /// A capture about to ask for exclusive access.
    pub fn new() -> (state: CaptureState)
        ensures
            state@ == capture_start(),
    {
        let state = CaptureState {
            phase: CapturePhase::Opening,
            formats: Vec::new(),
            pending: Vec::new(),
            warnings: Vec::new(),
        };
        assert(state@.formats =~= Seq::empty());
        state
    }

    /// The request to make next.
    pub fn pending_action(&self) -> (action: CaptureAction)
        ensures
            action == capture_request(self@.phase),
    {
        match self.phase {
            CapturePhase::Opening => CaptureAction::Open,
            CapturePhase::Enumerating { after } => CaptureAction::NextFormat { after },
            CapturePhase::Fetching { format_id } => CaptureAction::GetData { format_id },
            CapturePhase::Sizing { format_id } => CaptureAction::QuerySize { format_id },
            CapturePhase::Locking { format_id } => CaptureAction::LockAndCopy { format_id },
            CapturePhase::Naming { format_id } => CaptureAction::LookupName {
                format_id,
                capacity: FORMAT_NAME_CAPACITY,
            },
            CapturePhase::Closing => CaptureAction::Close,
            CapturePhase::Finished => CaptureAction::Stop,
            CapturePhase::Failed { error: _ } => CaptureAction::Stop,
        }
    }

    /// The snapshot of a finished capture, the error of a failed one, and
    /// nothing while answers are still awaited.
    pub fn outcome(self) -> (outcome: Option<Result<WindowsClipboardSnapshot, ClipboardError>>)
        ensures
            match outcome {
                Some(Ok(snapshot)) => capture_outcome(self@) == Some(
                    Ok::<Seq<FormatView>, ClipboardError>(snapshot@),
                ),
                Some(Err(error)) => capture_outcome(self@) == Some(
                    Err::<Seq<FormatView>, ClipboardError>(error),
                ),
                None => capture_outcome(self@) is None,
            },
    {
        match self.phase {
            CapturePhase::Finished => Some(Ok(WindowsClipboardSnapshot { formats: self.formats })),
            CapturePhase::Failed { error } => Some(Err(error)),
            _ => None,
        }
    }

    fn store(self, format_id: u32, format_name: Option<String>) -> (next: CaptureState)
        ensures
            next@ == capture_store(
                self@,
                format_id,
                match format_name {
                    Some(name) => Some(name@),
                    None => None,
                },
            ),
    {
        let CaptureState { phase: _, mut formats, pending, warnings } = self;
        let entry = WindowsClipboardFormat { format_id, format_name, data: pending };
        proof {
            lemma_formats_view_push(formats@, entry);
        }
        formats.push(entry);
        CaptureState {
            phase: CapturePhase::Enumerating { after: format_id },
            formats,
            pending: Vec::new(),
            warnings,
        }
    }

    fn read(self, format_id: u32, data: Vec<u8>) -> (next: CaptureState)
        ensures
            next@ == capture_read(self@, format_id, data@),
    {
        let CaptureState { phase, formats, pending: _, warnings } = self;
        let held = CaptureState { phase, formats, pending: data, warnings };
        if format_id >= CUSTOM_FORMAT_THRESHOLD {
            CaptureState { phase: CapturePhase::Naming { format_id }, ..held }
        } else {
            held.store(format_id, None)
        }
    }

    fn skip(self, format_id: u32, reason: ReadFailure) -> (next: CaptureState)
        ensures
            next@ == capture_skip(self@, format_id, reason),
    {
        let CaptureState { phase: _, formats, pending, mut warnings } = self;
        warnings.push(CaptureWarning { format_id, reason });
        CaptureState { phase: CapturePhase::Enumerating { after: format_id }, formats, pending, warnings }
    }

    fn enter(self, phase: CapturePhase) -> (next: CaptureState)
        ensures
            next@ == (CaptureModel { phase, ..self@ }),
    {
        CaptureState { phase, ..self }
    }
}

/// Advances a capture by one answer of the clipboard subsystem. The request
/// to make next is read off the returned state; a format that cannot be read
/// is left out with a warning, and only a refused opening fails the capture.
pub fn get_windows_clipboard_snapshot(state: CaptureState, event: CaptureEvent) -> (next: CaptureState)
    ensures
        next@ == capture_next(state@, event@),
        names_only_on_custom(state@.formats) ==> names_only_on_custom(next@.formats),
{
    proof {
        if names_only_on_custom(state@.formats) {
            lemma_capture_keeps_names_on_custom(state@, event@);
        }
    }
    match state.phase {
        CapturePhase::Opening => match event {
            CaptureEvent::Opened(OpenOutcome::Granted) => state.enter(
                CapturePhase::Enumerating { after: 0 },
            ),
            CaptureEvent::Opened(OpenOutcome::Refused) => state.enter(
                CapturePhase::Failed { error: ClipboardError::OpenFailed },
            ),
            CaptureEvent::Opened(OpenOutcome::Unsupported) => state.enter(
                CapturePhase::Failed { error: ClipboardError::UnsupportedPlatform },
            ),
            _ => state,
        },
        CapturePhase::Enumerating { after: _ } => match event {
            CaptureEvent::NextFormat(format_id) => {
                if format_id == 0 {
                    state.enter(CapturePhase::Closing)
                } else {
                    state.enter(CapturePhase::Fetching { format_id })
                }
            },
            _ => state,
        },
        CapturePhase::Fetching { format_id } => match event {
            CaptureEvent::DataHandle(available) => {
                if available {
                    state.enter(CapturePhase::Sizing { format_id })
                } else {
                    state.skip(format_id, ReadFailure::HandleUnavailable)
                }
            },
            _ => state,
        },
        CapturePhase::Sizing { format_id } => match event {
            CaptureEvent::ByteLength(length) => {
                if length == 0 {
                    state.read(format_id, Vec::new())
                } else {
                    state.enter(CapturePhase::Locking { format_id })
                }
            },
            _ => state,
        },
        CapturePhase::Locking { format_id } => match event {
            CaptureEvent::Copied(Some(bytes)) => state.read(format_id, bytes),
            CaptureEvent::Copied(None) => state.skip(format_id, ReadFailure::LockFailed),
            _ => state,
        },
        CapturePhase::Naming { format_id } => match event {
            CaptureEvent::Name(units) => {
                let name = get_format_name(format_id, &units);
                state.store(format_id, name)
            },
            _ => state,
        },
        CapturePhase::Closing => match event {
            CaptureEvent::Closed => state.enter(CapturePhase::Finished),
            _ => state,
        },
        CapturePhase::Finished => state,
        CapturePhase::Failed { error: _ } => state,
    }
}

/// Whether a capture waits for the name of a format that must have one.
pub open spec fn capture_phase_sound(s: CaptureModel) -> bool {
    s.phase matches CapturePhase::Naming { format_id } ==> is_custom_format(format_id)
}

/// One answer never puts a name on a predefined format.
pub proof fn lemma_capture_keeps_names_on_custom(s: CaptureModel, event: CaptureAnswer)
    requires
        names_only_on_custom(s.formats),
    ensures
        names_only_on_custom(capture_next(s, event).formats),
{
    let next = capture_next(s, event);
    assert forall|i: int|
        0 <= i < next.formats.len() && (#[trigger] next.formats[i]).format_name is Some implies is_custom_format(
        next.formats[i].format_id,
    ) by {
        if i < s.formats.len() {
            assert(next.formats[i] == s.formats[i]);
        }
    }
}

/// Whatever the clipboard answers, no entry of a capture that started empty
/// carries a name unless its identifier is a registered one.
pub proof fn lemma_captured_names_only_on_custom(events: Seq<CaptureAnswer>)
    ensures
        names_only_on_custom(capture_run(capture_start(), events).formats),
    decreases events.len(),
{
    if events.len() > 0 {
        lemma_captured_names_only_on_custom(events.drop_last());
        lemma_capture_keeps_names_on_custom(
            capture_run(capture_start(), events.drop_last()),
            events.last(),
        );
    }
}

/// Whether an answer tells a capture in phase `phase` that the name it asked
/// for was not found.
pub open spec fn fails_lookup(phase: CapturePhase, event: CaptureAnswer) -> bool {
    phase is Naming && (event matches CaptureAnswer::Name(units) && units.len() == 0)
}

/// The number of name lookups that failed in the course of a sequence of
/// answers.
pub open spec fn capture_lookups_failed(s: CaptureModel, events: Seq<CaptureAnswer>) -> nat
    decreases events.len(),
{
    if events.len() == 0 {
        0
    } else {
        let counted = capture_lookups_failed(s, events.drop_last());
        if fails_lookup(capture_run(s, events.drop_last()).phase, events.last()) {
            counted + 1
        } else {
            counted
        }
    }
}

/// As long as no name lookup fails, the entries of a capture carry a name
/// exactly when their identifier is a registered one. An entry whose lookup
/// failed is a registered format without a name.
pub proof fn lemma_captured_names_match_identifiers(events: Seq<CaptureAnswer>)
    requires
        capture_lookups_failed(capture_start(), events) == 0,
    ensures
        names_match_identifiers(capture_run(capture_start(), events).formats),
        capture_phase_sound(capture_run(capture_start(), events)),
    decreases events.len(),
{
    if events.len() > 0 {
        lemma_captured_names_match_identifiers(events.drop_last());
        let s = capture_run(capture_start(), events.drop_last());
        let next = capture_next(s, events.last());
        assert(!fails_lookup(s.phase, events.last()));
        assert forall|i: int| 0 <= i < next.formats.len() implies ((#[trigger] next.formats[i]).format_name is Some
            <==> is_custom_format(next.formats[i].format_id)) by {
            if i < s.formats.len() {
                assert(next.formats[i] == s.formats[i]);
            }
        }
    }
}

/// A format that cannot be read costs the capture that one entry and nothing
/// else: the entries so far stay, one warning is added, and the enumeration
/// goes on after the format.
pub proof fn lemma_read_failure_is_not_fatal(s: CaptureModel, event: CaptureAnswer)
    requires
        (s.phase is Fetching && event == CaptureAnswer::DataHandle(false)) || (s.phase is Locking
            && event == CaptureAnswer::Copied(None)),
    ensures
        capture_next(s, event).formats == s.formats,
        capture_next(s, event).warnings.len() == s.warnings.len() + 1,
        capture_next(s, event).phase is Enumerating,
{
}

/// A capture fails as a whole only where exclusive access is not granted:
/// once the clipboard is open, no sequence of answers makes it fail.
pub proof fn lemma_capture_fails_only_on_opening(s: CaptureModel, events: Seq<CaptureAnswer>)
    requires
        !(s.phase is Opening),
        !(s.phase is Failed),
    ensures
        !(capture_run(s, events).phase is Opening),
        !(capture_run(s, events).phase is Failed),
    decreases events.len(),
{
    if events.len() > 0 {
        lemma_capture_fails_only_on_opening(s, events.drop_last());
    }
}

/// Whether a format has been enumerated whose reading is not yet settled.
pub open spec fn capture_in_flight(phase: CapturePhase) -> nat {
    match phase {
        CapturePhase::Fetching { .. } => 1,
        CapturePhase::Sizing { .. } => 1,
        CapturePhase::Locking { .. } => 1,
        CapturePhase::Naming { .. } => 1,
        _ => 0,
    }
}

/// Whether an answer tells a capture in phase `phase` that the clipboard
/// holds one more format.
pub open spec fn announces_format(phase: CapturePhase, event: CaptureAnswer) -> bool {
    phase is Enumerating && (event matches CaptureAnswer::NextFormat(format_id) && format_id != 0)
}

/// The number of formats that the clipboard has enumerated to a capture in
/// the course of a sequence of answers.
pub open spec fn capture_enumerated(s: CaptureModel, events: Seq<CaptureAnswer>) -> nat
    decreases events.len(),
{
    if events.len() == 0 {
        0
    } else {
        let counted = capture_enumerated(s, events.drop_last());
        if announces_format(capture_run(s, events.drop_last()).phase, events.last()) {
            counted + 1
        } else {
            counted
        }
    }
}

/// Every enumerated format is accounted for: it is an entry, or it was left
/// out with a warning, or its reading is under way. So a finished capture of
/// a clipboard with N formats, k of which could not be read, succeeds with
/// exactly N - k entries.
pub proof fn lemma_every_enumerated_format_is_accounted_for(events: Seq<CaptureAnswer>)
    ensures
        ({
            let end = capture_run(capture_start(), events);
            let enumerated = capture_enumerated(capture_start(), events);
            &&& end.formats.len() + end.warnings.len() + capture_in_flight(end.phase) == enumerated
            &&& end.phase is Finished ==> capture_outcome(end) == Some(
                Ok::<Seq<FormatView>, ClipboardError>(end.formats),
            ) && end.formats.len() == enumerated - end.warnings.len()
        }),
    decreases events.len(),
{
    if events.len() > 0 {
        lemma_every_enumerated_format_is_accounted_for(events.drop_last());
    }
}

/// The entries of a capture only grow, and every step keeps those it has.
pub proof fn lemma_capture_keeps_entries(s: CaptureModel, event: CaptureAnswer)
    ensures
        s.formats.len() <= capture_next(s, event).formats.len() <= s.formats.len() + 1,
        forall|i: int| 0 <= i < s.formats.len() ==> capture_next(s, event).formats[i] == s.formats[i],
{
}

/// A format whose handle, bytes and name are all obtained becomes the next
/// entry, with exactly the bytes that were copied and, for a registered
/// format, the name that its lookup gives.
pub proof fn lemma_readable_format_is_captured(
    s: CaptureModel,
    format_id: u32,
    length: usize,
    bytes: Seq<u8>,
    units: Seq<u16>,
)
    requires
        s.phase is Enumerating,
        format_id != 0,
        length != 0,
    ensures
        ({
            let fetched = capture_next(
                capture_next(s, CaptureAnswer::NextFormat(format_id)),
                CaptureAnswer::DataHandle(true),
            );
            let copied = capture_next(
                capture_next(fetched, CaptureAnswer::ByteLength(length)),
                CaptureAnswer::Copied(Some(bytes)),
            );
            let stored = if is_custom_format(format_id) {
                capture_next(copied, CaptureAnswer::Name(units))
            } else {
                copied
            };
            &&& stored.formats == s.formats.push(
                FormatView {
                    format_id,
                    format_name: format_name_of(format_id, units),
                    data: bytes,
                },
            )
            &&& stored.warnings == s.warnings
            &&& stored.phase == (CapturePhase::Enumerating { after: format_id })
        }),
{
}

/// A handle of length zero yields an entry with an empty payload: at once
/// for a predefined format, and after the name lookup for a registered one,
/// whatever that lookup answers.
pub proof fn lemma_empty_payload_is_captured(s: CaptureModel, format_id: u32, units: Seq<u16>)
    requires
        s.phase == (CapturePhase::Sizing { format_id }),
    ensures
        ({
            let sized = capture_next(s, CaptureAnswer::ByteLength(0));
            let stored = if is_custom_format(format_id) {
                capture_next(sized, CaptureAnswer::Name(units))
            } else {
                sized
            };
            &&& stored.formats.len() == s.formats.len() + 1
            &&& stored.formats.last().format_id == format_id
            &&& stored.formats.last().data == Seq::<u8>::empty()
            &&& stored.warnings == s.warnings
            &&& stored.phase == (CapturePhase::Enumerating { after: format_id })
        }),
{
}

} // verus!
