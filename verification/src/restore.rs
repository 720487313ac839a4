use vstd::prelude::*;
use crate::error::open_failure;
use crate::error::ClipboardError;
use crate::error::OpenOutcome;
use crate::format::FormatView;
use crate::format::WindowsClipboardSnapshot;

verus! {

/// Why one format of a snapshot was not put on the clipboard.
#[derive(Clone, Copy, Debug, PartialEq, Eq)]
pub enum WriteFailure {
    /// No shared memory block of the payload's size could be allocated.
    AllocationFailed,
    /// The new block could not be locked; it is left to the system.
    LockFailed,
    /// The clipboard did not accept the block under the identifier.
    SetFailed,
}

/// A format that was skipped during a restore.
#[derive(Clone, Copy, Debug, PartialEq, Eq)]
pub struct RestoreWarning {
    pub format_id: u32,
    pub reason: WriteFailure,
}

/// Which answer of the clipboard subsystem a restore is waiting for.
#[derive(Clone, Copy, Debug, PartialEq, Eq)]
pub enum RestorePhase {
    /// Exclusive access was requested.
    Opening,
    /// The clearing of the clipboard was requested.
    Clearing,
    /// The registration of the name of entry `index` was requested.
    Registering { index: usize },
    /// A shared memory block for the payload of entry `index` was requested.
    Allocating { index: usize, format_id: u32 },
    /// The copy of the payload of entry `index` into its block was requested.
    Filling { index: usize, format_id: u32 },
    /// The hand-over of the block of entry `index` to the clipboard was requested.
    Setting { index: usize, format_id: u32 },
    /// The release of the clipboard was requested, after all entries.
    Closing,
    /// The release of the clipboard was requested, after a failed clearing.
    Aborting,
    /// The restore is complete.
    Finished,
    /// The restore failed as a whole.
    Failed { error: ClipboardError },
}

/// An answer of the clipboard subsystem.
#[derive(Clone, Copy, Debug, PartialEq, Eq)]
pub enum RestoreEvent {
    /// Answer to a request for exclusive access.
    Opened(OpenOutcome),
    /// Whether the clipboard was cleared.
    Cleared(bool),
    /// The identifier that a registration returned.
    Registered(u32),
    /// Whether a shared memory block was allocated.
    Allocated(bool),
    /// Whether the block was locked and the payload copied into it.
    Filled(bool),
    /// Whether the clipboard took the block.
    DataSet(bool),
    /// The clipboard was released.
    Closed,
}

/// The request that a restore makes of its driver.
#[derive(Clone, Copy, Debug, PartialEq, Eq)]
pub enum RestoreAction {
    Open,
    Clear,
    /// Register the name of entry `index`.
    Register { index: usize },
    /// Allocate a movable block of the size of the payload of entry `index`.
    Allocate { index: usize },
    /// Lock the block, copy the payload of entry `index` into it, unlock it.
    Fill { index: usize },
    /// Hand the block to the clipboard under `format_id`.
    SetData { format_id: u32 },
    Close,
    /// Nothing is left to request: the restore has an outcome.
    Stop,
}

/// A restore in progress.
#[derive(Clone, Debug, PartialEq, Eq)]
pub struct RestoreState {
    pub phase: RestorePhase,
    /// The entries skipped so far.
    pub warnings: Vec<RestoreWarning>,
}

/// Mathematical content of a restore in progress.
pub struct RestoreModel {
    pub phase: RestorePhase,
    pub warnings: Seq<RestoreWarning>,
}

impl View for RestoreState {
    type V = RestoreModel;

    open spec fn view(&self) -> RestoreModel {
        RestoreModel { phase: self.phase, warnings: self.warnings@ }
    }
}

/// A restore that has made no request yet but the first.
pub open spec fn restore_start() -> RestoreModel {
    RestoreModel { phase: RestorePhase::Opening, warnings: Seq::empty() }
}

/// The phase in which the entry at `index` is taken up: a named entry is
/// registered first, an unnamed one keeps its stored identifier, and past the
/// last entry the clipboard is released.
pub open spec fn restore_entry(formats: Seq<FormatView>, index: int) -> RestorePhase {
    if 0 <= index < formats.len() {
        if formats[index].format_name is Some {
            RestorePhase::Registering { index: index as usize }
        } else {
            RestorePhase::Allocating { index: index as usize, format_id: formats[index].format_id }
        }
    } else {
        RestorePhase::Closing
    }
}

/// The restore after the entry at `index` was skipped.
pub open spec fn restore_skip(
    formats: Seq<FormatView>,
    s: RestoreModel,
    index: usize,
    format_id: u32,
    reason: WriteFailure,
) -> RestoreModel {
    RestoreModel {
        phase: restore_entry(formats, index + 1),
        warnings: s.warnings.push(RestoreWarning { format_id, reason }),
    }
}

/// The transition of a restore of `formats` on one answer. An answer that the
/// restore is not waiting for changes nothing.
pub open spec fn restore_next(formats: Seq<FormatView>, s: RestoreModel, event: RestoreEvent) -> RestoreModel {
    match (s.phase, event) {
        (RestorePhase::Opening, RestoreEvent::Opened(OpenOutcome::Granted)) => RestoreModel {
            phase: RestorePhase::Clearing,
            ..s
        },
        (RestorePhase::Opening, RestoreEvent::Opened(outcome)) => RestoreModel {
            phase: RestorePhase::Failed { error: open_failure(outcome) },
            ..s
        },
        (RestorePhase::Clearing, RestoreEvent::Cleared(cleared)) => {
            if cleared {
                RestoreModel { phase: restore_entry(formats, 0), ..s }
            } else {
                RestoreModel { phase: RestorePhase::Aborting, ..s }
            }
        },
        (RestorePhase::Registering { index }, RestoreEvent::Registered(format_id)) => RestoreModel {
            phase: RestorePhase::Allocating { index, format_id },
            ..s
        },
        (RestorePhase::Allocating { index, format_id }, RestoreEvent::Allocated(allocated)) => {
            if allocated {
                RestoreModel { phase: RestorePhase::Filling { index, format_id }, ..s }
            } else {
                restore_skip(formats, s, index, format_id, WriteFailure::AllocationFailed)
            }
        },
        (RestorePhase::Filling { index, format_id }, RestoreEvent::Filled(filled)) => {
            if filled {
                RestoreModel { phase: RestorePhase::Setting { index, format_id }, ..s }
            } else {
                restore_skip(formats, s, index, format_id, WriteFailure::LockFailed)
            }
        },
        (RestorePhase::Setting { index, format_id }, RestoreEvent::DataSet(accepted)) => {
            if accepted {
                RestoreModel { phase: restore_entry(formats, index + 1), ..s }
            } else {
                restore_skip(formats, s, index, format_id, WriteFailure::SetFailed)
            }
        },
        (RestorePhase::Closing, RestoreEvent::Closed) => RestoreModel {
            phase: RestorePhase::Finished,
            ..s
        },
        (RestorePhase::Aborting, RestoreEvent::Closed) => RestoreModel {
            phase: RestorePhase::Failed { error: ClipboardError::ClearFailed },
            ..s
        },
        _ => s,
    }
}

/// The request that a restore in a given phase makes.
pub open spec fn restore_request(phase: RestorePhase) -> RestoreAction {
    match phase {
        RestorePhase::Opening => RestoreAction::Open,
        RestorePhase::Clearing => RestoreAction::Clear,
        RestorePhase::Registering { index } => RestoreAction::Register { index },
        RestorePhase::Allocating { index, format_id } => RestoreAction::Allocate { index },
        RestorePhase::Filling { index, format_id } => RestoreAction::Fill { index },
        RestorePhase::Setting { index, format_id } => RestoreAction::SetData { format_id },
        RestorePhase::Closing => RestoreAction::Close,
        RestorePhase::Aborting => RestoreAction::Close,
        RestorePhase::Finished => RestoreAction::Stop,
        RestorePhase::Failed { error } => RestoreAction::Stop,
    }
}

/// What a restore returns to its caller, once it has stopped.
pub open spec fn restore_outcome(s: RestoreModel) -> Option<Result<(), ClipboardError>> {
    match s.phase {
        RestorePhase::Finished => Some(Ok(())),
        RestorePhase::Failed { error } => Some(Err(error)),
        _ => None,
    }
}

/// The restore of `formats` after a sequence of answers, taken in order.
pub open spec fn restore_run(formats: Seq<FormatView>, s: RestoreModel, events: Seq<RestoreEvent>) -> RestoreModel
    decreases events.len(),
{
    if events.len() == 0 {
        s
    } else {
        restore_next(formats, restore_run(formats, s, events.drop_last()), events.last())
    }
}

/// The phase in which the entry at `index` is taken up.
fn entry_phase(snapshot: &WindowsClipboardSnapshot, index: usize) -> (phase: RestorePhase)
    ensures
        phase == restore_entry(snapshot@, index as int),
{
    if index < snapshot.formats.len() {
        match &snapshot.formats[index].format_name {
            Some(_) => RestorePhase::Registering { index },
            None => RestorePhase::Allocating {
                index,
                format_id: snapshot.formats[index].format_id,
            },
        }
    } else {
        RestorePhase::Closing
    }
}

/// The phase in which the entry after `index` is taken up.
fn following_phase(snapshot: &WindowsClipboardSnapshot, index: usize) -> (phase: RestorePhase)
    ensures
        phase == restore_entry(snapshot@, index + 1),
{
    if index < snapshot.formats.len() {
        entry_phase(snapshot, index + 1)
    } else {
        RestorePhase::Closing
    }
}

impl RestoreState {
    /// A restore about to ask for exclusive access.
    pub fn new() -> (state: RestoreState)
        ensures
            state@ == restore_start(),
    {
        RestoreState { phase: RestorePhase::Opening, warnings: Vec::new() }
    }

    /// The request to make next.
    pub fn pending_action(&self) -> (action: RestoreAction)
        ensures
            action == restore_request(self@.phase),
    {
        match self.phase {
            RestorePhase::Opening => RestoreAction::Open,
            RestorePhase::Clearing => RestoreAction::Clear,
            RestorePhase::Registering { index } => RestoreAction::Register { index },
            RestorePhase::Allocating { index, format_id: _ } => RestoreAction::Allocate { index },
            RestorePhase::Filling { index, format_id: _ } => RestoreAction::Fill { index },
            RestorePhase::Setting { index: _, format_id } => RestoreAction::SetData { format_id },
            RestorePhase::Closing => RestoreAction::Close,
            RestorePhase::Aborting => RestoreAction::Close,
            RestorePhase::Finished => RestoreAction::Stop,
            RestorePhase::Failed { error: _ } => RestoreAction::Stop,
        }
    }

    /// Success for a finished restore, the error of a failed one, and nothing
    /// while answers are still awaited.
    pub fn outcome(&self) -> (outcome: Option<Result<(), ClipboardError>>)
        ensures
            outcome == restore_outcome(self@),
    {
        match self.phase {
            RestorePhase::Finished => Some(Ok(())),
            RestorePhase::Failed { error } => Some(Err(error)),
            _ => None,
        }
    }

    fn enter(self, phase: RestorePhase) -> (next: RestoreState)
        ensures
            next@ == (RestoreModel { phase, ..self@ }),
    {
        RestoreState { phase, ..self }
    }

    fn skip(
        self,
        snapshot: &WindowsClipboardSnapshot,
        index: usize,
        format_id: u32,
        reason: WriteFailure,
    ) -> (next: RestoreState)
        ensures
            next@ == restore_skip(snapshot@, self@, index, format_id, reason),
    {
        let mut warnings = self.warnings;
        warnings.push(RestoreWarning { format_id, reason });
        RestoreState { phase: following_phase(snapshot, index), warnings }
    }
}

/// Advances the restore of a snapshot by one answer of the clipboard
/// subsystem. The request to make next is read off the returned state; an
/// entry that cannot be written is skipped with a warning, and only a refused
/// opening or a failed clearing fails the restore.
pub fn restore_windows_clipboard_snapshot(
    snapshot: &WindowsClipboardSnapshot,
    state: RestoreState,
    event: RestoreEvent,
) -> (next: RestoreState)
    ensures
        next@ == restore_next(snapshot@, state@, event),
{
    match state.phase {
        RestorePhase::Opening => match event {
            RestoreEvent::Opened(OpenOutcome::Granted) => state.enter(RestorePhase::Clearing),
            RestoreEvent::Opened(OpenOutcome::Refused) => state.enter(
                RestorePhase::Failed { error: ClipboardError::OpenFailed },
            ),
            RestoreEvent::Opened(OpenOutcome::Unsupported) => state.enter(
                RestorePhase::Failed { error: ClipboardError::UnsupportedPlatform },
            ),
            _ => state,
        },
        RestorePhase::Clearing => match event {
            RestoreEvent::Cleared(cleared) => {
                if cleared {
                    let phase = entry_phase(snapshot, 0);
                    state.enter(phase)
                } else {
                    state.enter(RestorePhase::Aborting)
                }
            },
            _ => state,
        },
        RestorePhase::Registering { index } => match event {
            RestoreEvent::Registered(format_id) => state.enter(
                RestorePhase::Allocating { index, format_id },
            ),
            _ => state,
        },
        RestorePhase::Allocating { index, format_id } => match event {
            RestoreEvent::Allocated(allocated) => {
                if allocated {
                    state.enter(RestorePhase::Filling { index, format_id })
                } else {
                    state.skip(snapshot, index, format_id, WriteFailure::AllocationFailed)
                }
            },
            _ => state,
        },
        RestorePhase::Filling { index, format_id } => match event {
            RestoreEvent::Filled(filled) => {
                if filled {
                    state.enter(RestorePhase::Setting { index, format_id })
                } else {
                    state.skip(snapshot, index, format_id, WriteFailure::LockFailed)
                }
            },
            _ => state,
        },
        RestorePhase::Setting { index, format_id } => match event {
            RestoreEvent::DataSet(accepted) => {
                if accepted {
                    let phase = following_phase(snapshot, index);
                    state.enter(phase)
                } else {
                    state.skip(snapshot, index, format_id, WriteFailure::SetFailed)
                }
            },
            _ => state,
        },
        RestorePhase::Closing => match event {
            RestoreEvent::Closed => state.enter(RestorePhase::Finished),
            _ => state,
        },
        RestorePhase::Aborting => match event {
            RestoreEvent::Closed => state.enter(
                RestorePhase::Failed { error: ClipboardError::ClearFailed },
            ),
            _ => state,
        },
        RestorePhase::Finished => state,
        RestorePhase::Failed { error: _ } => state,
    }
}

/// Whether a phase belongs to a restore whose clearing failed.
pub open spec fn is_abandoned(phase: RestorePhase) -> bool {
    phase is Aborting || phase == (RestorePhase::Failed { error: ClipboardError::ClearFailed })
}

/// Where the clearing fails, nothing of the snapshot reaches the clipboard:
/// whatever answers follow, the restore only asks for the release of the
/// clipboard or has stopped, and its outcome, once it has one, is the failure
/// to clear.
pub proof fn lemma_failed_clear_sets_nothing(
    formats: Seq<FormatView>,
    s: RestoreModel,
    events: Seq<RestoreEvent>,
)
    requires
        s.phase is Clearing,
    ensures
        ({
            let end = restore_run(formats, restore_next(formats, s, RestoreEvent::Cleared(false)), events);
            &&& is_abandoned(end.phase)
            &&& restore_request(end.phase) is Close || restore_request(end.phase) is Stop
            &&& restore_outcome(end) is Some ==> restore_outcome(end) == Some(
                Err::<(), ClipboardError>(ClipboardError::ClearFailed),
            )
            &&& end.warnings == s.warnings
        }),
    decreases events.len(),
{
    if events.len() > 0 {
        lemma_failed_clear_sets_nothing(formats, s, events.drop_last());
    }
}

/// Once the clipboard is cleared, no sequence of answers makes the restore
/// fail: an entry that cannot be written never stops the entries after it
/// from being tried.
pub proof fn lemma_restore_fails_only_before_entries(
    formats: Seq<FormatView>,
    s: RestoreModel,
    events: Seq<RestoreEvent>,
)
    requires
        !(s.phase is Opening),
        !(s.phase is Clearing),
        !(s.phase is Aborting),
        !(s.phase is Failed),
    ensures
        !(restore_run(formats, s, events).phase is Failed),
        !(restore_run(formats, s, events).phase is Aborting),
        !(restore_run(formats, s, events).phase is Opening),
        !(restore_run(formats, s, events).phase is Clearing),
    decreases events.len(),
{
    if events.len() > 0 {
        lemma_restore_fails_only_before_entries(formats, s, events.drop_last());
    }
}

/// An entry that is skipped costs one warning, and the restore goes on with
/// the entry after it.
pub proof fn lemma_write_failure_is_not_fatal(
    formats: Seq<FormatView>,
    s: RestoreModel,
    event: RestoreEvent,
    index: usize,
)
    requires
        match s.phase {
            RestorePhase::Allocating { index: at, .. } => at == index && event == RestoreEvent::Allocated(false),
            RestorePhase::Filling { index: at, .. } => at == index && event == RestoreEvent::Filled(false),
            RestorePhase::Setting { index: at, .. } => at == index && event == RestoreEvent::DataSet(false),
            _ => false,
        },
    ensures
        restore_next(formats, s, event).phase == restore_entry(formats, index + 1),
        restore_next(formats, s, event).warnings.len() == s.warnings.len() + 1,
{
}

/// The number of entries that a restore in a given phase has dealt with.
pub open spec fn restore_progress(formats: Seq<FormatView>, phase: RestorePhase) -> int {
    match phase {
        RestorePhase::Registering { index } => index as int,
        RestorePhase::Allocating { index, .. } => index as int,
        RestorePhase::Filling { index, .. } => index as int,
        RestorePhase::Setting { index, .. } => index as int,
        RestorePhase::Closing => formats.len() as int,
        RestorePhase::Finished => formats.len() as int,
        _ => 0,
    }
}

/// Whether a phase names an entry of the snapshot and an identifier that the
/// entry may be set under: only a named entry is registered, and an unnamed
/// one goes by its stored identifier.
pub open spec fn restore_phase_sound(formats: Seq<FormatView>, phase: RestorePhase) -> bool {
    match phase {
        RestorePhase::Registering { index } => index < formats.len() && formats[index as int].format_name is Some,
        RestorePhase::Allocating { index, format_id } => sets_entry(formats, index as int, format_id),
        RestorePhase::Filling { index, format_id } => sets_entry(formats, index as int, format_id),
        RestorePhase::Setting { index, format_id } => sets_entry(formats, index as int, format_id),
        _ => true,
    }
}

/// Whether `format_id` is an identifier for the entry at `index`.
pub open spec fn sets_entry(formats: Seq<FormatView>, index: int, format_id: u32) -> bool {
    &&& 0 <= index < formats.len()
    &&& formats[index].format_name is None ==> format_id == formats[index].format_id
}

/// The entries that the clipboard took in the course of a sequence of
/// answers, each with the identifier it was set under.
pub open spec fn restore_set(formats: Seq<FormatView>, s: RestoreModel, events: Seq<RestoreEvent>) -> Seq<(int, u32)>
    decreases events.len(),
{
    if events.len() == 0 {
        Seq::empty()
    } else {
        let earlier = restore_set(formats, s, events.drop_last());
        match (restore_run(formats, s, events.drop_last()).phase, events.last()) {
            (RestorePhase::Setting { index, format_id }, RestoreEvent::DataSet(true)) => earlier.push(
                (index as int, format_id),
            ),
            _ => earlier,
        }
    }
}

/// Every entry of the snapshot is tried: whatever the clipboard answers, each
/// entry that the restore has passed was either taken by the clipboard or
/// skipped with a warning, and a finished restore has passed them all. What
/// the clipboard took is an entry of the snapshot, under its stored
/// identifier if it has no name.
pub proof fn lemma_every_entry_is_set_or_skipped(formats: Seq<FormatView>, events: Seq<RestoreEvent>)
    requires
        formats.len() <= usize::MAX,
    ensures
        ({
            let end = restore_run(formats, restore_start(), events);
            let set = restore_set(formats, restore_start(), events);
            &&& set.len() + end.warnings.len() == restore_progress(formats, end.phase)
            &&& restore_phase_sound(formats, end.phase)
            &&& end.phase is Finished ==> set.len() + end.warnings.len() == formats.len()
            &&& forall|k: int| 0 <= k < set.len() ==> sets_entry(formats, (#[trigger] set[k]).0, set[k].1)
        }),
    decreases events.len(),
{
    if events.len() > 0 {
        lemma_every_entry_is_set_or_skipped(formats, events.drop_last());
        let before = restore_run(formats, restore_start(), events.drop_last());
        let earlier = restore_set(formats, restore_start(), events.drop_last());
        let set = restore_set(formats, restore_start(), events);
        assert forall|k: int| 0 <= k < set.len() implies sets_entry(formats, (#[trigger] set[k]).0, set[k].1) by {
            if k < earlier.len() {
                assert(set[k] == earlier[k]);
            }
        }
    }
}

/// An entry for which nothing fails is handed to the clipboard under its
/// stored identifier if it has no name, and under the identifier that the
/// registration of its name returned if it has one; the restore then turns to
/// the entry after it.
pub proof fn lemma_writable_entry_is_set(
    formats: Seq<FormatView>,
    s: RestoreModel,
    index: int,
    registered: u32,
)
    requires
        0 <= index < formats.len() <= usize::MAX,
        s.phase == restore_entry(formats, index),
    ensures
        ({
            let effective = if formats[index].format_name is Some {
                registered
            } else {
                formats[index].format_id
            };
            let allocating = if formats[index].format_name is Some {
                restore_next(formats, s, RestoreEvent::Registered(registered))
            } else {
                s
            };
            let setting = restore_next(
                formats,
                restore_next(formats, allocating, RestoreEvent::Allocated(true)),
                RestoreEvent::Filled(true),
            );
            let done = restore_next(formats, setting, RestoreEvent::DataSet(true));
            &&& restore_request(allocating.phase) == (RestoreAction::Allocate { index: index as usize })
            &&& restore_request(setting.phase) == (RestoreAction::SetData { format_id: effective })
            &&& done.phase == restore_entry(formats, index + 1)
            &&& done.warnings == s.warnings
        }),
{
}

} // verus!
