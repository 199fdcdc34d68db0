//! The decisions behind sending to Dart: whether a thread still has to
//! pick up its copies of the shared channel handles, and what each send
//! carries. Sending itself happens outside the library.
use vstd::prelude::*;
use crate::api::{Serialized, SerializedView, ViewUpdate, ViewmodelUpdate, ViewmodelUpdateView, ViewmodelMap, apply_updates, lookup};

verus! {

/// Payloads of fewer bytes than this are refused by `update_view` when
/// small payloads are to be warned about: they belong in the viewmodel.
pub const SMALL_VIEW_PAYLOAD: usize = 1024;

/// The handles that a sending thread copies from the shared cells.
pub enum ChannelHandle {
    ViewmodelUpdateSender,
    ViewmodelUpdateStream,
    ViewUpdateStream,
}

/// Which of the channel handles the current thread holds its own copy of.
pub struct ChannelReadiness {
    viewmodel_update_sender: bool,
    viewmodel_update_stream: bool,
    view_update_stream: bool,
}

/// What a [`ChannelReadiness`] records, handle by handle.
pub struct ReadinessView {
    pub viewmodel_update_sender: bool,
    pub viewmodel_update_stream: bool,
    pub view_update_stream: bool,
}

impl ReadinessView {
    /// A thread is ready exactly when it holds all three handles.
    pub open spec fn ready(self) -> bool {
        self.viewmodel_update_sender && self.viewmodel_update_stream && self.view_update_stream
    }

    /// Whether the thread holds `handle`.
    pub open spec fn holds(self, handle: ChannelHandle) -> bool {
        match handle {
            ChannelHandle::ViewmodelUpdateSender => self.viewmodel_update_sender,
            ChannelHandle::ViewmodelUpdateStream => self.viewmodel_update_stream,
            ChannelHandle::ViewUpdateStream => self.view_update_stream,
        }
    }

    /// The record after `handle` was copied into the thread.
    pub open spec fn with(self, handle: ChannelHandle) -> ReadinessView {
        match handle {
            ChannelHandle::ViewmodelUpdateSender => ReadinessView { viewmodel_update_sender: true, ..self },
            ChannelHandle::ViewmodelUpdateStream => ReadinessView { viewmodel_update_stream: true, ..self },
            ChannelHandle::ViewUpdateStream => ReadinessView { view_update_stream: true, ..self },
        }
    }
}

impl View for ChannelReadiness {
    type V = ReadinessView;

    closed spec fn view(&self) -> ReadinessView {
        ReadinessView {
            viewmodel_update_sender: self.viewmodel_update_sender,
            viewmodel_update_stream: self.viewmodel_update_stream,
            view_update_stream: self.view_update_stream,
        }
    }
}

impl ChannelReadiness {
    /// A thread that holds none of the handles yet.
    pub fn new() -> (readiness: ChannelReadiness)
        ensures
            !readiness@.viewmodel_update_sender,
            !readiness@.viewmodel_update_stream,
            !readiness@.view_update_stream,
    {
        ChannelReadiness {
            viewmodel_update_sender: false,
            viewmodel_update_stream: false,
            view_update_stream: false,
        }
    }

    /// Whether the thread holds all three handles.
    pub fn is_ready(&self) -> (ready: bool)
        ensures
            ready == self@.ready(),
            ready == (self@.viewmodel_update_sender && self@.viewmodel_update_stream
                && self@.view_update_stream),
    {
        self.viewmodel_update_sender && self.viewmodel_update_stream && self.view_update_stream
    }
}

/// Whether a thread whose record is `readiness` must copy the shared
/// handles before it sends.
pub open spec fn must_initialize(readiness: ReadinessView) -> bool {
    !readiness.ready()
}

/// Whether the shared handles must be copied into the current thread before
/// it sends: so exactly while the thread lacks one of them. The record is
/// left as it is; `record_copy` notes each handle once it is copied.
pub fn check_and_initialize(readiness: &ChannelReadiness) -> (copy_now: bool)
    ensures
        copy_now == must_initialize(readiness@),
        copy_now == !(readiness@.viewmodel_update_sender && readiness@.viewmodel_update_stream
            && readiness@.view_update_stream),
{
    !readiness.is_ready()
}

/// Notes that `handle` was copied into the current thread.
pub fn record_copy(readiness: &mut ChannelReadiness, handle: ChannelHandle)
    ensures
        final(readiness)@ == old(readiness)@.with(handle),
        final(readiness)@.viewmodel_update_sender == (old(readiness)@.viewmodel_update_sender
            || handle is ViewmodelUpdateSender),
        final(readiness)@.viewmodel_update_stream == (old(readiness)@.viewmodel_update_stream
            || handle is ViewmodelUpdateStream),
        final(readiness)@.view_update_stream == (old(readiness)@.view_update_stream
            || handle is ViewUpdateStream),
{
    match handle {
        ChannelHandle::ViewmodelUpdateSender => readiness.viewmodel_update_sender = true,
        ChannelHandle::ViewmodelUpdateStream => readiness.viewmodel_update_stream = true,
        ChannelHandle::ViewUpdateStream => readiness.view_update_stream = true,
    }
}

/// What one call of `update_viewmodel` sends: whether the handles must be
/// copied first, the update for the viewmodel channel, and the item
/// address that is announced on the viewmodel stream.
pub struct ViewmodelDispatch {
    pub initialize: bool,
    pub update: ViewmodelUpdate,
    pub notice: String,
}

/// Prepares the sends that store `serialized` at `item_address` in Dart's
/// viewmodel and tell the widgets bound to that item to rebuild.
pub fn update_viewmodel(readiness: &ChannelReadiness, item_address: &str, serialized: Serialized) -> (dispatch: ViewmodelDispatch)
    ensures
        dispatch.initialize == must_initialize(readiness@),
        dispatch.update@ == (ViewmodelUpdateView { item_address: item_address@, serialized: serialized@ }),
        dispatch.notice@ == item_address@,
{
    let initialize = check_and_initialize(readiness);
    let update = ViewmodelUpdate { item_address: item_address.to_owned(), serialized };
    ViewmodelDispatch { initialize, update, notice: item_address.to_owned() }
}

/// Whether `update_view` sends a payload or refuses it as too small.
pub enum ViewOutcome {
    Send(ViewUpdate),
    TooSmall,
}

/// What one call of `update_view` does.
pub struct ViewDispatch {
    pub initialize: bool,
    pub outcome: ViewOutcome,
}

/// Whether `update_view` refuses a payload of `len` bytes.
pub open spec fn refuses_view_payload(warn_small: bool, len: nat) -> bool {
    warn_small && len < SMALL_VIEW_PAYLOAD
}

/// Prepares the send of a large payload straight to the view at
/// `display_address`, without a copy kept in the viewmodel. Where
/// `warn_small` holds, a payload under `SMALL_VIEW_PAYLOAD` bytes is not
/// sent at all.
pub fn update_view(readiness: &ChannelReadiness, display_address: &str, serialized: Serialized, warn_small: bool) -> (dispatch: ViewDispatch)
    ensures
        dispatch.initialize == must_initialize(readiness@),
        dispatch.outcome is TooSmall <==> refuses_view_payload(warn_small, serialized.bytes@.len()),
        dispatch.outcome is TooSmall <==> (warn_small && serialized.bytes@.len() < SMALL_VIEW_PAYLOAD),
        !warn_small ==> dispatch.outcome is Send,
        serialized.bytes@.len() >= SMALL_VIEW_PAYLOAD ==> dispatch.outcome is Send,
        dispatch.outcome matches ViewOutcome::Send(v) ==> v.display_address@ == display_address@
            && v.serialized@ == serialized@,
{
    let initialize = check_and_initialize(readiness);
    if warn_small && serialized.bytes.len() < SMALL_VIEW_PAYLOAD {
        return ViewDispatch { initialize, outcome: ViewOutcome::TooSmall };
    }
    let view_update = ViewUpdate { display_address: display_address.to_owned(), serialized };
    ViewDispatch { initialize, outcome: ViewOutcome::Send(view_update) }
}

/// A thread is asked to copy the handles exactly while it lacks one, and a
/// thread that holds all three is never asked again: noting a copy never
/// takes a handle away, and once the three are noted, in whatever order,
/// the thread is ready.
pub proof fn law_initialize_once(
    readiness: ReadinessView,
    first: ChannelHandle,
    second: ChannelHandle,
    third: ChannelHandle,
    other: ChannelHandle,
)
    requires
        first != second,
        second != third,
        first != third,
    ensures
        must_initialize(readiness) <==> !(readiness.holds(ChannelHandle::ViewmodelUpdateSender)
            && readiness.holds(ChannelHandle::ViewmodelUpdateStream)
            && readiness.holds(ChannelHandle::ViewUpdateStream)),
        readiness.holds(other) ==> readiness.with(first).holds(other),
        readiness.ready() ==> readiness.with(first).ready(),
        !must_initialize(readiness.with(first).with(second).with(third)),
{
}

/// `update_view` refuses a payload only in a build that warns about small
/// payloads, and only below `SMALL_VIEW_PAYLOAD` bytes: without the warning
/// every payload is sent, a payload of at least `SMALL_VIEW_PAYLOAD` bytes
/// is always sent, and with the warning every shorter one is refused.
pub proof fn law_view_refusal(warn_small: bool, len: nat)
    ensures
        !refuses_view_payload(false, len),
        len >= SMALL_VIEW_PAYLOAD ==> !refuses_view_payload(warn_small, len),
        len < SMALL_VIEW_PAYLOAD ==> refuses_view_payload(true, len),
{
}

/// Noting a copy of one handle marks that handle and no other: the thread
/// then holds `handle`, and holds each other handle exactly as before.
pub proof fn law_copy_marks_only_that_handle(readiness: ReadinessView, handle: ChannelHandle, other: ChannelHandle)
    ensures
        readiness.with(handle).holds(handle),
        other != handle ==> readiness.with(handle).holds(other) == readiness.holds(other),
{
}

/// A thread is ready exactly when it holds each of the three handles; one
/// that lacks any of them is not ready, whatever else it holds.
pub proof fn law_ready_means_all_held(readiness: ReadinessView, missing: ChannelHandle)
    ensures
        readiness.ready() <==> (readiness.holds(ChannelHandle::ViewmodelUpdateSender)
            && readiness.holds(ChannelHandle::ViewmodelUpdateStream)
            && readiness.holds(ChannelHandle::ViewUpdateStream)),
        !readiness.holds(missing) ==> !readiness.ready(),
        readiness.ready() <==> (readiness.viewmodel_update_sender && readiness.viewmodel_update_stream
            && readiness.view_update_stream),
{
}

/// What `update_viewmodel` sends is what a later read gives back: once its
/// update and any later updates for other addresses are stored, the item
/// address reads as the payload that was sent.
pub proof fn law_update_then_read(
    model: ViewmodelMap,
    earlier: Seq<ViewmodelUpdateView>,
    item_address: Seq<char>,
    payload: SerializedView,
    later: Seq<ViewmodelUpdateView>,
)
    requires
        forall|j: int| 0 <= j < later.len() ==> later[j].item_address != item_address,
    ensures
        lookup(
            apply_updates(model, earlier + seq![ViewmodelUpdateView { item_address, serialized: payload }] + later),
            item_address,
        ) == Some(payload),
{
    let all = earlier + seq![ViewmodelUpdateView { item_address, serialized: payload }] + later;
    let i = earlier.len() as int;
    assert(all[i].item_address == item_address);
    assert forall|j: int| i < j < all.len() implies all[j].item_address != item_address by {
        assert(all[j] == later[j - i - 1]);
    }
    crate::api::law_read_returns_last_write(model, all, item_address, i);
}

} // verus!
