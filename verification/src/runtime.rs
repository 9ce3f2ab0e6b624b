//! What the bridge asks of a windowing engine.
//!
//! An engine has two roles. The engine instance holds the windows that it
//! has realized. A dispatcher is a handle on one of these windows, through
//! which operations reach it. Whatever native machinery stands behind an
//! engine, the bridge sees the same thing of it: for each window a label,
//! whether the window is still there, and the operations that were sent to
//! it, in the order in which they were sent. The contracts below are stated
//! over that, so that what is proved of the bridge holds on every engine
//! that keeps them.

use crate::config::Pixels;
use crate::error::Error;
use crate::webview::{Attributes, FileDropHandler, Hook, Icon, WebviewRpcHandler};
use crate::window::{DetachedWindow, PendingWindow};
use vstd::prelude::*;

verus! {

/// Names one window of an engine. An engine never gives the same name twice.
#[derive(Clone, Copy, Debug, PartialEq, Eq, Structural)]
pub struct WindowId {
    pub index: usize,
}

/// An operation on a window, with text as characters and an icon as bytes.
pub enum Operation {
    SetResizable(bool),
    SetTitle(Seq<char>),
    Maximize,
    Unmaximize,
    Minimize,
    Unminimize,
    Show,
    Hide,
    Close,
    SetDecorations(bool),
    SetAlwaysOnTop(bool),
    SetWidth(Pixels),
    SetHeight(Pixels),
    Resize { width: Pixels, height: Pixels },
    SetMinSize { min_width: Pixels, min_height: Pixels },
    SetMaxSize { max_width: Pixels, max_height: Pixels },
    SetX(Pixels),
    SetY(Pixels),
    SetPosition { x: Pixels, y: Pixels },
    SetFullscreen(bool),
    SetIcon(Seq<u8>),
    EvaluationScript(Seq<char>),
}

/// What the engine holds of one window.
pub struct WindowState {
    /// The label that the window was created with.
    pub label: Seq<char>,
    /// Whether the window is still there. A window that is gone never comes
    /// back.
    pub open: bool,
    /// The operations that wait to be carried out, oldest first.
    pub outbox: Seq<Operation>,
    /// What the window was created with.
    pub attributes: Attributes,
    /// Who receives the calls that the page makes.
    pub rpc_handler: Option<WebviewRpcHandler>,
    /// Who receives what happens to files dragged over the window.
    pub file_drop_handler: Option<FileDropHandler>,
    /// The URL scheme that the host serves itself, and who answers for it.
    pub custom_protocol: Option<(Seq<char>, Hook)>,
}

/// Whether a window of an engine in state `state` takes operations: the
/// engine has realized it and it is not gone.
pub open spec fn accepts(state: Seq<WindowState>, window: WindowId) -> bool {
    window.index < state.len() && state[window.index as int].open
}

/// Whether some window that is still there goes by `label`.
pub open spec fn is_live(state: Seq<WindowState>, label: Seq<char>) -> bool {
    exists|i: int| 0 <= i < state.len() && #[trigger] state[i].open && state[i].label == label
}

/// Whether no two windows that are still there share a label.
pub open spec fn labels_distinct(state: Seq<WindowState>) -> bool {
    forall|i: int, j: int|
        0 <= i < state.len() && 0 <= j < state.len() && i != j && #[trigger] state[i].open
            && #[trigger] state[j].open ==> state[i].label != state[j].label
}

/// The engine's state after `operation` was put at the end of the outbox of
/// `window`. Closing is the last operation that a window takes.
pub open spec fn deliver(state: Seq<WindowState>, window: WindowId, operation: Operation) -> Seq<
    WindowState,
> {
    let before = state[window.index as int];
    state.update(
        window.index as int,
        WindowState {
            outbox: before.outbox.push(operation),
            open: !(operation is Close),
            ..before
        },
    )
}

/// What sending `operation` to `window` does to an engine and what it
/// answers: a window that takes operations gets it at the end of its outbox;
/// for any other window the send fails and nothing changes.
pub open spec fn sent(
    before: Seq<WindowState>,
    after: Seq<WindowState>,
    window: WindowId,
    operation: Operation,
    answer: Result<(), Error>,
) -> bool {
    if accepts(before, window) {
        answer == Ok::<(), Error>(()) && after == deliver(before, window, operation)
    } else {
        answer == Err::<(), Error>(Error::FailedToSendMessage) && after == before
    }
}

/// The engine's state after it realized a pending window.
pub open spec fn realize(state: Seq<WindowState>, pending: PendingWindow) -> Seq<WindowState> {
    state.push(
        WindowState {
            label: pending.label@,
            open: true,
            outbox: Seq::empty(),
            attributes: pending.attributes,
            rpc_handler: pending.rpc_handler,
            file_drop_handler: pending.file_drop_handler,
            custom_protocol: match pending.custom_protocol {
                Some(protocol) => Some((protocol.name@, protocol.handler)),
                None => None,
            },
        },
    )
}

/// What creating a window does to an engine and what it answers. Where a
/// window that is still there goes by the label of the pending one, the
/// call fails and nothing changes. Otherwise the pending window is
/// realized, and the answer is a window under that label, named as the
/// engine names its newest window.
pub open spec fn creates(
    before: Seq<WindowState>,
    after: Seq<WindowState>,
    pending: PendingWindow,
    answer: Result<(String, WindowId), Error>,
) -> bool {
    if is_live(before, pending.label@) {
        &&& answer matches Err(Error::CreateWindow)
        &&& after == before
    } else {
        &&& answer matches Ok(window)
        &&& window.0 == pending.label
        &&& window.1.index == before.len()
        &&& after == realize(before, pending)
    }
}

/// The engine's state after the operations that waited for `window` were
/// taken out.
pub open spec fn drained(state: Seq<WindowState>, window: WindowId) -> Seq<WindowState> {
    state.update(
        window.index as int,
        WindowState { outbox: Seq::empty(), ..state[window.index as int] },
    )
}

/// The engine's state after `window` went away on the native side.
pub open spec fn gone(state: Seq<WindowState>, window: WindowId) -> Seq<WindowState> {
    state.update(window.index as int, WindowState { open: false, ..state[window.index as int] })
}

/// An engine instance.
pub trait Runtime: Sized {
    /// What the engine holds of each window that it has realized, in the
    /// order in which it realized them.
    spec fn windows(&self) -> Seq<WindowState>;

    /// Whether the engine is in order.
    spec fn in_order(&self) -> bool;

    /// An engine that is in order never has two windows that are still
    /// there under one label.
    proof fn lemma_labels_distinct(&self)
        requires
            self.in_order(),
        ensures
            labels_distinct(self.windows()),
    ;

    /// Brings the engine up, with no window yet.
    fn new() -> (engine: Result<Self, Error>)
        ensures
            match engine {
                Ok(started) => started.in_order() && started.windows() == Seq::<
                    WindowState,
                >::empty(),
                Err(failure) => failure is CreateWebview,
            },
    ;
}

/// A handle on one window of an engine.
///
/// A copy of a handle is a second handle on the same window, not a second
/// window. Every operation answers as soon as it is queued. An engine
/// carries out what was sent to one window in the order in which it was
/// sent; between windows there is no order. Whatever goes wrong on the way
/// to a window comes back as the one failure `FailedToSendMessage`.
pub trait Dispatch: Sized + Copy {
    /// The engine that the window lives in.
    type Runtime: Runtime;

    /// An icon in the form that the engine takes.
    type Icon;

    /// The window that the handle is on.
    spec fn window(&self) -> WindowId;

    /// The bytes of an engine's icon.
    spec fn icon_bytes(icon: Self::Icon) -> Seq<u8>;

    /// The bytes that the engine makes of an icon, where it can decode it.
    spec fn decoded(icon: Icon) -> Option<Seq<u8>>;

    /// The window that the handle is on.
    fn id(&self) -> (window: WindowId)
        ensures
            window == self.window(),
    ;

    /// Turns an icon into the engine's form. An icon that the engine
    /// cannot decode is refused as invalid.
    fn try_icon(icon: Icon) -> (converted: Result<Self::Icon, Error>)
        ensures
            match Self::decoded(icon) {
                Some(bytes) => converted matches Ok(engine_icon) && Self::icon_bytes(engine_icon)
                    == bytes,
                None => converted matches Err(Error::InvalidIcon(_)),
            },
    ;

    /// Realizes a pending window on an engine.
    ///
    /// The window comes to be, with its hooks bound to it for good, or the
    /// call fails and nothing is left of the attempt. It fails where a
    /// window that is still there goes by the same label.
    fn create_window(runtime: &mut Self::Runtime, pending: PendingWindow) -> (created: Result<
        DetachedWindow<Self>,
        Error,
    >)
        requires
            old(runtime).in_order(),
        ensures
            final(runtime).in_order(),
            creates(
                old(runtime).windows(),
                final(runtime).windows(),
                pending,
                match created {
                    Ok(window) => Ok((window.label, window.dispatcher.window())),
                    Err(failure) => Err(failure),
                },
            ),
    ;

    /// Says whether the user can resize the window.
    fn set_resizable(
        &self,
        runtime: &mut Self::Runtime,
        resizable: bool,
    ) -> (answer: Result<(), Error>)
        requires
            old(runtime).in_order(),
        ensures
            final(runtime).in_order(),
            sent(
                old(runtime).windows(),
                final(runtime).windows(),
                self.window(),
                Operation::SetResizable(resizable),
                answer,
            ),
    ;

    /// Sets the title of the window.
    fn set_title(&self, runtime: &mut Self::Runtime, title: String) -> (answer: Result<(), Error>)
        requires
            old(runtime).in_order(),
        ensures
            final(runtime).in_order(),
            sent(
                old(runtime).windows(),
                final(runtime).windows(),
                self.window(),
                Operation::SetTitle(title@),
                answer,
            ),
    ;

    /// Maximizes the window.
    fn maximize(&self, runtime: &mut Self::Runtime) -> (answer: Result<(), Error>)
        requires
            old(runtime).in_order(),
        ensures
            final(runtime).in_order(),
            sent(
                old(runtime).windows(),
                final(runtime).windows(),
                self.window(),
                Operation::Maximize,
                answer,
            ),
    ;

    /// Takes the window back from maximized.
    fn unmaximize(&self, runtime: &mut Self::Runtime) -> (answer: Result<(), Error>)
        requires
            old(runtime).in_order(),
        ensures
            final(runtime).in_order(),
            sent(
                old(runtime).windows(),
                final(runtime).windows(),
                self.window(),
                Operation::Unmaximize,
                answer,
            ),
    ;

    /// Minimizes the window.
    fn minimize(&self, runtime: &mut Self::Runtime) -> (answer: Result<(), Error>)
        requires
            old(runtime).in_order(),
        ensures
            final(runtime).in_order(),
            sent(
                old(runtime).windows(),
                final(runtime).windows(),
                self.window(),
                Operation::Minimize,
                answer,
            ),
    ;

    /// Takes the window back from minimized.
    fn unminimize(&self, runtime: &mut Self::Runtime) -> (answer: Result<(), Error>)
        requires
            old(runtime).in_order(),
        ensures
            final(runtime).in_order(),
            sent(
                old(runtime).windows(),
                final(runtime).windows(),
                self.window(),
                Operation::Unminimize,
                answer,
            ),
    ;

    /// Shows the window.
    fn show(&self, runtime: &mut Self::Runtime) -> (answer: Result<(), Error>)
        requires
            old(runtime).in_order(),
        ensures
            final(runtime).in_order(),
            sent(
                old(runtime).windows(),
                final(runtime).windows(),
                self.window(),
                Operation::Show,
                answer,
            ),
    ;

    /// Hides the window.
    fn hide_window(&self, runtime: &mut Self::Runtime) -> (answer: Result<(), Error>)
        requires
            old(runtime).in_order(),
        ensures
            final(runtime).in_order(),
            sent(
                old(runtime).windows(),
                final(runtime).windows(),
                self.window(),
                Operation::Hide,
                answer,
            ),
    ;

    /// Closes the window. It is the last operation that the window takes,
    /// through this handle or any other.
    fn close(&self, runtime: &mut Self::Runtime) -> (answer: Result<(), Error>)
        requires
            old(runtime).in_order(),
        ensures
            final(runtime).in_order(),
            sent(
                old(runtime).windows(),
                final(runtime).windows(),
                self.window(),
                Operation::Close,
                answer,
            ),
    ;

    /// Says whether the window has borders and bars.
    fn set_decorations(
        &self,
        runtime: &mut Self::Runtime,
        decorations: bool,
    ) -> (answer: Result<(), Error>)
        requires
            old(runtime).in_order(),
        ensures
            final(runtime).in_order(),
            sent(
                old(runtime).windows(),
                final(runtime).windows(),
                self.window(),
                Operation::SetDecorations(decorations),
                answer,
            ),
    ;

    /// Says whether the window stays above all others.
    fn set_always_on_top(
        &self,
        runtime: &mut Self::Runtime,
        always_on_top: bool,
    ) -> (answer: Result<(), Error>)
        requires
            old(runtime).in_order(),
        ensures
            final(runtime).in_order(),
            sent(
                old(runtime).windows(),
                final(runtime).windows(),
                self.window(),
                Operation::SetAlwaysOnTop(always_on_top),
                answer,
            ),
    ;

    /// Sets the width of the window.
    fn set_width(&self, runtime: &mut Self::Runtime, width: Pixels) -> (answer: Result<(), Error>)
        requires
            old(runtime).in_order(),
        ensures
            final(runtime).in_order(),
            sent(
                old(runtime).windows(),
                final(runtime).windows(),
                self.window(),
                Operation::SetWidth(width),
                answer,
            ),
    ;

    /// Sets the height of the window.
    fn set_height(&self, runtime: &mut Self::Runtime, height: Pixels) -> (answer: Result<(), Error>)
        requires
            old(runtime).in_order(),
        ensures
            final(runtime).in_order(),
            sent(
                old(runtime).windows(),
                final(runtime).windows(),
                self.window(),
                Operation::SetHeight(height),
                answer,
            ),
    ;

    /// Sets the width and the height of the window.
    fn resize(
        &self,
        runtime: &mut Self::Runtime,
        width: Pixels,
        height: Pixels,
    ) -> (answer: Result<(), Error>)
        requires
            old(runtime).in_order(),
        ensures
            final(runtime).in_order(),
            sent(
                old(runtime).windows(),
                final(runtime).windows(),
                self.window(),
                Operation::Resize { width, height },
                answer,
            ),
    ;

    /// Sets the least size of the window.
    fn set_min_size(
        &self,
        runtime: &mut Self::Runtime,
        min_width: Pixels,
        min_height: Pixels,
    ) -> (answer: Result<(), Error>)
        requires
            old(runtime).in_order(),
        ensures
            final(runtime).in_order(),
            sent(
                old(runtime).windows(),
                final(runtime).windows(),
                self.window(),
                Operation::SetMinSize { min_width, min_height },
                answer,
            ),
    ;

    /// Sets the greatest size of the window.
    fn set_max_size(
        &self,
        runtime: &mut Self::Runtime,
        max_width: Pixels,
        max_height: Pixels,
    ) -> (answer: Result<(), Error>)
        requires
            old(runtime).in_order(),
        ensures
            final(runtime).in_order(),
            sent(
                old(runtime).windows(),
                final(runtime).windows(),
                self.window(),
                Operation::SetMaxSize { max_width, max_height },
                answer,
            ),
    ;

    /// Places the left edge of the window.
    fn set_x(&self, runtime: &mut Self::Runtime, x: Pixels) -> (answer: Result<(), Error>)
        requires
            old(runtime).in_order(),
        ensures
            final(runtime).in_order(),
            sent(
                old(runtime).windows(),
                final(runtime).windows(),
                self.window(),
                Operation::SetX(x),
                answer,
            ),
    ;

    /// Places the top edge of the window.
    fn set_y(&self, runtime: &mut Self::Runtime, y: Pixels) -> (answer: Result<(), Error>)
        requires
            old(runtime).in_order(),
        ensures
            final(runtime).in_order(),
            sent(
                old(runtime).windows(),
                final(runtime).windows(),
                self.window(),
                Operation::SetY(y),
                answer,
            ),
    ;

    /// Places the window.
    fn set_position(
        &self,
        runtime: &mut Self::Runtime,
        x: Pixels,
        y: Pixels,
    ) -> (answer: Result<(), Error>)
        requires
            old(runtime).in_order(),
        ensures
            final(runtime).in_order(),
            sent(
                old(runtime).windows(),
                final(runtime).windows(),
                self.window(),
                Operation::SetPosition { x, y },
                answer,
            ),
    ;

    /// Puts the window into fullscreen, or takes it out.
    fn set_fullscreen(
        &self,
        runtime: &mut Self::Runtime,
        fullscreen: bool,
    ) -> (answer: Result<(), Error>)
        requires
            old(runtime).in_order(),
        ensures
            final(runtime).in_order(),
            sent(
                old(runtime).windows(),
                final(runtime).windows(),
                self.window(),
                Operation::SetFullscreen(fullscreen),
                answer,
            ),
    ;

    /// Sets the icon of the window.
    fn set_icon(&self, runtime: &mut Self::Runtime, icon: Self::Icon) -> (answer: Result<(), Error>)
        requires
            old(runtime).in_order(),
        ensures
            final(runtime).in_order(),
            sent(
                old(runtime).windows(),
                final(runtime).windows(),
                self.window(),
                Operation::SetIcon(Self::icon_bytes(icon)),
                answer,
            ),
    ;

    /// Queues a script for the page of the window. The call returns once the
    /// script is queued, not once it has run; scripts run in the order in
    /// which they were queued.
    fn eval_script(
        &self,
        runtime: &mut Self::Runtime,
        script: String,
    ) -> (answer: Result<(), Error>)
        requires
            old(runtime).in_order(),
        ensures
            final(runtime).in_order(),
            sent(
                old(runtime).windows(),
                final(runtime).windows(),
                self.window(),
                Operation::EvaluationScript(script@),
                answer,
            ),
    ;
}

/// A detached window, or the failure to create one, as its label and the
/// name that its engine gave it.
pub open spec fn named<D: Dispatch>(created: Result<DetachedWindow<D>, Error>) -> Result<
    (String, WindowId),
    Error,
> {
    match created {
        Ok(window) => Ok((window.label, window.dispatcher.window())),
        Err(failure) => Err(failure),
    }
}

/// The engine's state after `operations` were sent to `window`, one after
/// the other.
pub open spec fn deliver_each(
    state: Seq<WindowState>,
    window: WindowId,
    operations: Seq<Operation>,
) -> Seq<WindowState>
    decreases operations.len(),
{
    if operations.len() == 0 {
        state
    } else {
        deliver(deliver_each(state, window, operations.drop_last()), window, operations.last())
    }
}

/// The operations that were sent to one
/// window stand in its outbox in the order in which they were sent, behind
/// what waited there before. This holds of any run of operations of which
/// none but the last closes the window.
pub proof fn lemma_order_preserved(
    state: Seq<WindowState>,
    window: WindowId,
    operations: Seq<Operation>,
)
    requires
        accepts(state, window),
        forall|i: int| 0 <= i < operations.len() - 1 ==> !(#[trigger] operations[i] is Close),
    ensures
        deliver_each(state, window, operations).len() == state.len(),
        deliver_each(state, window, operations)[window.index as int].outbox
            == state[window.index as int].outbox + operations,
        operations.len() > 0 ==> accepts(deliver_each(state, window, operations), window) == !(
        operations.last() is Close),
        forall|other: int|
            0 <= other < state.len() && other != window.index ==> deliver_each(
                state,
                window,
                operations,
            )[other] == state[other],
    decreases operations.len(),
{
    if operations.len() == 0 {
        assert(state[window.index as int].outbox + operations =~= state[window.index as int].outbox);
    } else {
        let earlier = operations.drop_last();
        assert forall|i: int| 0 <= i < earlier.len() - 1 implies !(#[trigger] earlier[i] is Close) by {
            assert(earlier[i] == operations[i]);
        }
        lemma_order_preserved(state, window, earlier);
        if earlier.len() > 0 {
            assert(earlier.last() == operations[operations.len() - 2]);
        }
        assert(state[window.index as int].outbox + operations =~= (state[window.index as int].outbox
            + earlier).push(operations.last()));
    }
}

/// A host that takes the outbox of a window out gets the operations
/// oldest first, and leaves nothing behind for that window.
pub proof fn lemma_drained_in_order(
    state: Seq<WindowState>,
    window: WindowId,
    operations: Seq<Operation>,
)
    requires
        accepts(state, window),
        state[window.index as int].outbox.len() == 0,
        forall|i: int| 0 <= i < operations.len() - 1 ==> !(#[trigger] operations[i] is Close),
    ensures
        deliver_each(state, window, operations)[window.index as int].outbox == operations,
        drained(deliver_each(state, window, operations), window)[window.index as int].outbox.len()
            == 0,
{
    lemma_order_preserved(state, window, operations);
    assert(state[window.index as int].outbox + operations =~= operations);
}

/// What is sent to one window leaves every other window as it was.
pub proof fn lemma_other_windows_untouched(
    state: Seq<WindowState>,
    window: WindowId,
    operation: Operation,
    other: WindowId,
)
    requires
        accepts(state, window),
        other.index < state.len(),
        other != window,
    ensures
        deliver(state, window, operation)[other.index as int] == state[other.index as int],
{
}

/// A window that was closed takes no operation any more, through whichever
/// handle: a send after the close fails and changes nothing.
pub proof fn lemma_closed_is_final(
    state: Seq<WindowState>,
    window: WindowId,
    later: Operation,
    after: Seq<WindowState>,
    answer: Result<(), Error>,
)
    requires
        accepts(state, window),
        sent(deliver(state, window, Operation::Close), after, window, later, answer),
    ensures
        answer matches Err(Error::FailedToSendMessage),
        after == deliver(state, window, Operation::Close),
{
}

/// Closing a window, or a window going away, never makes two live windows
/// share a label; nor does any other operation.
pub proof fn lemma_deliver_keeps_labels_distinct(
    state: Seq<WindowState>,
    window: WindowId,
    operation: Operation,
)
    requires
        labels_distinct(state),
        accepts(state, window),
    ensures
        labels_distinct(deliver(state, window, operation)),
{
    let after = deliver(state, window, operation);
    assert forall|i: int, j: int|
        0 <= i < after.len() && 0 <= j < after.len() && i != j && #[trigger] after[i].open
            && #[trigger] after[j].open implies after[i].label != after[j].label by {
        assert(state[i].open && state[j].open);
    }
}

/// Creating a window never makes two live windows share
/// a label. Where the label is taken by a window that is still there, the
/// creation fails and the engine is as it was; where it is free, the new
/// window is the only live one that goes by it.
pub proof fn lemma_create_keeps_labels_distinct(
    before: Seq<WindowState>,
    after: Seq<WindowState>,
    pending: PendingWindow,
    answer: Result<(String, WindowId), Error>,
)
    requires
        labels_distinct(before),
        creates(before, after, pending, answer),
    ensures
        labels_distinct(after),
        answer is Err <==> is_live(before, pending.label@),
        answer is Err ==> after == before,
        answer is Ok ==> is_live(after, pending.label@),
{
    if !is_live(before, pending.label@) {
        assert forall|i: int, j: int|
            0 <= i < after.len() && 0 <= j < after.len() && i != j && #[trigger] after[i].open
                && #[trigger] after[j].open implies after[i].label != after[j].label by {
            if i < before.len() && j < before.len() {
                assert(before[i].open && before[j].open);
            } else if i < before.len() {
                assert(before[i].open);
            } else {
                assert(before[j].open);
            }
        }
        assert(after[before.len() as int].open);
    }
}

} // verus!
