//! The engine as the bridge sees it: the windows it has realized, and for
//! each of them the operations that wait to be carried out.
//!
//! Nothing here touches a native window. An operation on a window is a
//! message put at the end of that window's outbox. The host, on the one
//! thread that may touch native windows, takes the messages out in the order
//! in which they were put in and carries them out. What the native side
//! reports (a call from a page, files dragged over a window, a window that
//! the user closed) the host hands back to the engine, which says which
//! hook is due.

use crate::config::Pixels;
use crate::error::Error;
use crate::runtime::{
    accepts,
    creates,
    deliver,
    drained,
    gone,
    is_live,
    labels_distinct,
    named,
    realize,
    sent,
    Dispatch,
    Operation,
    Runtime,
    WindowId,
    WindowState,
};
use crate::webview::{
    Attributes,
    CustomProtocol,
    FileDropEvent,
    FileDropHandler,
    Hook,
    Icon,
    RpcRequest,
    WebviewRpcHandler,
    WryIcon,
};
use crate::window::{DetachedWindow, PendingWindow};
use vstd::prelude::*;

verus! {

/// An operation that waits to be carried out on a window.
#[derive(Debug)]
pub enum WindowMessage {
    SetResizable(bool),
    SetTitle(String),
    Maximize,
    Unmaximize,
    Minimize,
    Unminimize,
    Show,
    Hide,
    Close,
    SetDecorations(bool),
    SetAlwaysOnTop(bool),
    SetWidth(Pixels),
    SetHeight(Pixels),
    Resize { width: Pixels, height: Pixels },
    SetMinSize { min_width: Pixels, min_height: Pixels },
    SetMaxSize { max_width: Pixels, max_height: Pixels },
    SetX(Pixels),
    SetY(Pixels),
    SetPosition { x: Pixels, y: Pixels },
    SetFullscreen(bool),
    SetIcon(WryIcon),
    EvaluationScript(String),
}

impl View for WindowMessage {
    type V = Operation;

    open spec fn view(&self) -> Operation {
        match *self {
            WindowMessage::SetResizable(resizable) => Operation::SetResizable(resizable),
            WindowMessage::SetTitle(title) => Operation::SetTitle(title@),
            WindowMessage::Maximize => Operation::Maximize,
            WindowMessage::Unmaximize => Operation::Unmaximize,
            WindowMessage::Minimize => Operation::Minimize,
            WindowMessage::Unminimize => Operation::Unminimize,
            WindowMessage::Show => Operation::Show,
            WindowMessage::Hide => Operation::Hide,
            WindowMessage::Close => Operation::Close,
            WindowMessage::SetDecorations(decorations) => Operation::SetDecorations(decorations),
            WindowMessage::SetAlwaysOnTop(always_on_top) => Operation::SetAlwaysOnTop(
                always_on_top,
            ),
            WindowMessage::SetWidth(width) => Operation::SetWidth(width),
            WindowMessage::SetHeight(height) => Operation::SetHeight(height),
            WindowMessage::Resize { width, height } => Operation::Resize { width, height },
            WindowMessage::SetMinSize { min_width, min_height } => Operation::SetMinSize {
                min_width,
                min_height,
            },
            WindowMessage::SetMaxSize { max_width, max_height } => Operation::SetMaxSize {
                max_width,
                max_height,
            },
            WindowMessage::SetX(x) => Operation::SetX(x),
            WindowMessage::SetY(y) => Operation::SetY(y),
            WindowMessage::SetPosition { x, y } => Operation::SetPosition { x, y },
            WindowMessage::SetFullscreen(fullscreen) => Operation::SetFullscreen(fullscreen),
            WindowMessage::SetIcon(icon) => Operation::SetIcon(icon.bytes()),
            WindowMessage::EvaluationScript(script) => Operation::EvaluationScript(script@),
        }
    }
}

/// The one failure that the engine knows for a custom protocol.
#[derive(Debug)]
pub enum WryError {
    InitScriptError,
}

/// A call from a page, in the shape in which the host's callback takes it.
#[derive(Debug)]
pub struct RpcCall {
    /// The callback to run.
    pub handler: WebviewRpcHandler,
    /// The window whose page made the call.
    pub window: DetachedWindow<WryDispatcher>,
    /// The call.
    pub request: RpcRequest,
}

/// News of dragged files, in the shape in which the host's callback takes it.
#[derive(Debug)]
pub struct FileDropCall {
    /// The callback to run.
    pub handler: FileDropHandler,
    /// What happened.
    pub event: FileDropEvent,
    /// The window over which it happened.
    pub window: DetachedWindow<WryDispatcher>,
}

/// An RPC callback of the host, bound to the window it serves.
#[derive(Debug)]
pub struct WindowRpcHandler {
    label: String,
    handler: WebviewRpcHandler,
}

impl WindowRpcHandler {
    /// The label of the window that the callback serves.
    pub closed spec fn label(&self) -> Seq<char> {
        self.label@
    }

    /// The callback.
    pub closed spec fn handler(&self) -> WebviewRpcHandler {
        self.handler
    }

    /// Puts what the engine reports, the window that was called from and
    /// the call, into the shape that the host's callback takes: the window
    /// under its label, with a handle on it.
    pub fn call(&self, window: WindowId, request: RpcRequest) -> (call: RpcCall)
        ensures
            call.handler == self.handler(),
            call.window.label@ == self.label(),
            call.window.dispatcher.window() == window,
            call.request == request,
    {
        RpcCall {
            handler: self.handler,
            window: DetachedWindow {
                dispatcher: WryDispatcher { window },
                label: self.label.clone(),
            },
            request,
        }
    }
}

/// A file-drop callback of the host, bound to the window it serves.
#[derive(Debug)]
pub struct WindowFileDropHandler {
    label: String,
    handler: FileDropHandler,
}

impl WindowFileDropHandler {
    /// The label of the window that the callback serves.
    pub closed spec fn label(&self) -> Seq<char> {
        self.label@
    }

    /// The callback.
    pub closed spec fn handler(&self) -> FileDropHandler {
        self.handler
    }

    /// Puts what the engine reports, what happened and over which window,
    /// into the shape that the host's callback takes: the window under its
    /// label, with a handle on it.
    pub fn call(&self, window: WindowId, event: FileDropEvent) -> (call: FileDropCall)
        ensures
            call.handler == self.handler(),
            call.event == event,
            call.window.label@ == self.label(),
            call.window.dispatcher.window() == window,
    {
        FileDropCall {
            handler: self.handler,
            event,
            window: DetachedWindow {
                dispatcher: WryDispatcher { window },
                label: self.label.clone(),
            },
        }
    }
}

/// A custom protocol in the shape that the engine takes.
#[derive(Debug)]
pub struct WryCustomProtocol {
    name: String,
    handler: Hook,
}

impl WryCustomProtocol {
    /// The URL scheme.
    pub closed spec fn name(&self) -> Seq<char> {
        self.name@
    }

    /// The callback that answers for the scheme.
    pub closed spec fn handler(&self) -> Hook {
        self.handler
    }

    /// The URL scheme.
    pub fn scheme(&self) -> (name: &String)
        ensures
            name@ == self.name(),
    {
        &self.name
    }

    /// The callback that answers for the scheme.
    pub fn hook(&self) -> (handler: Hook)
        ensures
            handler == self.handler(),
    {
        self.handler
    }

    /// Puts what the host's callback answered into the shape that the engine
    /// takes: the bytes as they are, and one and the same failure for
    /// whatever went wrong.
    pub fn respond(&self, outcome: Result<Vec<u8>, Error>) -> (answer: Result<Vec<u8>, WryError>)
        ensures
            match outcome {
                Ok(bytes) => answer == Ok::<Vec<u8>, WryError>(bytes),
                Err(_) => answer matches Err(WryError::InitScriptError),
            },
    {
        match outcome {
            Ok(bytes) => Ok(bytes),
            Err(_) => Err(WryError::InitScriptError),
        }
    }
}

/// Binds an RPC callback of the host to the window with the given label.
pub fn create_rpc_handler(label: String, handler: WebviewRpcHandler) -> (bound: WindowRpcHandler)
    ensures
        bound.label() == label@,
        bound.handler() == handler,
{
    WindowRpcHandler { label, handler }
}

/// Binds a file-drop callback of the host to the window with the given
/// label.
pub fn create_file_drop_handler(
    label: String,
    handler: FileDropHandler,
) -> (bound: WindowFileDropHandler)
    ensures
        bound.label() == label@,
        bound.handler() == handler,
{
    WindowFileDropHandler { label, handler }
}

/// Puts a custom protocol into the shape that the engine takes: a list of
/// one.
pub fn create_custom_protocol(custom_protocol: CustomProtocol) -> (protocols: Vec<
    WryCustomProtocol,
>)
    ensures
        protocols@.len() == 1,
        protocols@[0].name() == custom_protocol.name@,
        protocols@[0].handler() == custom_protocol.handler,
{
    let mut protocols: Vec<WryCustomProtocol> = Vec::new();
    protocols.push(
        WryCustomProtocol { name: custom_protocol.name, handler: custom_protocol.handler },
    );
    protocols
}

/// What the engine keeps of a window that it has realized.
#[derive(Debug)]
struct Webview {
    label: String,
    open: bool,
    outbox: Vec<WindowMessage>,
    attributes: Attributes,
    rpc_handler: Option<WindowRpcHandler>,
    file_drop_handler: Option<WindowFileDropHandler>,
    custom_protocols: Vec<WryCustomProtocol>,
}

impl Webview {
    spec fn state(self) -> WindowState {
        WindowState {
            label: self.label@,
            open: self.open,
            outbox: self.outbox@.map_values(|message: WindowMessage| message@),
            attributes: self.attributes,
            rpc_handler: match self.rpc_handler {
                Some(bound) => Some(bound.handler),
                None => None,
            },
            file_drop_handler: match self.file_drop_handler {
                Some(bound) => Some(bound.handler),
                None => None,
            },
            custom_protocol: if self.custom_protocols@.len() > 0 {
                Some((self.custom_protocols@[0].name@, self.custom_protocols@[0].handler))
            } else {
                None
            },
        }
    }

    spec fn bound(self) -> bool {
        &&& self.rpc_handler matches Some(handler) ==> handler.label@ == self.label@
        &&& self.file_drop_handler matches Some(handler) ==> handler.label@ == self.label@
    }
}

/// Where no window gets another label and no window that is gone comes
/// back, live windows that had labels of their own still have.
proof fn lemma_no_new_label(before: Seq<WindowState>, after: Seq<WindowState>)
    requires
        labels_distinct(before),
        after.len() == before.len(),
        forall|i: int|
            0 <= i < after.len() ==> (#[trigger] after[i]).label == before[i].label && (
            after[i].open ==> before[i].open),
    ensures
        labels_distinct(after),
{
    assert forall|a: int, b: int|
        0 <= a < after.len() && 0 <= b < after.len() && a != b && #[trigger] after[a].open
            && #[trigger] after[b].open implies after[a].label != after[b].label by {
        assert(before[a].open && before[b].open);
    }
}

/// The handle through which operations reach one window.
///
/// A copy of the handle is a second handle on the same window: what is sent
/// through either arrives in the one outbox, and a window closed through one
/// is closed for all.
#[derive(Clone, Copy, Debug, PartialEq, Eq, Structural)]
pub struct WryDispatcher {
    window: WindowId,
}

/// An engine instance.
#[derive(Debug)]
pub struct Wry {
    windows: Vec<Webview>,
}

impl View for Wry {
    type V = Seq<WindowState>;

    closed spec fn view(&self) -> Seq<WindowState> {
        self.windows@.map_values(|webview: Webview| webview.state())
    }
}

impl Wry {
    /// Whether the engine is in order: no two windows that are still there
    /// share a label.
    pub closed spec fn wf(&self) -> bool {
        &&& labels_distinct(self@)
        &&& forall|i: int| 0 <= i < self.windows@.len() ==> (#[trigger] self.windows@[i]).bound()
    }

    /// Whether some window that is still there goes by `label`.
    pub fn has_label(&self, label: &String) -> (found: bool)
        ensures
            found == is_live(self@, label@),
    {
        let mut i: usize = 0;
        while i < self.windows.len()
            invariant
                i <= self.windows@.len(),
                forall|k: int| 0 <= k < i ==> !((#[trigger] self@[k]).open && self@[k].label == label@),
            decreases self.windows@.len() - i,
        {
            if self.windows[i].open && self.windows[i].label == *label {
                assert(self@[i as int].open && self@[i as int].label == label@);
                return true;
            }
            i = i + 1;
        }
        false
    }

    /// Realizes a pending window.
    ///
    /// The window comes to be, with its hooks bound to it for good, or the
    /// call fails and nothing is left of the attempt. It fails exactly when
    /// a window that is still there goes by the same label, so that no two
    /// live windows ever share one.
    pub fn create_window(&mut self, pending: PendingWindow) -> (created: Result<
        DetachedWindow<WryDispatcher>,
        Error,
    >)
        requires
            old(self).wf(),
        ensures
            final(self).wf(),
            creates(old(self)@, final(self)@, pending, named(created)),
    {
        WryDispatcher::create_window(self, pending)
    }

    /// Puts a message at the end of the outbox of a window that takes
    /// operations, and fails for any other window.
    pub fn send(&mut self, window: WindowId, message: WindowMessage) -> (answer: Result<(), Error>)
        requires
            old(self).wf(),
        ensures
            final(self).wf(),
            sent(old(self)@, final(self)@, window, message@, answer),
    {
        let i = window.index;
        if i < self.windows.len() && self.windows[i].open {
            let closing = match message {
                WindowMessage::Close => true,
                _ => false,
            };
            self.windows[i].outbox.push(message);
            if closing {
                self.windows[i].open = false;
            }
            proof {
                assert(self.windows@[i as int].state().outbox =~= old(self)@[i as int].outbox.push(
                    message@,
                ));
                assert(self@ =~= deliver(old(self)@, window, message@));
                lemma_no_new_label(old(self)@, self@);
            }
            Ok(())
        } else {
            Err(Error::FailedToSendMessage)
        }
    }

    /// Takes out the operations that wait for a window, oldest first, for
    /// the host to carry them out in that order. For a window that the
    /// engine never realized there is nothing to take.
    pub fn take_messages(&mut self, window: WindowId) -> (messages: Vec<WindowMessage>)
        requires
            old(self).wf(),
        ensures
            final(self).wf(),
            window.index < old(self)@.len() ==> messages@.map_values(
                |message: WindowMessage| message@,
            ) == old(self)@[window.index as int].outbox && final(self)@ == drained(
                old(self)@,
                window,
            ),
            window.index >= old(self)@.len() ==> messages@.len() == 0 && final(self)@ == old(
                self,
            )@,
    {
        let i = window.index;
        if i < self.windows.len() {
            let mut messages: Vec<WindowMessage> = Vec::new();
            std::mem::swap(&mut messages, &mut self.windows[i].outbox);
            proof {
                assert(self.windows@[i as int].state().outbox =~= Seq::<Operation>::empty());
                assert(self@ =~= drained(old(self)@, window));
                lemma_no_new_label(old(self)@, self@);
            }
            messages
        } else {
            Vec::new()
        }
    }

    /// Records that a window went away on the native side. From then on the
    /// window takes no operation. What still waited for it stays in its
    /// outbox.
    pub fn window_closed(&mut self, window: WindowId)
        requires
            old(self).wf(),
        ensures
            final(self).wf(),
            window.index < old(self)@.len() ==> final(self)@ == gone(old(self)@, window),
            window.index >= old(self)@.len() ==> final(self)@ == old(self)@,
    {
        let i = window.index;
        if i < self.windows.len() {
            self.windows[i].open = false;
            proof {
                assert(self@ =~= gone(old(self)@, window));
                lemma_no_new_label(old(self)@, self@);
            }
        }
    }

    /// How many windows the engine has realized, those that are gone
    /// among them.
    pub fn window_count(&self) -> (count: usize)
        ensures
            count == self@.len(),
    {
        self.windows.len()
    }

    /// What a window was created with, for the host to realize it
    /// natively. There is nothing for a window that the engine never
    /// realized.
    pub fn attributes(&self, window: WindowId) -> (created_with: Option<&Attributes>)
        ensures
            match created_with {
                Some(attributes) => window.index < self@.len() && *attributes
                    == self@[window.index as int].attributes,
                None => window.index >= self@.len(),
            },
    {
        if window.index < self.windows.len() {
            Some(&self.windows[window.index].attributes)
        } else {
            None
        }
    }

    /// The URL scheme that a window serves itself, and who answers for it.
    pub fn custom_protocol(&self, window: WindowId) -> (served: Option<&WryCustomProtocol>)
        ensures
            match served {
                Some(protocol) => window.index < self@.len() && self@[window.index as int].custom_protocol
                    == Some((protocol.name(), protocol.handler())),
                None => window.index >= self@.len() || self@[window.index as int].custom_protocol
                    is None,
            },
    {
        if window.index < self.windows.len() && self.windows[window.index].custom_protocols.len()
            > 0 {
            Some(&self.windows[window.index].custom_protocols[0])
        } else {
            None
        }
    }

    /// Whether a window takes operations.
    pub fn is_open(&self, window: WindowId) -> (open: bool)
        ensures
            open == accepts(self@, window),
    {
        window.index < self.windows.len() && self.windows[window.index].open
    }

    /// Says which callback is due for a call that the page of a window
    /// made, and with what. Nothing is due where the window is gone or was
    /// created without such a callback.
    pub fn on_rpc(&self, window: WindowId, request: RpcRequest) -> (due: Option<RpcCall>)
        requires
            self.wf(),
        ensures
            match due {
                Some(call) => accepts(self@, window) && self@[window.index as int].rpc_handler
                    == Some(call.handler) && call.window.label@ == self@[window.index as int].label
                    && call.window.dispatcher.window() == window && call.request == request,
                None => !accepts(self@, window) || self@[window.index as int].rpc_handler is None,
            },
    {
        if !self.is_open(window) {
            return None;
        }
        assert(self.windows@[window.index as int].bound());
        match &self.windows[window.index].rpc_handler {
            Some(bound) => Some(bound.call(window, request)),
            None => None,
        }
    }

    /// Says which callback is due for what happened to files dragged over a
    /// window, and with what. Nothing is due where the window is gone or was
    /// created without such a callback.
    pub fn on_file_drop(&self, window: WindowId, event: FileDropEvent) -> (due: Option<
        FileDropCall,
    >)
        requires
            self.wf(),
        ensures
            match due {
                Some(call) => accepts(self@, window) && self@[window.index as int].file_drop_handler
                    == Some(call.handler) && call.window.label@ == self@[window.index as int].label
                    && call.window.dispatcher.window() == window && call.event == event,
                None => !accepts(self@, window) || self@[window.index as int].file_drop_handler
                    is None,
            },
    {
        if !self.is_open(window) {
            return None;
        }
        assert(self.windows@[window.index as int].bound());
        match &self.windows[window.index].file_drop_handler {
            Some(bound) => Some(bound.call(window, event)),
            None => None,
        }
    }

    /// Says which callback answers a request that a window made to a URL
    /// scheme. None does where the window is gone or does not serve that
    /// scheme itself.
    pub fn on_custom_protocol(&self, window: WindowId, scheme: &String) -> (due: Option<Hook>)
        ensures
            due == (if accepts(self@, window) {
                match self@[window.index as int].custom_protocol {
                    Some((name, handler)) => if name == scheme@ {
                        Some(handler)
                    } else {
                        None
                    },
                    None => None,
                }
            } else {
                None
            }),
    {
        if !self.is_open(window) {
            return None;
        }
        let protocols = &self.windows[window.index].custom_protocols;
        if protocols.len() > 0 && protocols[0].name == *scheme {
            Some(protocols[0].handler)
        } else {
            None
        }
    }
}

impl Runtime for Wry {
    open spec fn windows(&self) -> Seq<WindowState> {
        self@
    }

    open spec fn in_order(&self) -> bool {
        self.wf()
    }

    proof fn lemma_labels_distinct(&self) {
    }

    /// An engine with no window. This engine always comes up.
    fn new() -> (engine: Result<Wry, Error>)
        ensures
            engine is Ok,
    {
        let wry = Wry { windows: Vec::new() };
        assert(wry@ =~= Seq::<WindowState>::empty());
        Ok(wry)
    }
}

impl Dispatch for WryDispatcher {
    type Runtime = Wry;

    type Icon = WryIcon;

    closed spec fn window(&self) -> WindowId {
        self.window
    }

    open spec fn icon_bytes(icon: WryIcon) -> Seq<u8> {
        icon.bytes()
    }

    /// This engine decodes bytes and nothing else.
    open spec fn decoded(icon: Icon) -> Option<Seq<u8>> {
        match icon {
            Icon::Raw(raw) => Some(raw@),
            Icon::File(_) => None,
        }
    }

    fn id(&self) -> (window: WindowId) {
        self.window
    }

    /// An icon that is still a file on disk is refused with its path as
    /// the reason.
    fn try_icon(icon: Icon) -> (converted: Result<WryIcon, Error>)
        ensures
            icon matches Icon::File(path) ==> (converted matches Err(Error::InvalidIcon(reason))
                && reason@ == path@),
    {
        WryIcon::try_from(icon)
    }

    /// Realizes a pending window on the engine. It fails exactly when a
    /// window that is still there goes by the same label.
    fn create_window(runtime: &mut Wry, pending: PendingWindow) -> (created: Result<
        DetachedWindow<WryDispatcher>,
        Error,
    >)
    {
        if runtime.has_label(&pending.label) {
            return Err(Error::CreateWindow);
        }
        let PendingWindow { attributes, rpc_handler, custom_protocol, file_drop_handler, label, url: _ } =
            pending;
        let rpc_handler = match rpc_handler {
            Some(handler) => Some(create_rpc_handler(label.clone(), handler)),
            None => None,
        };
        let file_drop_handler = match file_drop_handler {
            Some(handler) => Some(create_file_drop_handler(label.clone(), handler)),
            None => None,
        };
        let custom_protocols = match custom_protocol {
            Some(protocol) => create_custom_protocol(protocol),
            None => Vec::new(),
        };
        let window = WindowId { index: runtime.windows.len() };
        let webview = Webview {
            label: label.clone(),
            open: true,
            outbox: Vec::new(),
            attributes,
            rpc_handler,
            file_drop_handler,
            custom_protocols,
        };
        proof {
            assert(webview.state().outbox =~= Seq::<Operation>::empty());
            assert(webview.state() == realize(old(runtime)@, pending).last());
        }
        runtime.windows.push(webview);
        proof {
            assert(runtime@ =~= realize(old(runtime)@, pending));
            assert forall|i: int, j: int|
                0 <= i < runtime@.len() && 0 <= j < runtime@.len() && i != j && #[trigger] runtime@[i].open
                    && #[trigger] runtime@[j].open implies runtime@[i].label != runtime@[j].label by {
                if i < old(runtime)@.len() && j < old(runtime)@.len() {
                    assert(old(runtime)@[i].open && old(runtime)@[j].open);
                } else if i < old(runtime)@.len() {
                    assert(old(runtime)@[i].open);
                } else {
                    assert(old(runtime)@[j].open);
                }
            }
        }
        Ok(DetachedWindow { label, dispatcher: WryDispatcher { window } })
    }

    fn set_resizable(&self, runtime: &mut Wry, resizable: bool) -> (answer: Result<(), Error>) {
        runtime.send(self.window, WindowMessage::SetResizable(resizable))
    }

    fn set_title(&self, runtime: &mut Wry, title: String) -> (answer: Result<(), Error>) {
        runtime.send(self.window, WindowMessage::SetTitle(title))
    }

    fn maximize(&self, runtime: &mut Wry) -> (answer: Result<(), Error>) {
        runtime.send(self.window, WindowMessage::Maximize)
    }

    fn unmaximize(&self, runtime: &mut Wry) -> (answer: Result<(), Error>) {
        runtime.send(self.window, WindowMessage::Unmaximize)
    }

    fn minimize(&self, runtime: &mut Wry) -> (answer: Result<(), Error>) {
        runtime.send(self.window, WindowMessage::Minimize)
    }

    fn unminimize(&self, runtime: &mut Wry) -> (answer: Result<(), Error>) {
        runtime.send(self.window, WindowMessage::Unminimize)
    }

    fn show(&self, runtime: &mut Wry) -> (answer: Result<(), Error>) {
        runtime.send(self.window, WindowMessage::Show)
    }

    fn hide_window(&self, runtime: &mut Wry) -> (answer: Result<(), Error>) {
        runtime.send(self.window, WindowMessage::Hide)
    }

    fn close(&self, runtime: &mut Wry) -> (answer: Result<(), Error>) {
        runtime.send(self.window, WindowMessage::Close)
    }

    fn set_decorations(&self, runtime: &mut Wry, decorations: bool) -> (answer: Result<(), Error>) {
        runtime.send(self.window, WindowMessage::SetDecorations(decorations))
    }

    fn set_always_on_top(
        &self,
        runtime: &mut Wry,
        always_on_top: bool,
    ) -> (answer: Result<(), Error>) {
        runtime.send(self.window, WindowMessage::SetAlwaysOnTop(always_on_top))
    }

    fn set_width(&self, runtime: &mut Wry, width: Pixels) -> (answer: Result<(), Error>) {
        runtime.send(self.window, WindowMessage::SetWidth(width))
    }

    fn set_height(&self, runtime: &mut Wry, height: Pixels) -> (answer: Result<(), Error>) {
        runtime.send(self.window, WindowMessage::SetHeight(height))
    }

    fn resize(
        &self,
        runtime: &mut Wry,
        width: Pixels,
        height: Pixels,
    ) -> (answer: Result<(), Error>) {
        runtime.send(self.window, WindowMessage::Resize { width, height })
    }

    fn set_min_size(
        &self,
        runtime: &mut Wry,
        min_width: Pixels,
        min_height: Pixels,
    ) -> (answer: Result<(), Error>) {
        runtime.send(self.window, WindowMessage::SetMinSize { min_width, min_height })
    }

    fn set_max_size(
        &self,
        runtime: &mut Wry,
        max_width: Pixels,
        max_height: Pixels,
    ) -> (answer: Result<(), Error>) {
        runtime.send(self.window, WindowMessage::SetMaxSize { max_width, max_height })
    }

    fn set_x(&self, runtime: &mut Wry, x: Pixels) -> (answer: Result<(), Error>) {
        runtime.send(self.window, WindowMessage::SetX(x))
    }

    fn set_y(&self, runtime: &mut Wry, y: Pixels) -> (answer: Result<(), Error>) {
        runtime.send(self.window, WindowMessage::SetY(y))
    }

    fn set_position(&self, runtime: &mut Wry, x: Pixels, y: Pixels) -> (answer: Result<(), Error>) {
        runtime.send(self.window, WindowMessage::SetPosition { x, y })
    }

    fn set_fullscreen(&self, runtime: &mut Wry, fullscreen: bool) -> (answer: Result<(), Error>) {
        runtime.send(self.window, WindowMessage::SetFullscreen(fullscreen))
    }

    fn set_icon(&self, runtime: &mut Wry, icon: WryIcon) -> (answer: Result<(), Error>) {
        runtime.send(self.window, WindowMessage::SetIcon(icon))
    }

    fn eval_script(&self, runtime: &mut Wry, script: String) -> (answer: Result<(), Error>) {
        runtime.send(self.window, WindowMessage::EvaluationScript(script))
    }
}

} // verus!
