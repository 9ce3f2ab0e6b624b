//! A window before an engine has realized it, and after.

use crate::config::{Pixels, WindowConfig, WindowUrl};
use crate::error::Error;
use crate::event::{fired, kept, Event, EventHandler, Listener};
use crate::hooks::{page_address, page_url, InvokeMessage, InvokePayload, Route};
use crate::manager::{
    all_targets,
    command_routed,
    others,
    page_load_routed,
    pushed,
    ManagerState,
    WindowManager,
};
use crate::text::str_eq;
use crate::webview::{Attributes, CustomProtocol, FileDropHandler, Icon, WebviewRpcHandler};
use crate::runtime::{sent, Dispatch, Operation, Runtime};
use vstd::prelude::*;

verus! {

/// A window that is fully specified and that no engine has realized yet.
///
/// An engine consumes it once: it becomes one detached window, or nothing.
#[derive(Debug)]
pub struct PendingWindow {
    /// The label that the window will go by.
    pub label: String,
    /// What the window opens with.
    pub url: WindowUrl,
    /// What the window is created with.
    pub attributes: Attributes,
    /// Who receives the calls that the page makes.
    pub rpc_handler: Option<WebviewRpcHandler>,
    /// The URL scheme that the host serves itself.
    pub custom_protocol: Option<CustomProtocol>,
    /// Who receives what happens to files dragged over the window.
    pub file_drop_handler: Option<FileDropHandler>,
}

impl PendingWindow {
    /// A pending window with the given attributes and no hook.
    pub fn new(attributes: Attributes, label: String, url: WindowUrl) -> (pending: PendingWindow)
        ensures
            pending == (PendingWindow {
                label,
                url,
                attributes,
                rpc_handler: None,
                custom_protocol: None,
                file_drop_handler: None,
            }),
    {
        PendingWindow {
            attributes,
            label,
            url,
            rpc_handler: None,
            custom_protocol: None,
            file_drop_handler: None,
        }
    }

    /// A pending window with the attributes that a configuration asks for,
    /// and no hook. The label and the URL are the ones given, not those of
    /// the configuration.
    pub fn with_config(
        window_config: WindowConfig,
        label: String,
        url: WindowUrl,
    ) -> (pending: PendingWindow)
        ensures
            pending.attributes.follows(window_config),
            pending == (PendingWindow {
                label,
                url,
                attributes: pending.attributes,
                rpc_handler: None,
                custom_protocol: None,
                file_drop_handler: None,
            }),
    {
        PendingWindow {
            attributes: Attributes::with_config(window_config),
            label,
            url,
            rpc_handler: None,
            custom_protocol: None,
            file_drop_handler: None,
        }
    }
}

/// A window that an engine has realized and that no manager holds yet.
///
/// Two detached windows are the same window when their labels are equal,
/// whatever else they hold.
#[derive(Debug)]
pub struct DetachedWindow<D> {
    /// The label of the window.
    pub label: String,
    /// The handle through which operations reach the window.
    pub dispatcher: D,
}

impl<D: Dispatch> Clone for DetachedWindow<D> {
    /// Another handle on the same window, not another window.
    fn clone(&self) -> (copy: Self)
        ensures
            copy == *self,
    {
        DetachedWindow { label: self.label.clone(), dispatcher: self.dispatcher }
    }
}

impl<D: Dispatch> PartialEq for DetachedWindow<D> {
    fn eq(&self, other: &Self) -> (same: bool) {
        self.label == other.label
    }
}

impl<D: Dispatch> Eq for DetachedWindow<D> {

}

impl<D: Dispatch> vstd::std_specs::cmp::PartialEqSpecImpl for DetachedWindow<D> {
    open spec fn obeys_eq_spec() -> bool {
        true
    }

    open spec fn eq_spec(&self, other: &Self) -> bool {
        self.label@ == other.label@
    }
}

/// A window that a manager holds: the handle that the application works
/// with.
///
/// The handle holds no state of the window. What it does, it does to the
/// manager and the engine that it is given, so that every copy of the handle
/// sees and changes the one window. Two handles are the same window when
/// their labels are equal.
#[derive(Debug)]
pub struct Window<D> {
    window: DetachedWindow<D>,
}

impl<D> View for Window<D> {
    type V = DetachedWindow<D>;

    /// The realized window that the handle is on.
    closed spec fn view(&self) -> DetachedWindow<D> {
        self.window
    }
}

impl<D: Dispatch> Clone for Window<D> {
    /// Another handle on the same window, not another window.
    fn clone(&self) -> (copy: Self)
        ensures
            copy == *self,
    {
        Window { window: self.window.clone() }
    }
}

impl<D: Dispatch> PartialEq for Window<D> {
    fn eq(&self, other: &Self) -> (same: bool) {
        self.window.label == other.window.label
    }
}

impl<D: Dispatch> Eq for Window<D> {

}

impl<D: Dispatch> vstd::std_specs::cmp::PartialEqSpecImpl for Window<D> {
    open spec fn obeys_eq_spec() -> bool {
        true
    }

    open spec fn eq_spec(&self, other: &Self) -> bool {
        self@.label@ == other@.label@
    }
}

impl<D: Dispatch> Window<D> {
    /// The handle on a realized window.
    pub fn new(window: DetachedWindow<D>) -> (handle: Window<D>)
        ensures
            handle@ == window,
    {
        Window { window }
    }

    /// The handle through which operations reach the window.
    pub fn dispatcher(&self) -> (dispatcher: D)
        ensures
            dispatcher == self@.dispatcher,
    {
        self.window.dispatcher
    }

    /// The label of the window.
    pub fn label(&self) -> (label: &String)
        ensures
            *label == self@.label,
    {
        &self.window.label
    }

    /// Takes a message from the page of this window and says where it goes.
    ///
    /// The command `__initialized` is the news that a page has loaded: the
    /// page-load callback is due, not a command handler. It holds the
    /// address of the page under `url`. Every other command goes to exactly
    /// one of three places: the handler of the first-party module that the
    /// payload names, the extension point of the plugin that the command is
    /// prefixed for, or the application's own invoke handler.
    pub fn on_message(
        self,
        manager: &mut WindowManager<D>,
        command: String,
        payload: InvokePayload,
    ) -> (routed: Result<Route<D>, Error>)
        requires
            old(manager).wf(),
        ensures
            final(manager).wf(),
            message_routed(old(manager)@, final(manager)@, self, command, payload, routed),
    {
        if str_eq(command.as_str(), "__initialized") {
            let url = page_url(&payload.inner);
            manager.run_on_page_load(self, url)
        } else {
            let message = InvokeMessage::new(self, command, payload);
            manager.route(message)
        }
    }

    /// Takes a call from the page of this window as it comes in, salt
    /// first.
    ///
    /// The news that a page has loaded needs no salt: it is how a page
    /// comes to have one. Every other call must carry a salt that is good.
    /// The salt is used up by the check. A call without one is refused
    /// before anything is made of it, and no handler hears of it.
    pub fn invoke(
        self,
        manager: &mut WindowManager<D>,
        command: String,
        payload: InvokePayload,
    ) -> (routed: Result<Route<D>, Error>)
        requires
            old(manager).wf(),
        ensures
            final(manager).wf(),
            invoked(old(manager)@, final(manager)@, self, command, payload, routed),
    {
        if str_eq(command.as_str(), "__initialized") {
            return self.on_message(manager, command, payload);
        }
        if !manager.verify_salt(payload.salt.clone()) {
            assert(manager@.salts =~= old(manager)@.salts);
            return Err(Error::InvalidSalt);
        }
        self.on_message(manager, command, payload)
    }

    /// Pushes an event into the page of this window: mints a salt for the
    /// window and sends it the script that tells of the event, with that
    /// salt.
    pub fn emit_internal(
        &self,
        manager: &mut WindowManager<D>,
        runtime: &mut D::Runtime,
        event: &str,
        payload: Option<serde_json::Value>,
    ) -> (answer: Result<(), Error>)
        requires
            old(manager).wf(),
            old(runtime).in_order(),
        ensures
            final(manager).wf(),
            final(runtime).in_order(),
            pushed(
                old(manager)@,
                final(manager)@,
                old(runtime).windows(),
                final(runtime).windows(),
                seq![WindowManager::<D>::target_of(*self)],
                event@,
                payload,
                answer,
            ),
    {
        manager.emit_to(runtime, self, event, &payload)
    }

    /// Pushes an event into the page of this window.
    pub fn emit(
        &self,
        manager: &mut WindowManager<D>,
        runtime: &mut D::Runtime,
        event: &String,
        payload: Option<serde_json::Value>,
    ) -> (answer: Result<(), Error>)
        requires
            old(manager).wf(),
            old(runtime).in_order(),
        ensures
            final(manager).wf(),
            final(runtime).in_order(),
            pushed(
                old(manager)@,
                final(manager)@,
                old(runtime).windows(),
                final(runtime).windows(),
                seq![WindowManager::<D>::target_of(*self)],
                event@,
                payload,
                answer,
            ),
    {
        self.emit_internal(manager, runtime, event.as_str(), payload)
    }

    /// Pushes an event into the page of every attached window but this
    /// one.
    pub fn emit_others_internal(
        &self,
        manager: &mut WindowManager<D>,
        runtime: &mut D::Runtime,
        event: String,
        payload: Option<serde_json::Value>,
    ) -> (answer: Result<(), Error>)
        requires
            old(manager).wf(),
            old(runtime).in_order(),
        ensures
            final(manager).wf(),
            final(runtime).in_order(),
            pushed(
                old(manager)@,
                final(manager)@,
                old(runtime).windows(),
                final(runtime).windows(),
                others(all_targets(old(manager)@.windows), self@.label@),
                event@,
                payload,
                answer,
            ),
    {
        manager.emit_others(runtime, &self.window.label, event.as_str(), payload)
    }

    /// Pushes an event into the page of every attached window but this
    /// one.
    pub fn emit_others(
        &self,
        manager: &mut WindowManager<D>,
        runtime: &mut D::Runtime,
        event: String,
        payload: Option<serde_json::Value>,
    ) -> (answer: Result<(), Error>)
        requires
            old(manager).wf(),
            old(runtime).in_order(),
        ensures
            final(manager).wf(),
            final(runtime).in_order(),
            pushed(
                old(manager)@,
                final(manager)@,
                old(runtime).windows(),
                final(runtime).windows(),
                others(all_targets(old(manager)@.windows), self@.label@),
                event@,
                payload,
                answer,
            ),
    {
        manager.emit_others(runtime, &self.window.label, event.as_str(), payload)
    }

    /// Registers a listener to `event` from this window that stays until
    /// it is unregistered.
    pub fn listen(&self, manager: &mut WindowManager<D>, event: String) -> (id: EventHandler)
        requires
            old(manager).wf(),
            old(manager).has_room(),
        ensures
            final(manager).wf(),
            id.0 == old(manager)@.next_listener,
            final(manager)@ == (ManagerState {
                listeners: old(manager)@.listeners.push(
                    Listener { id, event: event@, window: Some(self@.label@), once: false },
                ),
                next_listener: (old(manager)@.next_listener + 1) as u64,
                ..old(manager)@
            }),
    {
        let label = self.window.label.clone();
        manager.listen(event, Some(label))
    }

    /// Registers a listener to `event` from this window that is
    /// unregistered by its first delivery.
    pub fn once(&self, manager: &mut WindowManager<D>, event: String) -> (id: EventHandler)
        requires
            old(manager).wf(),
            old(manager).has_room(),
        ensures
            final(manager).wf(),
            id.0 == old(manager)@.next_listener,
            final(manager)@ == (ManagerState {
                listeners: old(manager)@.listeners.push(
                    Listener { id, event: event@, window: Some(self@.label@), once: true },
                ),
                next_listener: (old(manager)@.next_listener + 1) as u64,
                ..old(manager)@
            }),
    {
        let label = self.window.label.clone();
        manager.once(event, Some(label))
    }

    /// Works out a dispatch of `event` from this window to the host-side
    /// listeners: those registered for this window, and those registered
    /// for events from anywhere. The page hears nothing of it.
    pub fn trigger(
        &self,
        manager: &mut WindowManager<D>,
        event: String,
        data: Option<String>,
    ) -> (deliveries: Vec<Event>)
        requires
            old(manager).wf(),
        ensures
            final(manager).wf(),
            final(manager)@ == (ManagerState {
                listeners: kept(old(manager)@.listeners, event@, Some(self@.label@)),
                ..old(manager)@
            }),
            deliveries@.map_values(|delivery: Event| delivery.id) == fired(
                old(manager)@.listeners,
                event@,
                Some(self@.label@),
            ),
            forall|k: int| 0 <= k < deliveries@.len() ==> (#[trigger] deliveries@[k]).data == data,
    {
        let label = self.window.label.clone();
        manager.trigger(event, Some(label), data)
    }

    /// Queues a script for the page of this window. The call returns once
    /// the script waits in the outbox, not once it has run; scripts run in
    /// the order in which they were queued.
    pub fn eval(&self, runtime: &mut D::Runtime, js: &str) -> (answer: Result<(), Error>)
        requires
            old(runtime).in_order(),
        ensures
            final(runtime).in_order(),
            sent(
                old(runtime).windows(),
                final(runtime).windows(),
                self@.dispatcher.window(),
                Operation::EvaluationScript(js@),
                answer,
            ),
    {
        self.window.dispatcher.eval_script(runtime, js.to_owned())
    }

    /// Sets the title of this window.
    pub fn set_title(&self, runtime: &mut D::Runtime, title: &str) -> (answer: Result<(), Error>)
        requires
            old(runtime).in_order(),
        ensures
            final(runtime).in_order(),
            sent(
                old(runtime).windows(),
                final(runtime).windows(),
                self@.dispatcher.window(),
                Operation::SetTitle(title@),
                answer,
            ),
    {
        self.window.dispatcher.set_title(runtime, title.to_owned())
    }

    /// Says whether the user can resize this window.
    pub fn set_resizable(
        &self,
        runtime: &mut D::Runtime,
        resizable: bool,
    ) -> (answer: Result<(), Error>)
        requires
            old(runtime).in_order(),
        ensures
            final(runtime).in_order(),
            sent(
                old(runtime).windows(),
                final(runtime).windows(),
                self@.dispatcher.window(),
                Operation::SetResizable(resizable),
                answer,
            ),
    {
        self.window.dispatcher.set_resizable(runtime, resizable)
    }

    /// Maximizes this window.
    pub fn maximize(&self, runtime: &mut D::Runtime) -> (answer: Result<(), Error>)
        requires
            old(runtime).in_order(),
        ensures
            final(runtime).in_order(),
            sent(
                old(runtime).windows(),
                final(runtime).windows(),
                self@.dispatcher.window(),
                Operation::Maximize,
                answer,
            ),
    {
        self.window.dispatcher.maximize(runtime)
    }

    /// Takes this window back from maximized.
    pub fn unmaximize(&self, runtime: &mut D::Runtime) -> (answer: Result<(), Error>)
        requires
            old(runtime).in_order(),
        ensures
            final(runtime).in_order(),
            sent(
                old(runtime).windows(),
                final(runtime).windows(),
                self@.dispatcher.window(),
                Operation::Unmaximize,
                answer,
            ),
    {
        self.window.dispatcher.unmaximize(runtime)
    }

    /// Minimizes this window.
    pub fn minimize(&self, runtime: &mut D::Runtime) -> (answer: Result<(), Error>)
        requires
            old(runtime).in_order(),
        ensures
            final(runtime).in_order(),
            sent(
                old(runtime).windows(),
                final(runtime).windows(),
                self@.dispatcher.window(),
                Operation::Minimize,
                answer,
            ),
    {
        self.window.dispatcher.minimize(runtime)
    }

    /// Takes this window back from minimized.
    pub fn unminimize(&self, runtime: &mut D::Runtime) -> (answer: Result<(), Error>)
        requires
            old(runtime).in_order(),
        ensures
            final(runtime).in_order(),
            sent(
                old(runtime).windows(),
                final(runtime).windows(),
                self@.dispatcher.window(),
                Operation::Unminimize,
                answer,
            ),
    {
        self.window.dispatcher.unminimize(runtime)
    }

    /// Shows this window.
    pub fn show(&self, runtime: &mut D::Runtime) -> (answer: Result<(), Error>)
        requires
            old(runtime).in_order(),
        ensures
            final(runtime).in_order(),
            sent(
                old(runtime).windows(),
                final(runtime).windows(),
                self@.dispatcher.window(),
                Operation::Show,
                answer,
            ),
    {
        self.window.dispatcher.show(runtime)
    }

    /// Hides this window.
    pub fn hide_window(&self, runtime: &mut D::Runtime) -> (answer: Result<(), Error>)
        requires
            old(runtime).in_order(),
        ensures
            final(runtime).in_order(),
            sent(
                old(runtime).windows(),
                final(runtime).windows(),
                self@.dispatcher.window(),
                Operation::Hide,
                answer,
            ),
    {
        self.window.dispatcher.hide_window(runtime)
    }

    /// Closes this window. It is the last operation that the window takes,
    /// through this handle or any other.
    pub fn close(&self, runtime: &mut D::Runtime) -> (answer: Result<(), Error>)
        requires
            old(runtime).in_order(),
        ensures
            final(runtime).in_order(),
            sent(
                old(runtime).windows(),
                final(runtime).windows(),
                self@.dispatcher.window(),
                Operation::Close,
                answer,
            ),
    {
        self.window.dispatcher.close(runtime)
    }

    /// Says whether this window has borders and bars.
    pub fn set_decorations(
        &self,
        runtime: &mut D::Runtime,
        decorations: bool,
    ) -> (answer: Result<(), Error>)
        requires
            old(runtime).in_order(),
        ensures
            final(runtime).in_order(),
            sent(
                old(runtime).windows(),
                final(runtime).windows(),
                self@.dispatcher.window(),
                Operation::SetDecorations(decorations),
                answer,
            ),
    {
        self.window.dispatcher.set_decorations(runtime, decorations)
    }

    /// Says whether this window stays above all others.
    pub fn set_always_on_top(
        &self,
        runtime: &mut D::Runtime,
        always_on_top: bool,
    ) -> (answer: Result<(), Error>)
        requires
            old(runtime).in_order(),
        ensures
            final(runtime).in_order(),
            sent(
                old(runtime).windows(),
                final(runtime).windows(),
                self@.dispatcher.window(),
                Operation::SetAlwaysOnTop(always_on_top),
                answer,
            ),
    {
        self.window.dispatcher.set_always_on_top(runtime, always_on_top)
    }

    /// Sets the width of this window.
    pub fn set_width(&self, runtime: &mut D::Runtime, width: Pixels) -> (answer: Result<(), Error>)
        requires
            old(runtime).in_order(),
        ensures
            final(runtime).in_order(),
            sent(
                old(runtime).windows(),
                final(runtime).windows(),
                self@.dispatcher.window(),
                Operation::SetWidth(width),
                answer,
            ),
    {
        self.window.dispatcher.set_width(runtime, width)
    }

    /// Sets the height of this window.
    pub fn set_height(
        &self,
        runtime: &mut D::Runtime,
        height: Pixels,
    ) -> (answer: Result<(), Error>)
        requires
            old(runtime).in_order(),
        ensures
            final(runtime).in_order(),
            sent(
                old(runtime).windows(),
                final(runtime).windows(),
                self@.dispatcher.window(),
                Operation::SetHeight(height),
                answer,
            ),
    {
        self.window.dispatcher.set_height(runtime, height)
    }

    /// Sets the width and the height of this window.
    pub fn resize(
        &self,
        runtime: &mut D::Runtime,
        width: Pixels,
        height: Pixels,
    ) -> (answer: Result<(), Error>)
        requires
            old(runtime).in_order(),
        ensures
            final(runtime).in_order(),
            sent(
                old(runtime).windows(),
                final(runtime).windows(),
                self@.dispatcher.window(),
                Operation::Resize { width, height },
                answer,
            ),
    {
        self.window.dispatcher.resize(runtime, width, height)
    }

    /// Sets the least size of this window.
    pub fn set_min_size(
        &self,
        runtime: &mut D::Runtime,
        min_width: Pixels,
        min_height: Pixels,
    ) -> (answer: Result<(), Error>)
        requires
            old(runtime).in_order(),
        ensures
            final(runtime).in_order(),
            sent(
                old(runtime).windows(),
                final(runtime).windows(),
                self@.dispatcher.window(),
                Operation::SetMinSize { min_width, min_height },
                answer,
            ),
    {
        self.window.dispatcher.set_min_size(runtime, min_width, min_height)
    }

    /// Sets the greatest size of this window.
    pub fn set_max_size(
        &self,
        runtime: &mut D::Runtime,
        max_width: Pixels,
        max_height: Pixels,
    ) -> (answer: Result<(), Error>)
        requires
            old(runtime).in_order(),
        ensures
            final(runtime).in_order(),
            sent(
                old(runtime).windows(),
                final(runtime).windows(),
                self@.dispatcher.window(),
                Operation::SetMaxSize { max_width, max_height },
                answer,
            ),
    {
        self.window.dispatcher.set_max_size(runtime, max_width, max_height)
    }

    /// Places the left edge of this window.
    pub fn set_x(&self, runtime: &mut D::Runtime, x: Pixels) -> (answer: Result<(), Error>)
        requires
            old(runtime).in_order(),
        ensures
            final(runtime).in_order(),
            sent(
                old(runtime).windows(),
                final(runtime).windows(),
                self@.dispatcher.window(),
                Operation::SetX(x),
                answer,
            ),
    {
        self.window.dispatcher.set_x(runtime, x)
    }

    /// Places the top edge of this window.
    pub fn set_y(&self, runtime: &mut D::Runtime, y: Pixels) -> (answer: Result<(), Error>)
        requires
            old(runtime).in_order(),
        ensures
            final(runtime).in_order(),
            sent(
                old(runtime).windows(),
                final(runtime).windows(),
                self@.dispatcher.window(),
                Operation::SetY(y),
                answer,
            ),
    {
        self.window.dispatcher.set_y(runtime, y)
    }

    /// Places this window.
    pub fn set_position(
        &self,
        runtime: &mut D::Runtime,
        x: Pixels,
        y: Pixels,
    ) -> (answer: Result<(), Error>)
        requires
            old(runtime).in_order(),
        ensures
            final(runtime).in_order(),
            sent(
                old(runtime).windows(),
                final(runtime).windows(),
                self@.dispatcher.window(),
                Operation::SetPosition { x, y },
                answer,
            ),
    {
        self.window.dispatcher.set_position(runtime, x, y)
    }

    /// Puts this window into fullscreen, or takes it out.
    pub fn set_fullscreen(
        &self,
        runtime: &mut D::Runtime,
        fullscreen: bool,
    ) -> (answer: Result<(), Error>)
        requires
            old(runtime).in_order(),
        ensures
            final(runtime).in_order(),
            sent(
                old(runtime).windows(),
                final(runtime).windows(),
                self@.dispatcher.window(),
                Operation::SetFullscreen(fullscreen),
                answer,
            ),
    {
        self.window.dispatcher.set_fullscreen(runtime, fullscreen)
    }

    /// Sets the icon of this window. An icon that the engine cannot decode
    /// is refused as invalid, and nothing is sent.
    pub fn set_icon(&self, runtime: &mut D::Runtime, icon: Icon) -> (answer: Result<(), Error>)
        requires
            old(runtime).in_order(),
        ensures
            final(runtime).in_order(),
            match D::decoded(icon) {
                Some(bytes) => sent(
                    old(runtime).windows(),
                    final(runtime).windows(),
                    self@.dispatcher.window(),
                    Operation::SetIcon(bytes),
                    answer,
                ),
                None => {
                    &&& answer matches Err(Error::InvalidIcon(_))
                    &&& final(runtime).windows() == old(runtime).windows()
                    &&& final(runtime).in_order()
                },
            },
    {
        match D::try_icon(icon) {
            Ok(engine_icon) => self.window.dispatcher.set_icon(runtime, engine_icon),
            Err(refused) => Err(refused),
        }
    }

    /// Mints a salt for this window. The salt is good until it is checked,
    /// or until a page of this window loads.
    pub fn generate_salt(&self, manager: &mut WindowManager<D>) -> (salt: String)
        requires
            old(manager).wf(),
        ensures
            final(manager).wf(),
            final(manager)@ == (ManagerState {
                salts: old(manager)@.salts.insert(salt@, Some(self@.label@)),
                ..old(manager)@
            }),
    {
        manager.generate_salt_for(&self.window.label)
    }

    /// Checks a salt and uses it up.
    pub fn verify_salt(&self, manager: &mut WindowManager<D>, salt: String) -> (good: bool)
        requires
            old(manager).wf(),
        ensures
            final(manager).wf(),
            good == old(manager)@.salts.contains_key(salt@),
            final(manager)@ == (ManagerState {
                salts: old(manager)@.salts.remove(salt@),
                ..old(manager)@
            }),
    {
        manager.verify_salt(salt)
    }
}

/// What a message from the page of a window does to a manager, and where
/// it goes.
///
/// The command `__initialized` is page-load news, with the address of the
/// page under `url` of what the message carries. Any other command leaves
/// the manager as it was and goes where `command_routed` says.
pub open spec fn message_routed<D: Dispatch>(
    before: ManagerState,
    after: ManagerState,
    window: Window<D>,
    command: String,
    payload: InvokePayload,
    answer: Result<Route<D>, Error>,
) -> bool {
    if command@ == "__initialized"@ {
        page_load_routed(before, after, window, page_address(payload.inner), answer)
    } else {
        &&& after == before
        &&& command_routed(before, InvokeMessage { window, command, payload }, answer)
    }
}

/// What a call from the page of a window does to a manager, and where it
/// goes, when the salt is checked first.
///
/// Page-load news goes through as it is. Any other call that carries no
/// good salt is refused, and nothing changes. One that carries a good salt
/// uses it up, and then goes where `message_routed` says.
pub open spec fn invoked<D: Dispatch>(
    before: ManagerState,
    after: ManagerState,
    window: Window<D>,
    command: String,
    payload: InvokePayload,
    answer: Result<Route<D>, Error>,
) -> bool {
    if command@ == "__initialized"@ {
        message_routed(before, after, window, command, payload, answer)
    } else if !before.salts.contains_key(payload.salt@) {
        &&& answer matches Err(Error::InvalidSalt)
        &&& after == before
    } else {
        message_routed(
            ManagerState { salts: before.salts.remove(payload.salt@), ..before },
            after,
            window,
            command,
            payload,
            answer,
        )
    }
}

} // verus!