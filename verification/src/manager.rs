//! The window manager: which windows are attached, which salts are good,
//! who listens, and where a message from a page goes.
//!
//! A manager is one value that its owner holds. Every change goes through
//! an exclusive borrow of it, so that attaching and detaching a window,
//! minting and checking a salt never interleave.

use crate::error::Error;
use crate::event::{Event, EventHandler, Listener, Listeners};
use crate::text::text_of;
use crate::hooks::{
    plugin_command,
    plugin_namespace,
    split_plugin_command,
    InvokeMessage,
    PageLoadPayload,
    Route,
};
use crate::salt::{fresh_token, surviving, Salts};
use crate::script::{event_literal, event_script, notification_script, payload_literal};
use crate::table::Table;
use crate::webview::Hook;
use crate::window::{DetachedWindow, Window};
use crate::runtime::{accepts, deliver, Dispatch, Operation, Runtime, WindowId, WindowState};
use vstd::prelude::*;

verus! {

/// What the manager holds of an attached window.
pub struct Attached {
    /// The label of the window.
    pub label: Seq<char>,
    /// The window, as its engine names it.
    pub window: WindowId,
    /// Whether a page of the window has loaded yet.
    pub loaded: bool,
}

/// Everything a manager holds.
pub struct ManagerState {
    /// The attached windows, in the order in which they were attached.
    pub windows: Seq<Attached>,
    /// The listeners, in the order in which they were registered.
    pub listeners: Seq<Listener>,
    /// The name that the next listener gets.
    pub next_listener: u64,
    /// The salts that are good, each with the label of the window that it
    /// was minted for, if any.
    pub salts: Map<Seq<char>, Option<Seq<char>>>,
    /// The handlers of the first-party modules, by module name.
    pub endpoints: Map<Seq<char>, Hook>,
    /// The extension points of the plugins, by namespace.
    pub plugins: Map<Seq<char>, Hook>,
    /// The application's own invoke handler.
    pub invoke_handler: Option<Hook>,
    /// The page-load callback.
    pub page_load_handler: Option<Hook>,
    /// The name of the function of the page that takes events.
    pub emit_function: Seq<char>,
}

/// The place of the window labelled `label` among `windows`, or their
/// number where no window goes by that label.
pub open spec fn place_of(windows: Seq<Attached>, label: Seq<char>) -> int
    decreases windows.len(),
{
    if windows.len() == 0 {
        0
    } else {
        let place = place_of(windows.drop_last(), label);
        if place < windows.len() - 1 {
            place
        } else if windows.last().label == label {
            windows.len() - 1
        } else {
            windows.len() as int
        }
    }
}

/// Whether a window labelled `label` is among `windows`.
pub open spec fn is_attached(windows: Seq<Attached>, label: Seq<char>) -> bool {
    place_of(windows, label) < windows.len()
}

/// Whether no two of `windows` share a label.
pub open spec fn one_window_per_label(windows: Seq<Attached>) -> bool {
    forall|i: int, j: int|
        0 <= i < j < windows.len() ==> (#[trigger] windows[i]).label != (
        #[trigger] windows[j]).label
}

/// `place_of` gives the first place at which the label stands, and the
/// number of windows exactly where it stands nowhere.
pub proof fn lemma_place_of(windows: Seq<Attached>, label: Seq<char>)
    ensures
        0 <= place_of(windows, label) <= windows.len(),
        place_of(windows, label) < windows.len() ==> windows[place_of(windows, label)].label
            == label,
        forall|i: int| 0 <= i < place_of(windows, label) ==> (#[trigger] windows[i]).label != label,
    decreases windows.len(),
{
    if windows.len() > 0 {
        lemma_place_of(windows.drop_last(), label);
        if place_of(windows, label) < windows.len() - 1 {
            assert(windows.drop_last()[place_of(windows, label)] == windows[place_of(
                windows,
                label,
            )]);
        }
        assert forall|i: int| 0 <= i < place_of(windows, label) implies (
        #[trigger] windows[i]).label != label by {
            if i < windows.len() - 1 {
                assert(windows.drop_last()[i] == windows[i]);
            }
        }
    }
}

/// What attaching a realized window does to a manager and what it answers.
/// Where a window is attached under the same label already, the call fails
/// and nothing changes: the manager never holds two windows under one
/// label. Otherwise the window comes last among the attached ones, with no
/// page loaded yet.
pub open spec fn attaches<D: Dispatch>(
    before: ManagerState,
    after: ManagerState,
    window: DetachedWindow<D>,
    answer: Result<Window<D>, Error>,
) -> bool {
    if is_attached(before.windows, window.label@) {
        &&& answer matches Err(Error::CreateWindow)
        &&& after == before
    } else {
        &&& answer matches Ok(handle)
        &&& handle@ == window
        &&& after == ManagerState {
            windows: before.windows.push(
                Attached { label: window.label@, window: window.dispatcher.window(), loaded: false },
            ),
            ..before
        }
    }
}

/// What closing the window labelled `label` does to a manager and to the
/// engine of the window, and what it answers. An attached window is sent
/// the operation that closes it and is detached, whatever the engine
/// answers. For a label that is not attached nothing changes and the
/// answer is a failure to deliver.
pub open spec fn closes(
    before: ManagerState,
    after: ManagerState,
    engine_before: Seq<WindowState>,
    engine_after: Seq<WindowState>,
    label: Seq<char>,
    answer: Result<(), Error>,
) -> bool {
    let place = place_of(before.windows, label);
    if is_attached(before.windows, label) {
        &&& after == ManagerState { windows: before.windows.remove(place), ..before }
        &&& crate::runtime::sent(
            engine_before,
            engine_after,
            before.windows[place].window,
            Operation::Close,
            answer,
        )
    } else {
        &&& after == before
        &&& engine_after == engine_before
        &&& answer == Err::<(), Error>(Error::FailedToSendMessage)
    }
}

/// The manager's state after the page of the window labelled `label` has
/// loaded: the window has a page, and the salts that were minted for it are
/// no good any more.
pub open spec fn after_page_load(state: ManagerState, label: Seq<char>) -> ManagerState {
    let place = place_of(state.windows, label);
    ManagerState {
        windows: state.windows.update(place, Attached { loaded: true, ..state.windows[place] }),
        salts: surviving(state.salts, label),
        ..state
    }
}

/// What the news that a page has loaded does to a manager, and where it
/// goes. For a window that is not attached nothing changes and the news is
/// dropped. Where the page did not say its address, the call fails and
/// nothing changes. Else the page-load callback is due.
pub open spec fn page_load_routed<D: Dispatch>(
    before: ManagerState,
    after: ManagerState,
    window: Window<D>,
    url: Option<Seq<char>>,
    answer: Result<Route<D>, Error>,
) -> bool {
    let label = window@.label@;
    if !is_attached(before.windows, label) {
        &&& answer matches Ok(Route::Dropped { label: dropped })
        &&& dropped@ == label
        &&& after == before
    } else {
        match url {
            None => {
                &&& answer matches Err(Error::Json)
                &&& after == before
            },
            Some(address) => {
                &&& answer matches Ok(Route::PageLoad { window: loaded, payload, handler, first })
                &&& loaded == window
                &&& payload.address() == address
                &&& handler == before.page_load_handler
                &&& first == !before.windows[place_of(before.windows, label)].loaded
                &&& after == after_page_load(before, label)
            },
        }
    }
}

/// Where a command goes that is no page-load news. The manager does not
/// change.
///
/// A message from a window that is not attached is dropped. A message that
/// names a first-party module goes to the handler of that module, and fails
/// where the module has none. Else a command with the plugin prefix goes to
/// the extension point of the plugin's namespace, as the plugin's own
/// command, and fails where the namespace has none. Any other command goes
/// to the application's own invoke handler.
pub open spec fn command_routed<D: Dispatch>(
    state: ManagerState,
    message: InvokeMessage<D>,
    answer: Result<Route<D>, Error>,
) -> bool {
    let label = message.window@.label@;
    if !is_attached(state.windows, label) {
        answer matches Ok(Route::Dropped { label: dropped }) && dropped@ == label
    } else {
        match message.payload.tauri_module {
            Some(module) => {
                if state.endpoints.contains_key(module@) {
                    &&& answer matches Ok(Route::Endpoint { handler, message: routed })
                    &&& handler == state.endpoints[module@]
                    &&& routed == message
                } else {
                    answer matches Err(Error::UnknownApi)
                }
            },
            None => {
                if crate::text::has_prefix(message.command@, "plugin:"@) {
                    plugin_routed(state, message, answer)
                } else {
                    &&& answer matches Ok(Route::Handler { handler, message: routed })
                    &&& handler == state.invoke_handler
                    &&& routed == message
                }
            },
        }
    }
}

/// Where a command for a plugin goes: to the extension point of its
/// namespace, as the plugin's own command. It fails where the namespace has
/// no extension point.
pub open spec fn plugin_routed<D: Dispatch>(
    state: ManagerState,
    message: InvokeMessage<D>,
    answer: Result<Route<D>, Error>,
) -> bool {
    let namespace = plugin_namespace(message.command@);
    if state.plugins.contains_key(namespace) {
        &&& answer matches Ok(Route::Plugin { handler, message: routed })
        &&& handler == state.plugins[namespace]
        &&& routed.window == message.window
        &&& routed.payload == message.payload
        &&& routed.command@ == plugin_command(message.command@)
    } else {
        answer matches Err(Error::UnknownApi)
    }
}

/// A window that an event is pushed to.
pub struct Target {
    /// The label of the window.
    pub label: Seq<char>,
    /// The window, as its engine names it.
    pub window: WindowId,
}

/// A manager, an engine, and how a run of pushes has gone so far.
pub struct Pushed {
    pub manager: ManagerState,
    pub engine: Seq<WindowState>,
    pub answer: Result<(), Error>,
}

/// What pushing an event to one more window does, after the pushes before
/// it. Nothing is done once a push has failed. Else a salt is minted for
/// the window, and the script that tells of the event, with that salt, is
/// sent to the window. Where the window is gone the send fails; the salt
/// was minted all the same.
pub open spec fn push_to(
    so_far: Pushed,
    target: Target,
    event: Seq<char>,
    payload: Option<serde_json::Value>,
    salt: Seq<char>,
) -> Pushed {
    if so_far.answer is Err {
        so_far
    } else {
        let manager = ManagerState {
            salts: so_far.manager.salts.insert(salt, Some(target.label)),
            ..so_far.manager
        };
        let script = event_script(so_far.manager.emit_function, event, payload, salt);
        if accepts(so_far.engine, target.window) {
            Pushed {
                manager,
                engine: deliver(
                    so_far.engine,
                    target.window,
                    Operation::EvaluationScript(script),
                ),
                answer: Ok(()),
            }
        } else {
            Pushed { manager, engine: so_far.engine, answer: Err(Error::FailedToSendMessage) }
        }
    }
}

/// What pushing an event to `targets`, one after the other, does: each
/// window in its turn gets a salt of its own, the one at its place in
/// `salts`, and the first push that fails ends the run.
pub open spec fn push_to_each(
    manager: ManagerState,
    engine: Seq<WindowState>,
    targets: Seq<Target>,
    event: Seq<char>,
    payload: Option<serde_json::Value>,
    salts: Seq<Seq<char>>,
) -> Pushed
    decreases targets.len(),
{
    if targets.len() == 0 {
        Pushed { manager, engine, answer: Ok(()) }
    } else {
        push_to(
            push_to_each(manager, engine, targets.drop_last(), event, payload, salts.drop_last()),
            targets.last(),
            event,
            payload,
            salts.last(),
        )
    }
}

/// Whether an event was pushed to `targets`, one after the other, with
/// salts that only the outcome knows.
pub open spec fn pushed(
    before: ManagerState,
    after: ManagerState,
    engine_before: Seq<WindowState>,
    engine_after: Seq<WindowState>,
    targets: Seq<Target>,
    event: Seq<char>,
    payload: Option<serde_json::Value>,
    answer: Result<(), Error>,
) -> bool {
    exists|salts: Seq<Seq<char>>|
        salts.len() == targets.len() && #[trigger] push_to_each(
            before,
            engine_before,
            targets,
            event,
            payload,
            salts,
        ) == (Pushed { manager: after, engine: engine_after, answer })
}

/// The attached windows as targets, in their order.
pub open spec fn all_targets(windows: Seq<Attached>) -> Seq<Target> {
    windows.map_values(|window: Attached| Target { label: window.label, window: window.window })
}

/// The targets that were picked: those of `targets` whose place in `picks`
/// says yes, in their order.
pub open spec fn picked(targets: Seq<Target>, picks: Seq<bool>) -> Seq<Target>
    decreases targets.len(),
{
    if targets.len() == 0 {
        Seq::empty()
    } else {
        let earlier = picked(targets.drop_last(), picks.drop_last());
        if picks.last() {
            earlier.push(targets.last())
        } else {
            earlier
        }
    }
}

/// The targets that do not go by `label`, in their order.
pub open spec fn others(targets: Seq<Target>, label: Seq<char>) -> Seq<Target>
    decreases targets.len(),
{
    if targets.len() == 0 {
        Seq::empty()
    } else {
        let earlier = others(targets.drop_last(), label);
        if targets.last().label != label {
            earlier.push(targets.last())
        } else {
            earlier
        }
    }
}

/// The window manager.
#[derive(Debug)]
pub struct WindowManager<D> {
    windows: Vec<Window<D>>,
    loaded: Vec<bool>,
    listeners: Listeners,
    salts: Salts,
    endpoints: Table<Hook>,
    plugins: Table<Hook>,
    invoke_handler: Option<Hook>,
    page_load_handler: Option<Hook>,
    event_emit_function_name: String,
}

impl<D: Dispatch> View for WindowManager<D> {
    type V = ManagerState;

    closed spec fn view(&self) -> ManagerState {
        ManagerState {
            windows: Seq::new(
                self.windows@.len(),
                |i: int|
                    Attached {
                        label: self.windows@[i]@.label@,
                        window: self.windows@[i]@.dispatcher.window(),
                        loaded: self.loaded@[i],
                    },
            ),
            listeners: self.listeners@,
            next_listener: self.listeners.next(),
            salts: self.salts@,
            endpoints: self.endpoints@,
            plugins: self.plugins@,
            invoke_handler: self.invoke_handler,
            page_load_handler: self.page_load_handler,
            emit_function: self.event_emit_function_name@,
        }
    }
}

impl<D: Dispatch> WindowManager<D> {
    /// Whether the manager is in order. A manager that is in order holds no
    /// two windows under one label, and no two listeners under one name.
    pub closed spec fn wf(&self) -> bool {
        &&& self.windows@.len() == self.loaded@.len()
        &&& one_window_per_label(self@.windows)
        &&& self.listeners.wf()
        &&& self.salts.wf()
        &&& self.endpoints.wf()
        &&& self.plugins.wf()
    }

    /// The handle on the window at a place among the attached ones.
    pub closed spec fn handle(&self, place: int) -> Window<D> {
        self.windows@[place]
    }

    /// What being in order means for the windows and the listeners, and how
    /// the handles and the state go together.
    pub proof fn lemma_in_order(&self)
        requires
            self.wf(),
        ensures
            one_window_per_label(self@.windows),
            crate::event::names_in_order(self@.listeners, self@.next_listener),
            forall|i: int|
                0 <= i < self@.windows.len() ==> (#[trigger] self.handle(i))@.label@
                    == self@.windows[i].label && self.handle(i)@.dispatcher.window()
                    == self@.windows[i].window,
    {
    }

    /// Whether a name is left for one more listener.
    pub open spec fn has_room(&self) -> bool {
        self@.next_listener < u64::MAX
    }

    /// A manager that holds nothing, for pages whose function for events
    /// goes by `name`.
    pub fn with_event_emit_function_name(name: String) -> (manager: WindowManager<D>)
        ensures
            manager.wf(),
            manager@ == (ManagerState {
                windows: Seq::empty(),
                listeners: Seq::empty(),
                next_listener: 0,
                salts: Map::empty(),
                endpoints: Map::empty(),
                plugins: Map::empty(),
                invoke_handler: None,
                page_load_handler: None,
                emit_function: name@,
            }),
    {
        let manager = WindowManager {
            windows: Vec::new(),
            loaded: Vec::new(),
            listeners: Listeners::new(),
            salts: Salts::new(),
            endpoints: Table::new(),
            plugins: Table::new(),
            invoke_handler: None,
            page_load_handler: None,
            event_emit_function_name: name,
        };
        assert(manager@.windows =~= Seq::<Attached>::empty());
        manager
    }

    /// A manager that holds nothing. The name of the function of the page
    /// that takes events is drawn at random, so that a page cannot know it
    /// before the host tells it.
    pub fn new() -> (manager: WindowManager<D>)
        ensures
            manager.wf(),
            manager@ == (ManagerState {
                windows: Seq::empty(),
                listeners: Seq::empty(),
                next_listener: 0,
                salts: Map::empty(),
                endpoints: Map::empty(),
                plugins: Map::empty(),
                invoke_handler: None,
                page_load_handler: None,
                emit_function: manager@.emit_function,
            }),
    {
        WindowManager::with_event_emit_function_name(fresh_token())
    }

    /// The name of the function of the page that takes events.
    pub fn event_emit_function_name(&self) -> (name: &String)
        ensures
            name@ == self@.emit_function,
    {
        &self.event_emit_function_name
    }

    /// Makes `handler` the application's own invoke handler, in place of the
    /// one before.
    pub fn set_invoke_handler(&mut self, handler: Hook)
        requires
            old(self).wf(),
        ensures
            final(self).wf(),
            final(self)@ == (ManagerState { invoke_handler: Some(handler), ..old(self)@ }),
    {
        self.invoke_handler = Some(handler);
        assert(self@.windows =~= old(self)@.windows);
    }

    /// Makes `handler` the page-load callback, in place of the one before.
    pub fn set_page_load_handler(&mut self, handler: Hook)
        requires
            old(self).wf(),
        ensures
            final(self).wf(),
            final(self)@ == (ManagerState { page_load_handler: Some(handler), ..old(self)@ }),
    {
        self.page_load_handler = Some(handler);
        assert(self@.windows =~= old(self)@.windows);
    }

    /// Makes `handler` the handler of the first-party module `module`, in
    /// place of the one before.
    pub fn register_endpoint(&mut self, module: String, handler: Hook)
        requires
            old(self).wf(),
        ensures
            final(self).wf(),
            final(self)@ == (ManagerState {
                endpoints: old(self)@.endpoints.insert(module@, handler),
                ..old(self)@
            }),
    {
        self.endpoints.insert(module, handler);
        assert(self@.windows =~= old(self)@.windows);
    }

    /// Makes `handler` the extension point of the plugin namespace
    /// `namespace`, in place of the one before.
    pub fn register_plugin(&mut self, namespace: String, handler: Hook)
        requires
            old(self).wf(),
        ensures
            final(self).wf(),
            final(self)@ == (ManagerState {
                plugins: old(self)@.plugins.insert(namespace@, handler),
                ..old(self)@
            }),
    {
        self.plugins.insert(namespace, handler);
        assert(self@.windows =~= old(self)@.windows);
    }

    /// The place of the window labelled `label` among the attached ones.
    fn find(&self, label: &String) -> (place: usize)
        requires
            self.wf(),
        ensures
            place == place_of(self@.windows, label@),
            place <= self.windows@.len(),
            self@.windows.len() == self.windows@.len(),
    {
        let mut place: usize = 0;
        proof {
            lemma_place_of(self@.windows, label@);
        }
        while place < self.windows.len()
            invariant
                place <= self.windows@.len(),
                self@.windows.len() == self.windows@.len(),
                forall|i: int| 0 <= i < place ==> (#[trigger] self@.windows[i]).label != label@,
                0 <= place_of(self@.windows, label@) <= self@.windows.len(),
                place_of(self@.windows, label@) < self@.windows.len() ==> self@.windows[place_of(
                    self@.windows,
                    label@,
                )].label == label@,
                forall|i: int|
                    0 <= i < place_of(self@.windows, label@) ==> (
                    #[trigger] self@.windows[i]).label != label@,
            decreases self.windows@.len() - place,
        {
            if *self.windows[place].label() == *label {
                assert(self@.windows[place as int].label == label@);
                return place;
            }
            place = place + 1;
        }
        place
    }

    /// Whether a window labelled `label` is attached.
    pub fn is_attached(&self, label: &String) -> (attached: bool)
        requires
            self.wf(),
        ensures
            attached == is_attached(self@.windows, label@),
    {
        self.find(label) < self.windows.len()
    }

    /// How many windows are attached.
    pub fn window_count(&self) -> (count: usize)
        requires
            self.wf(),
        ensures
            count == self@.windows.len(),
    {
        self.windows.len()
    }

    /// Attaches a realized window.
    ///
    /// Where a window is attached under the same label already, the call
    /// fails and the manager stays as it was.
    pub fn attach_window(&mut self, window: DetachedWindow<D>) -> (attached: Result<
        Window<D>,
        Error,
    >)
        requires
            old(self).wf(),
        ensures
            final(self).wf(),
            attaches(old(self)@, final(self)@, window, attached),
    {
        let place = self.find(&window.label);
        if place < self.windows.len() {
            return Err(Error::CreateWindow);
        }
        let handle = Window::new(window);
        self.windows.push(handle.clone());
        self.loaded.push(false);
        proof {
            lemma_place_of(old(self)@.windows, window.label@);
            assert(self@.windows =~= old(self)@.windows.push(
                Attached { label: window.label@, window: window.dispatcher.window(), loaded: false },
            ));
        }
        Ok(handle)
    }

    /// Detaches the window labelled `label`: it is closed. The answer says
    /// whether it was attached. The other windows keep their order.
    pub fn detach_window(&mut self, label: &String) -> (was_attached: bool)
        requires
            old(self).wf(),
        ensures
            final(self).wf(),
            was_attached == is_attached(old(self)@.windows, label@),
            was_attached ==> final(self)@ == (ManagerState {
                windows: old(self)@.windows.remove(place_of(old(self)@.windows, label@)),
                ..old(self)@
            }),
            !was_attached ==> final(self)@ == old(self)@,
            !is_attached(final(self)@.windows, label@),
    {
        let place = self.find(label);
        proof {
            lemma_place_of(old(self)@.windows, label@);
        }
        if place < self.windows.len() {
            self.windows.remove(place);
            self.loaded.remove(place);
            proof {
                assert(self@.windows =~= old(self)@.windows.remove(place as int));
                assert forall|i: int, j: int| 0 <= i < j < self@.windows.len() implies (
                #[trigger] self@.windows[i]).label != (#[trigger] self@.windows[j]).label by {
                    let a = if i < place { i } else { i + 1 };
                    let b = if j < place { j } else { j + 1 };
                    assert(self@.windows[i] == old(self)@.windows[a]);
                    assert(self@.windows[j] == old(self)@.windows[b]);
                }
                lemma_place_of(self@.windows, label@);
                if place_of(self@.windows, label@) < self@.windows.len() {
                    let i = place_of(self@.windows, label@);
                    let a = if i < place { i } else { i + 1 };
                    assert(self@.windows[i] == old(self)@.windows[a]);
                    if a < place {
                        assert(old(self)@.windows[a].label != label@);
                    } else {
                        assert(old(self)@.windows[place as int].label != old(self)@.windows[a].label);
                    }
                }
            }
            true
        } else {
            false
        }
    }

    /// Closes the window labelled `label` and detaches it: the label is
    /// free again, and what the page of the window sends from now on is
    /// dropped. The answer is that of the engine; a window that was gone
    /// already is detached all the same. Nothing happens for a label that
    /// is not attached, and the answer is a failure to deliver.
    pub fn close_window(&mut self, runtime: &mut D::Runtime, label: &String) -> (answer: Result<
        (),
        Error,
    >)
        requires
            old(self).wf(),
            old(runtime).in_order(),
        ensures
            final(self).wf(),
            final(runtime).in_order(),
            closes(
                old(self)@,
                final(self)@,
                old(runtime).windows(),
                final(runtime).windows(),
                label@,
                answer,
            ),
    {
        let place = self.find(label);
        proof {
            lemma_place_of(self@.windows, label@);
        }
        if place >= self.windows.len() {
            return Err(Error::FailedToSendMessage);
        }
        let answer = self.windows[place].dispatcher().close(runtime);
        self.detach_window(label);
        answer
    }

    /// A handle on the window labelled `label`, if it is attached.
    pub fn get_window(&self, label: &String) -> (found: Option<Window<D>>)
        requires
            self.wf(),
        ensures
            match found {
                Some(window) => is_attached(self@.windows, label@) && window@.label@ == label@
                    && window == self.handle(place_of(self@.windows, label@)),
                None => !is_attached(self@.windows, label@),
            },
    {
        let place = self.find(label);
        proof {
            lemma_place_of(self@.windows, label@);
        }
        if place < self.windows.len() {
            Some(self.windows[place].clone())
        } else {
            None
        }
    }

    /// The labels of the attached windows, in the order in which they were
    /// attached.
    pub fn labels(&self) -> (labels: Vec<String>)
        requires
            self.wf(),
        ensures
            labels@.len() == self@.windows.len(),
            forall|i: int|
                0 <= i < labels@.len() ==> (#[trigger] labels@[i])@ == self@.windows[i].label,
    {
        let mut labels: Vec<String> = Vec::new();
        let mut i: usize = 0;
        while i < self.windows.len()
            invariant
                i <= self.windows@.len(),
                self@.windows.len() == self.windows@.len(),
                labels@.len() == i,
                forall|k: int| 0 <= k < i ==> (#[trigger] labels@[k])@ == self@.windows[k].label,
            decreases self.windows@.len() - i,
        {
            labels.push(self.windows[i].label().clone());
            i = i + 1;
        }
        labels
    }

    /// Mints a salt for no window in particular.
    pub fn generate_salt(&mut self) -> (salt: String)
        requires
            old(self).wf(),
        ensures
            final(self).wf(),
            final(self)@ == (ManagerState {
                salts: old(self)@.salts.insert(salt@, None),
                ..old(self)@
            }),
    {
        let salt = self.salts.generate(None);
        assert(self@.windows =~= old(self)@.windows);
        salt
    }

    /// Mints a salt for the window labelled `label`. The salt is good until
    /// it is checked, or until a page of that window loads.
    pub fn generate_salt_for(&mut self, label: &String) -> (salt: String)
        requires
            old(self).wf(),
        ensures
            final(self).wf(),
            final(self)@ == (ManagerState {
                salts: old(self)@.salts.insert(salt@, Some(label@)),
                ..old(self)@
            }),
    {
        let salt = self.salts.generate(Some(label.clone()));
        assert(self@.windows =~= old(self)@.windows);
        salt
    }

    /// Checks a salt and uses it up: the answer is yes at most once for a
    /// salt. A token that is no good salt is refused, and nothing changes.
    pub fn verify_salt(&mut self, salt: String) -> (good: bool)
        requires
            old(self).wf(),
        ensures
            final(self).wf(),
            good == old(self)@.salts.contains_key(salt@),
            final(self)@ == (ManagerState {
                salts: old(self)@.salts.remove(salt@),
                ..old(self)@
            }),
    {
        let good = self.salts.verify(&salt);
        assert(self@.windows =~= old(self)@.windows);
        good
    }

    /// Whether a name is left for one more listener.
    pub fn can_listen(&self) -> (room: bool)
        ensures
            room == self.has_room(),
    {
        self.listeners.can_listen()
    }

    /// Registers a listener to `event`, from `window` or from anywhere,
    /// that stays until it is unregistered.
    pub fn listen(&mut self, event: String, window: Option<String>) -> (id: EventHandler)
        requires
            old(self).wf(),
            old(self).has_room(),
        ensures
            final(self).wf(),
            id.0 == old(self)@.next_listener,
            final(self)@ == (ManagerState {
                listeners: old(self)@.listeners.push(
                    Listener { id, event: event@, window: text_of(window), once: false },
                ),
                next_listener: (old(self)@.next_listener + 1) as u64,
                ..old(self)@
            }),
    {
        let id = self.listeners.listen(event, window);
        assert(self@.windows =~= old(self)@.windows);
        id
    }

    /// Registers a listener to `event`, from `window` or from anywhere,
    /// that is unregistered by its first delivery.
    pub fn once(&mut self, event: String, window: Option<String>) -> (id: EventHandler)
        requires
            old(self).wf(),
            old(self).has_room(),
        ensures
            final(self).wf(),
            id.0 == old(self)@.next_listener,
            final(self)@ == (ManagerState {
                listeners: old(self)@.listeners.push(
                    Listener { id, event: event@, window: text_of(window), once: true },
                ),
                next_listener: (old(self)@.next_listener + 1) as u64,
                ..old(self)@
            }),
    {
        let id = self.listeners.once(event, window);
        assert(self@.windows =~= old(self)@.windows);
        id
    }

    /// Unregisters a listener. Nothing happens where none goes by that name.
    pub fn unlisten(&mut self, id: EventHandler)
        requires
            old(self).wf(),
        ensures
            final(self).wf(),
            final(self)@ == (ManagerState {
                listeners: crate::event::without(old(self)@.listeners, id),
                ..old(self)@
            }),
    {
        self.listeners.unlisten(id);
        assert(self@.windows =~= old(self)@.windows);
    }

    /// Works out a dispatch of `event` to the host-side listeners. The page
    /// of no window hears of it.
    ///
    /// The answer is the list of deliveries that the host is to make, one
    /// for each listener that hears the dispatch, in the order in which the
    /// listeners were registered. The one-shot listeners among them are
    /// unregistered by this call.
    pub fn trigger(
        &mut self,
        event: String,
        window: Option<String>,
        data: Option<String>,
    ) -> (deliveries: Vec<Event>)
        requires
            old(self).wf(),
        ensures
            final(self).wf(),
            final(self)@ == (ManagerState {
                listeners: crate::event::kept(old(self)@.listeners, event@, text_of(window)),
                ..old(self)@
            }),
            deliveries@.map_values(|delivery: Event| delivery.id) == crate::event::fired(
                old(self)@.listeners,
                event@,
                text_of(window),
            ),
            forall|k: int| 0 <= k < deliveries@.len() ==> (#[trigger] deliveries@[k]).data == data,
    {
        let deliveries = self.listeners.trigger(&event, &window, &data);
        assert(self@.windows =~= old(self)@.windows);
        deliveries
    }

    /// Takes the news that the page of a window has loaded. `url` is the
    /// address that the page reported, if it reported one.
    pub fn run_on_page_load(&mut self, window: Window<D>, url: Option<String>) -> (routed: Result<
        Route<D>,
        Error,
    >)
        requires
            old(self).wf(),
        ensures
            final(self).wf(),
            page_load_routed(old(self)@, final(self)@, window, text_of(url), routed),
    {
        let place = self.find(window.label());
        proof {
            lemma_place_of(self@.windows, window@.label@);
        }
        if place >= self.windows.len() {
            return Ok(Route::Dropped { label: window.label().clone() });
        }
        match url {
            None => Err(Error::Json),
            Some(address) => {
                let first = !self.loaded[place];
                self.loaded[place] = true;
                self.salts.invalidate(window.label());
                proof {
                    assert(self@.windows =~= old(self)@.windows.update(
                        place as int,
                        Attached { loaded: true, ..old(self)@.windows[place as int] },
                    ));
                    assert forall|i: int, j: int| 0 <= i < j < self@.windows.len() implies (
                    #[trigger] self@.windows[i]).label != (#[trigger] self@.windows[j]).label by {
                        assert(self@.windows[i].label == old(self)@.windows[i].label);
                        assert(self@.windows[j].label == old(self)@.windows[j].label);
                    }
                }
                Ok(
                    Route::PageLoad {
                        window,
                        payload: PageLoadPayload::new(address),
                        handler: self.page_load_handler,
                        first,
                    },
                )
            },
        }
    }

    /// Says where a command for a plugin goes: to the extension point of
    /// its namespace, as the plugin's own command.
    pub fn extend_api(&self, message: InvokeMessage<D>) -> (routed: Result<Route<D>, Error>)
        requires
            self.wf(),
        ensures
            plugin_routed(self@, message, routed),
    {
        let (namespace, own) = split_plugin_command(message.command.as_str());
        match self.plugins.get(&namespace) {
            Some(handler) => {
                let InvokeMessage { window, command: _, payload } = message;
                Ok(
                    Route::Plugin {
                        handler: *handler,
                        message: InvokeMessage { window, command: own, payload },
                    },
                )
            },
            None => Err(Error::UnknownApi),
        }
    }

    /// Says where a command goes that is no page-load news.
    pub fn route(&self, message: InvokeMessage<D>) -> (routed: Result<Route<D>, Error>)
        requires
            self.wf(),
        ensures
            command_routed(self@, message, routed),
    {
        if !self.is_attached(message.window.label()) {
            return Ok(Route::Dropped { label: message.window.label().clone() });
        }
        match &message.payload.tauri_module {
            Some(module) => {
                match self.endpoints.get(module) {
                    Some(handler) => Ok(Route::Endpoint { handler: *handler, message }),
                    None => Err(Error::UnknownApi),
                }
            },
            None => {
                if crate::hooks::is_plugin_command(message.command.as_str()) {
                    self.extend_api(message)
                } else {
                    Ok(Route::Handler { handler: self.invoke_handler, message })
                }
            },
        }
    }
    /// The window that a handle is on, as a target.
    pub open spec fn target_of(window: Window<D>) -> Target {
        Target { label: window@.label@, window: window@.dispatcher.window() }
    }

    /// Handles on the attached windows, in the order in which they were
    /// attached.
    pub fn windows(&self) -> (handles: Vec<Window<D>>)
        requires
            self.wf(),
        ensures
            handles@.map_values(|window: Window<D>| Self::target_of(window)) == all_targets(
                self@.windows,
            ),
            handles@.len() == self@.windows.len(),
            forall|i: int| 0 <= i < handles@.len() ==> #[trigger] handles@[i] == self.handle(i),
    {
        let mut handles: Vec<Window<D>> = Vec::new();
        let mut i: usize = 0;
        while i < self.windows.len()
            invariant
                i <= self.windows@.len(),
                self@.windows.len() == self.windows@.len(),
                handles@.len() == i,
                forall|k: int| 0 <= k < i ==> #[trigger] handles@[k] == self.handle(k),
            decreases self.windows@.len() - i,
        {
            handles.push(self.windows[i].clone());
            i = i + 1;
        }
        assert(handles@.map_values(|window: Window<D>| Self::target_of(window)) =~= all_targets(
            self@.windows,
        ));
        handles
    }

    /// Pushes an event into the page of one window: mints a salt for the
    /// window and sends it the script that tells of the event, with that
    /// salt.
    pub fn emit_to(
        &mut self,
        runtime: &mut D::Runtime,
        window: &Window<D>,
        event: &str,
        payload: &Option<serde_json::Value>,
    ) -> (answer: Result<(), Error>)
        requires
            old(self).wf(),
            old(runtime).in_order(),
        ensures
            final(self).wf(),
            final(runtime).in_order(),
            pushed(
                old(self)@,
                final(self)@,
                old(runtime).windows(),
                final(runtime).windows(),
                seq![Self::target_of(*window)],
                event@,
                *payload,
                answer,
            ),
    {
        let event_js = event_literal(event);
        let payload_js = payload_literal(payload);
        let salt = self.generate_salt_for(window.label());
        let script = notification_script(
            self.event_emit_function_name.as_str(),
            event_js.as_str(),
            payload_js.as_str(),
            salt.as_str(),
        );
        let answer = window.dispatcher().eval_script(runtime, script);
        proof {
            let targets = seq![Self::target_of(*window)];
            let salts = seq![salt@];
            assert(targets.drop_last() =~= Seq::<Target>::empty());
            let start = Pushed { manager: old(self)@, engine: old(runtime).windows(), answer: Ok(()) };
            assert(push_to_each(
                old(self)@,
                old(runtime).windows(),
                targets.drop_last(),
                event@,
                *payload,
                salts.drop_last(),
            ) == start);
            let step = push_to(start, targets.last(), event@, *payload, salt@);
            assert(step.manager == self@);
            assert(step.engine == runtime.windows());
            assert(step.answer == answer);
            assert(push_to_each(old(self)@, old(runtime).windows(), targets, event@, *payload, salts) == (
                Pushed { manager: self@, engine: runtime.windows(), answer }
            ));
        }
        answer
    }

    /// Pushes an event into the pages of the given windows, one after the
    /// other. The first window that is gone ends the run with a failure;
    /// the windows before it have been told.
    pub fn emit_each(
        &mut self,
        runtime: &mut D::Runtime,
        targets: &Vec<Window<D>>,
        event: &str,
        payload: &Option<serde_json::Value>,
    ) -> (answer: Result<(), Error>)
        requires
            old(self).wf(),
            old(runtime).in_order(),
        ensures
            final(self).wf(),
            final(runtime).in_order(),
            pushed(
                old(self)@,
                final(self)@,
                old(runtime).windows(),
                final(runtime).windows(),
                targets@.map_values(|window: Window<D>| Self::target_of(window)),
                event@,
                *payload,
                answer,
            ),
    {
        let event_js = event_literal(event);
        let payload_js = payload_literal(payload);
        let ghost all = targets@.map_values(|window: Window<D>| Self::target_of(window));
        let ghost mut salts: Seq<Seq<char>> = Seq::empty();
        let mut i: usize = 0;
        while i < targets.len()
            invariant
                i <= targets@.len(),
                self.wf(),
                runtime.in_order(),
                all == targets@.map_values(|window: Window<D>| Self::target_of(window)),
                event_js@ == crate::json::json_string(event@),
                payload_js@ == crate::script::payload_text(*payload),
                salts.len() == i,
                push_to_each(
                    old(self)@,
                    old(runtime).windows(),
                    all.take(i as int),
                    event@,
                    *payload,
                    salts,
                )
                    == (Pushed { manager: self@, engine: runtime.windows(), answer: Ok(()) }),
            decreases targets@.len() - i,
        {
            let ghost so_far = Pushed { manager: self@, engine: runtime.windows(), answer: Ok(()) };
            let salt = self.generate_salt_for(targets[i].label());
            let script = notification_script(
                self.event_emit_function_name.as_str(),
                event_js.as_str(),
                payload_js.as_str(),
                salt.as_str(),
            );
            let sent = targets[i].dispatcher().eval_script(runtime, script);
            proof {
                let grown = salts.push(salt@);
                assert(all.take(i + 1).drop_last() =~= all.take(i as int));
                assert(grown.drop_last() =~= salts);
                assert(all.take(i + 1).last() == Self::target_of(targets@[i as int]));
                let step = push_to(so_far, all.take(i + 1).last(), event@, *payload, salt@);
                assert(step.manager == self@);
                assert(step.engine == runtime.windows());
                assert(step.answer == sent);
                assert(push_to_each(
                    old(self)@,
                    old(runtime).windows(),
                    all.take(i + 1),
                    event@,
                    *payload,
                    grown,
                ) == (Pushed { manager: self@, engine: runtime.windows(), answer: sent }));
                salts = grown;
            }
            if sent.is_err() {
                proof {
                    lemma_push_ends_at_failure(
                        old(self)@,
                        old(runtime).windows(),
                        all,
                        event@,
                        *payload,
                        salts,
                        i + 1,
                    );
                }
                return sent;
            }
            i = i + 1;
        }
        proof {
            assert(all.take(i as int) =~= all);
        }
        Ok(())
    }

    /// Pushes an event into the page of every attached window, in the
    /// order in which the windows were attached.
    pub fn emit_all(
        &mut self,
        runtime: &mut D::Runtime,
        event: &str,
        payload: Option<serde_json::Value>,
    ) -> (answer: Result<(), Error>)
        requires
            old(self).wf(),
            old(runtime).in_order(),
        ensures
            final(self).wf(),
            final(runtime).in_order(),
            pushed(
                old(self)@,
                final(self)@,
                old(runtime).windows(),
                final(runtime).windows(),
                all_targets(old(self)@.windows),
                event@,
                payload,
                answer,
            ),
    {
        let targets = self.windows();
        self.emit_each(runtime, &targets, event, &payload)
    }

    /// Picks among the attached windows those for which `filter` says yes,
    /// in the order in which they were attached.
    pub fn select<F: Fn(&Window<D>) -> bool>(&self, filter: F) -> (found: Vec<Window<D>>)
        requires
            self.wf(),
            forall|window: &Window<D>| call_requires(filter, (window,)),
        ensures
            exists|picks: Seq<bool>|
                picks.len() == self@.windows.len() && (forall|i: int|
                    0 <= i < picks.len() ==> call_ensures(
                        filter,
                        (&self.handle(i),),
                        #[trigger] picks[i],
                    )) && found@.map_values(|window: Window<D>| Self::target_of(window)) == picked(
                    all_targets(self@.windows),
                    picks,
                ),
    {
        let mut found: Vec<Window<D>> = Vec::new();
        let ghost mut picks: Seq<bool> = Seq::empty();
        let ghost all = all_targets(self@.windows);
        let mut i: usize = 0;
        while i < self.windows.len()
            invariant
                i <= self.windows@.len(),
                self@.windows.len() == self.windows@.len(),
                all == all_targets(self@.windows),
                forall|window: &Window<D>| call_requires(filter, (window,)),
                picks.len() == i,
                forall|k: int|
                    0 <= k < i ==> call_ensures(filter, (&self.handle(k),), #[trigger] picks[k]),
                found@.map_values(|window: Window<D>| Self::target_of(window)) == picked(
                    all.take(i as int),
                    picks,
                ),
            decreases self.windows@.len() - i,
        {
            let pick = filter(&self.windows[i]);
            proof {
                assert(all.take(i + 1).drop_last() =~= all.take(i as int));
                assert(picks.push(pick).drop_last() =~= picks);
                assert(all.take(i + 1).last() == Self::target_of(self.handle(i as int)));
            }
            if pick {
                found.push(self.windows[i].clone());
                assert(found@.map_values(|window: Window<D>| Self::target_of(window)) =~= picked(
                    all.take(i as int),
                    picks,
                ).push(Self::target_of(self.handle(i as int))));
            }
            proof {
                picks = picks.push(pick);
            }
            i = i + 1;
        }
        proof {
            assert(all.take(i as int) =~= all);
        }
        found
    }

    /// Pushes an event into the page of every attached window for which
    /// `filter` says yes. Which windows these are is settled before the
    /// first of them is told.
    pub fn emit_filter<F: Fn(&Window<D>) -> bool>(
        &mut self,
        runtime: &mut D::Runtime,
        event: &str,
        payload: Option<serde_json::Value>,
        filter: F,
    ) -> (answer: Result<(), Error>)
        requires
            old(self).wf(),
            old(runtime).in_order(),
            forall|window: &Window<D>| call_requires(filter, (window,)),
        ensures
            final(self).wf(),
            final(runtime).in_order(),
            exists|picks: Seq<bool>|
                picks.len() == old(self)@.windows.len() && (forall|i: int|
                    0 <= i < picks.len() ==> call_ensures(
                        filter,
                        (&old(self).handle(i),),
                        #[trigger] picks[i],
                    )) && pushed(
                    old(self)@,
                    final(self)@,
                    old(runtime).windows(),
                    final(runtime).windows(),
                    picked(all_targets(old(self)@.windows), picks),
                    event@,
                    payload,
                    answer,
                ),
    {
        let targets = self.select(filter);
        self.emit_each(runtime, &targets, event, &payload)
    }

    /// Pushes an event into the page of every attached window but the one
    /// labelled `label`.
    pub fn emit_others(
        &mut self,
        runtime: &mut D::Runtime,
        label: &String,
        event: &str,
        payload: Option<serde_json::Value>,
    ) -> (answer: Result<(), Error>)
        requires
            old(self).wf(),
            old(runtime).in_order(),
        ensures
            final(self).wf(),
            final(runtime).in_order(),
            pushed(
                old(self)@,
                final(self)@,
                old(runtime).windows(),
                final(runtime).windows(),
                others(all_targets(old(self)@.windows), label@),
                event@,
                payload,
                answer,
            ),
    {
        let mut targets: Vec<Window<D>> = Vec::new();
        let ghost all = all_targets(self@.windows);
        let mut i: usize = 0;
        while i < self.windows.len()
            invariant
                i <= self.windows@.len(),
                self@.windows.len() == self.windows@.len(),
                all == all_targets(self@.windows),
                targets@.map_values(|window: Window<D>| Self::target_of(window)) == others(
                    all.take(i as int),
                    label@,
                ),
            decreases self.windows@.len() - i,
        {
            proof {
                assert(all.take(i + 1).drop_last() =~= all.take(i as int));
                assert(all.take(i + 1).last() == Self::target_of(self.handle(i as int)));
            }
            if *self.windows[i].label() != *label {
                targets.push(self.windows[i].clone());
                assert(targets@.map_values(|window: Window<D>| Self::target_of(window)) =~= others(
                    all.take(i as int),
                    label@,
                ).push(Self::target_of(self.handle(i as int))));
            }
            i = i + 1;
        }
        proof {
            assert(all.take(i as int) =~= all);
        }
        self.emit_each(runtime, &targets, event, &payload)
    }
}

/// A run of pushes ends at the first push that fails: whatever windows
/// would have followed, the outcome is that of the pushes up to and with
/// the failed one.
pub proof fn lemma_push_ends_at_failure(
    manager: ManagerState,
    engine: Seq<WindowState>,
    targets: Seq<Target>,
    event: Seq<char>,
    payload: Option<serde_json::Value>,
    salts: Seq<Seq<char>>,
    done: int,
)
    requires
        0 <= done <= targets.len(),
        salts.len() == done,
        push_to_each(manager, engine, targets.take(done), event, payload, salts).answer is Err,
    ensures
        exists|all: Seq<Seq<char>>|
            all.len() == targets.len() && #[trigger] push_to_each(
                manager,
                engine,
                targets,
                event,
                payload,
                all,
            ) == push_to_each(manager, engine, targets.take(done), event, payload, salts),
    decreases targets.len() - done,
{
    if done == targets.len() {
        assert(targets.take(done) =~= targets);
    } else {
        let more = salts.push(Seq::empty());
        assert(targets.take(done + 1).drop_last() =~= targets.take(done));
        assert(more.drop_last() =~= salts);
        lemma_push_ends_at_failure(manager, engine, targets, event, payload, more, done + 1);
    }
}

/// Attaching a window never makes the manager hold two
/// windows under one label. Where the label is taken, the attachment fails
/// and the manager is as it was; where it is free, the window is attached
/// under it.
pub proof fn lemma_attach_keeps_one_window_per_label<D: Dispatch>(
    before: ManagerState,
    after: ManagerState,
    window: DetachedWindow<D>,
    answer: Result<Window<D>, Error>,
)
    requires
        one_window_per_label(before.windows),
        attaches(before, after, window, answer),
    ensures
        one_window_per_label(after.windows),
        answer is Err <==> is_attached(before.windows, window.label@),
        answer is Err ==> after == before,
        answer is Ok ==> is_attached(after.windows, window.label@),
{
    lemma_place_of(before.windows, window.label@);
    lemma_place_of(after.windows, window.label@);
    if !is_attached(before.windows, window.label@) {
        assert forall|i: int, j: int| 0 <= i < j < after.windows.len() implies (
        #[trigger] after.windows[i]).label != (#[trigger] after.windows[j]).label by {
            if j < before.windows.len() {
                assert(after.windows[i] == before.windows[i]);
                assert(after.windows[j] == before.windows[j]);
            } else {
                assert(after.windows[i] == before.windows[i]);
            }
        }
        if !is_attached(after.windows, window.label@) {
            assert(after.windows[before.windows.len() as int].label == window.label@);
        }
    }
}

/// A message from an attached window goes to exactly
/// one place or fails, and which of the two is settled by what is
/// registered. A module that has a handler reaches that handler and no
/// other place; a module without one, and a plugin namespace without an
/// extension point, give a routing failure. No message from an attached
/// window is dropped.
pub proof fn lemma_routing_complete<D: Dispatch>(
    state: ManagerState,
    message: InvokeMessage<D>,
    answer: Result<Route<D>, Error>,
)
    requires
        is_attached(state.windows, message.window@.label@),
        command_routed(state, message, answer),
    ensures
        !(answer matches Ok(Route::Dropped { .. })),
        !(answer matches Ok(Route::PageLoad { .. })),
        message.payload.tauri_module matches Some(module) ==> (if state.endpoints.contains_key(
            module@,
        ) {
            answer matches Ok(Route::Endpoint { handler, .. }) && handler
                == state.endpoints[module@]
        } else {
            answer matches Err(Error::UnknownApi)
        }),
        message.payload.tauri_module is None && crate::text::has_prefix(
            message.command@,
            "plugin:"@,
        ) ==> (if state.plugins.contains_key(plugin_namespace(message.command@)) {
            answer matches Ok(Route::Plugin { handler, .. }) && handler
                == state.plugins[plugin_namespace(message.command@)]
        } else {
            answer matches Err(Error::UnknownApi)
        }),
        message.payload.tauri_module is None && !crate::text::has_prefix(
            message.command@,
            "plugin:"@,
        ) ==> (answer matches Ok(Route::Handler { handler, .. }) && handler
            == state.invoke_handler),
        answer is Err ==> answer matches Err(Error::UnknownApi),
{
}

} // verus!
