//! The event bus: who listens to which event, and who is told of a
//! dispatch.
//!
//! The bus keeps no callback. A listener is registered under an id, and the
//! host keeps the callback under the same id. For a dispatch the bus works
//! out the whole list of deliveries before any callback runs, so that a
//! callback that registers or unregisters listeners changes nothing of the
//! pass it runs in.

use crate::text::text_of;
use vstd::prelude::*;

verus! {

/// Names one registration of a listener. No two registrations of a bus get
/// the same name.
#[derive(Clone, Copy, Debug, PartialEq, Eq, Structural)]
pub struct EventHandler(pub u64);

/// One delivery: what the callback of one listener is called with.
#[derive(Debug)]
pub struct Event {
    /// The registration that the delivery is for.
    pub id: EventHandler,
    /// What the event carries.
    pub data: Option<String>,
}

/// One registration, as the bus holds it.
pub struct Listener {
    /// The name of the registration.
    pub id: EventHandler,
    /// The event that is listened to.
    pub event: Seq<char>,
    /// The window whose events are listened to; events from anywhere where
    /// there is none.
    pub window: Option<Seq<char>>,
    /// Whether the registration ends with its first delivery.
    pub once: bool,
}

/// Whether a listener is told of a dispatch of `event` that is attributed
/// to `window`. A listener with a scope hears only what is attributed to
/// that very window; a listener without one hears the event from anywhere.
pub open spec fn hears(listener: Listener, event: Seq<char>, window: Option<Seq<char>>) -> bool {
    listener.event == event && (listener.window is None || listener.window == window)
}

/// Whether a dispatch ends a registration.
pub open spec fn spent(listener: Listener, event: Seq<char>, window: Option<Seq<char>>) -> bool {
    listener.once && hears(listener, event, window)
}

/// The registrations that are told of a dispatch, in the order in which
/// they were made.
pub open spec fn fired(
    listeners: Seq<Listener>,
    event: Seq<char>,
    window: Option<Seq<char>>,
) -> Seq<
    EventHandler,
>
    decreases listeners.len(),
{
    if listeners.len() == 0 {
        Seq::empty()
    } else {
        let earlier = fired(listeners.drop_last(), event, window);
        if hears(listeners.last(), event, window) {
            earlier.push(listeners.last().id)
        } else {
            earlier
        }
    }
}

/// The registrations that are left after a dispatch, in their order: all
/// but the one-shot ones that were told of it.
pub open spec fn kept(listeners: Seq<Listener>, event: Seq<char>, window: Option<Seq<char>>) -> Seq<
    Listener,
>
    decreases listeners.len(),
{
    if listeners.len() == 0 {
        Seq::empty()
    } else {
        let earlier = kept(listeners.drop_last(), event, window);
        if spent(listeners.last(), event, window) {
            earlier
        } else {
            earlier.push(listeners.last())
        }
    }
}

/// The registrations without the one named `id`, in their order.
pub open spec fn without(listeners: Seq<Listener>, id: EventHandler) -> Seq<Listener>
    decreases listeners.len(),
{
    if listeners.len() == 0 {
        Seq::empty()
    } else {
        let earlier = without(listeners.drop_last(), id);
        if listeners.last().id == id {
            earlier
        } else {
            earlier.push(listeners.last())
        }
    }
}

/// Whether a registration named `id` is among `listeners`.
pub open spec fn registered(listeners: Seq<Listener>, id: EventHandler) -> bool {
    exists|i: int| 0 <= i < listeners.len() && (#[trigger] listeners[i]).id == id
}

/// Whether every registration has a name of its own, below `next`.
pub open spec fn names_in_order(listeners: Seq<Listener>, next: u64) -> bool {
    &&& forall|i: int| 0 <= i < listeners.len() ==> (#[trigger] listeners[i]).id.0 < next
    &&& forall|i: int, j: int|
        0 <= i < j < listeners.len() ==> (#[trigger] listeners[i]).id != (
        #[trigger] listeners[j]).id
}

#[derive(Debug)]
struct Registration {
    id: EventHandler,
    event: String,
    window: Option<String>,
    once: bool,
}

impl Registration {
    spec fn listener(self) -> Listener {
        Listener {
            id: self.id,
            event: self.event@,
            window: match self.window {
                Some(label) => Some(label@),
                None => None,
            },
            once: self.once,
        }
    }

    fn hears(&self, event: &String, window: &Option<String>) -> (told: bool)
        ensures
            told == hears(self.listener(), event@, text_of(*window)),
    {
        if self.event != *event {
            return false;
        }
        match &self.window {
            None => true,
            Some(scope) => match window {
                Some(label) => *scope == *label,
                None => false,
            },
        }
    }
}

impl Clone for Registration {
    fn clone(&self) -> (copy: Self)
        ensures
            copy == *self,
    {
        Registration {
            id: self.id,
            event: self.event.clone(),
            window: match &self.window {
                Some(label) => Some(label.clone()),
                None => None,
            },
            once: self.once,
        }
    }
}

/// The registry of listeners.
#[derive(Debug)]
pub struct Listeners {
    handlers: Vec<Registration>,
    next: u64,
}

impl View for Listeners {
    type V = Seq<Listener>;

    closed spec fn view(&self) -> Seq<Listener> {
        self.handlers@.map_values(|registration: Registration| registration.listener())
    }
}

impl Listeners {
    /// The name that the next registration gets.
    pub closed spec fn next(&self) -> u64 {
        self.next
    }

    /// Whether the registry is in order: every registration has a name of
    /// its own, below the next one to be given.
    pub open spec fn wf(&self) -> bool {
        names_in_order(self@, self.next())
    }

    /// Whether a name is left for one more registration.
    pub open spec fn has_room(&self) -> bool {
        self.next() < u64::MAX
    }

    /// A registry with no listener.
    pub fn new() -> (listeners: Listeners)
        ensures
            listeners.wf(),
            listeners@ == Seq::<Listener>::empty(),
            listeners.next() == 0,
    {
        let listeners = Listeners { handlers: Vec::new(), next: 0 };
        assert(listeners@ =~= Seq::<Listener>::empty());
        listeners
    }

    /// Whether a name is left for one more registration.
    pub fn can_listen(&self) -> (room: bool)
        ensures
            room == self.has_room(),
    {
        self.next < u64::MAX
    }

    /// How many listeners are registered.
    pub fn len(&self) -> (count: usize)
        ensures
            count == self@.len(),
    {
        self.handlers.len()
    }

    fn register(&mut self, event: String, window: Option<String>, once: bool) -> (id: EventHandler)
        requires
            old(self).wf(),
            old(self).has_room(),
        ensures
            final(self).wf(),
            id.0 == old(self).next(),
            final(self).next() == old(self).next() + 1,
            final(self)@ == old(self)@.push(
                Listener { id, event: event@, window: text_of(window), once },
            ),
    {
        let id = EventHandler(self.next);
        self.handlers.push(Registration { id, event, window, once });
        self.next = self.next + 1;
        assert(self@ =~= old(self)@.push(
            Listener { id, event: event@, window: text_of(window), once },
        ));
        id
    }

    /// Registers a listener that stays until it is unregistered. It comes
    /// after all that are registered already.
    pub fn listen(&mut self, event: String, window: Option<String>) -> (id: EventHandler)
        requires
            old(self).wf(),
            old(self).has_room(),
        ensures
            final(self).wf(),
            id.0 == old(self).next(),
            final(self).next() == old(self).next() + 1,
            final(self)@ == old(self)@.push(
                Listener { id, event: event@, window: text_of(window), once: false },
            ),
    {
        self.register(event, window, false)
    }

    /// Registers a listener that is unregistered by its first delivery. It
    /// comes after all that are registered already.
    pub fn once(&mut self, event: String, window: Option<String>) -> (id: EventHandler)
        requires
            old(self).wf(),
            old(self).has_room(),
        ensures
            final(self).wf(),
            id.0 == old(self).next(),
            final(self).next() == old(self).next() + 1,
            final(self)@ == old(self)@.push(
                Listener { id, event: event@, window: text_of(window), once: true },
            ),
    {
        self.register(event, window, true)
    }

    /// Unregisters a listener. Nothing happens where none goes by that name.
    pub fn unlisten(&mut self, id: EventHandler)
        requires
            old(self).wf(),
        ensures
            final(self).wf(),
            final(self).next() == old(self).next(),
            final(self)@ == without(old(self)@, id),
    {
        let mut left: Vec<Registration> = Vec::new();
        let mut i: usize = 0;
        while i < self.handlers.len()
            invariant
                i <= self.handlers@.len(),
                *self == *old(self),
                left@.map_values(|registration: Registration| registration.listener()) == without(
                    self@.take(i as int),
                    id,
                ),
            decreases self.handlers@.len() - i,
        {
            proof {
                assert(self@.take(i + 1).drop_last() =~= self@.take(i as int));
            }
            if self.handlers[i].id != id {
                left.push(self.handlers[i].clone());
                assert(left@.map_values(|registration: Registration| registration.listener())
                    =~= without(self@.take(i as int), id).push(self@[i as int]));
            }
            i = i + 1;
        }
        proof {
            assert(self@.take(i as int) =~= self@);
            lemma_without_in_order(old(self)@, id, old(self).next());
        }
        self.handlers = left;
    }

    /// Works out a dispatch of `event`, attributed to `window` or to none.
    ///
    /// The answer is the list of deliveries that the host is to make, one
    /// for each listener that hears the dispatch, in the order in which the
    /// listeners were registered, each with the data of the dispatch. The
    /// one-shot listeners among them are unregistered by this call.
    pub fn trigger(
        &mut self,
        event: &String,
        window: &Option<String>,
        data: &Option<String>,
    ) -> (deliveries: Vec<Event>)
        requires
            old(self).wf(),
        ensures
            final(self).wf(),
            final(self).next() == old(self).next(),
            final(self)@ == kept(old(self)@, event@, text_of(*window)),
            deliveries@.map_values(|delivery: Event| delivery.id) == fired(
                old(self)@,
                event@,
                text_of(*window),
            ),
            forall|k: int| 0 <= k < deliveries@.len() ==> (#[trigger] deliveries@[k]).data == *data,
    {
        let ghost scope = text_of(*window);
        let mut left: Vec<Registration> = Vec::new();
        let mut deliveries: Vec<Event> = Vec::new();
        let mut i: usize = 0;
        while i < self.handlers.len()
            invariant
                i <= self.handlers@.len(),
                *self == *old(self),
                scope == text_of(*window),
                left@.map_values(|registration: Registration| registration.listener()) == kept(
                    self@.take(i as int),
                    event@,
                    scope,
                ),
                deliveries@.map_values(|delivery: Event| delivery.id) == fired(
                    self@.take(i as int),
                    event@,
                    scope,
                ),
                forall|k: int|
                    0 <= k < deliveries@.len() ==> (#[trigger] deliveries@[k]).data == *data,
            decreases self.handlers@.len() - i,
        {
            proof {
                assert(self@.take(i + 1).drop_last() =~= self@.take(i as int));
            }
            let told = self.handlers[i].hears(event, window);
            if told {
                let carried = match data {
                    Some(text) => Some(text.clone()),
                    None => None,
                };
                deliveries.push(Event { id: self.handlers[i].id, data: carried });
                assert(deliveries@.map_values(|delivery: Event| delivery.id) =~= fired(
                    self@.take(i as int),
                    event@,
                    scope,
                ).push(self@[i as int].id));
            }
            if !(told && self.handlers[i].once) {
                left.push(self.handlers[i].clone());
                assert(left@.map_values(|registration: Registration| registration.listener())
                    =~= kept(self@.take(i as int), event@, scope).push(self@[i as int]));
            }
            i = i + 1;
        }
        proof {
            assert(self@.take(i as int) =~= self@);
            lemma_kept_in_order(old(self)@, event@, scope, old(self).next());
        }
        self.handlers = left;
        deliveries
    }
}

/// What is left after a dispatch was registered before it, in the same
/// order.
pub proof fn lemma_kept_in_order(
    listeners: Seq<Listener>,
    event: Seq<char>,
    window: Option<Seq<char>>,
    next: u64,
)
    requires
        names_in_order(listeners, next),
    ensures
        names_in_order(kept(listeners, event, window), next),
        forall|id: EventHandler| #[trigger]
            registered(kept(listeners, event, window), id) ==> registered(listeners, id),
    decreases listeners.len(),
{
    if listeners.len() > 0 {
        let earlier = listeners.drop_last();
        lemma_kept_in_order(earlier, event, window, next);
        let left = kept(listeners, event, window);
        assert forall|id: EventHandler| #[trigger] registered(left, id) implies registered(
            listeners,
            id,
        ) by {
            let i = choose|i: int| 0 <= i < left.len() && (#[trigger] left[i]).id == id;
            if i < kept(earlier, event, window).len() {
                assert(kept(earlier, event, window)[i].id == id);
                assert(registered(kept(earlier, event, window), id));
                let j = choose|j: int| 0 <= j < earlier.len() && (#[trigger] earlier[j]).id == id;
                assert(listeners[j].id == id);
            } else {
                assert(listeners[listeners.len() - 1].id == id);
            }
        }
        assert forall|i: int, j: int| 0 <= i < j < left.len() implies (#[trigger] left[i]).id != (
        #[trigger] left[j]).id by {
            if j == kept(earlier, event, window).len() {
                assert(kept(earlier, event, window)[i].id == left[i].id);
                assert(registered(kept(earlier, event, window), left[i].id));
                let k = choose|k: int|
                    0 <= k < earlier.len() && (#[trigger] earlier[k]).id == left[i].id;
                assert(listeners[k].id == left[i].id);
                assert(listeners[listeners.len() - 1] == left[j]);
            }
        }
        assert forall|i: int| 0 <= i < left.len() implies (#[trigger] left[i]).id.0 < next by {
            if i == kept(earlier, event, window).len() {
                assert(listeners[listeners.len() - 1] == left[i]);
            }
        }
    }
}

/// What is left after a listener was unregistered was registered before, in
/// the same order, and the unregistered one is not among it.
pub proof fn lemma_without_in_order(listeners: Seq<Listener>, id: EventHandler, next: u64)
    requires
        names_in_order(listeners, next),
    ensures
        names_in_order(without(listeners, id), next),
        !registered(without(listeners, id), id),
        forall|other: EventHandler| #[trigger]
            registered(without(listeners, id), other) ==> registered(listeners, other),
        forall|other: EventHandler|
            other != id && registered(listeners, other) ==> #[trigger] registered(
                without(listeners, id),
                other,
            ),
    decreases listeners.len(),
{
    if listeners.len() > 0 {
        let earlier = listeners.drop_last();
        let last = listeners.last();
        lemma_without_in_order(earlier, id, next);
        let left = without(listeners, id);
        let before = without(earlier, id);
        assert forall|other: EventHandler| #[trigger] registered(left, other) implies registered(
            listeners,
            other,
        ) by {
            let i = choose|i: int| 0 <= i < left.len() && (#[trigger] left[i]).id == other;
            if i < before.len() {
                assert(before[i].id == other);
                assert(registered(before, other));
                let j = choose|j: int|
                    0 <= j < earlier.len() && (#[trigger] earlier[j]).id == other;
                assert(listeners[j].id == other);
            } else {
                assert(listeners[listeners.len() - 1].id == other);
            }
        }
        assert forall|other: EventHandler|
            other != id && registered(listeners, other) implies #[trigger] registered(
            left,
            other,
        ) by {
            let j = choose|j: int| 0 <= j < listeners.len() && (#[trigger] listeners[j]).id == other;
            if j < earlier.len() {
                assert(earlier[j].id == other);
                assert(registered(earlier, other));
                assert(registered(before, other));
                let i = choose|i: int| 0 <= i < before.len() && (#[trigger] before[i]).id == other;
                assert(left[i].id == other);
            } else {
                assert(left[left.len() - 1].id == other);
            }
        }
        if registered(left, id) {
            let i = choose|i: int| 0 <= i < left.len() && (#[trigger] left[i]).id == id;
            if i < before.len() {
                assert(before[i].id == id);
                assert(registered(before, id));
            }
        }
        assert forall|i: int, j: int| 0 <= i < j < left.len() implies (#[trigger] left[i]).id != (
        #[trigger] left[j]).id by {
            if j == before.len() {
                assert(before[i].id == left[i].id);
                assert(registered(before, left[i].id));
                let k = choose|k: int|
                    0 <= k < earlier.len() && (#[trigger] earlier[k]).id == left[i].id;
                assert(listeners[k].id == left[i].id);
                assert(listeners[listeners.len() - 1] == left[j]);
            }
        }
        assert forall|i: int| 0 <= i < left.len() implies (#[trigger] left[i]).id.0 < next by {
            if i == before.len() {
                assert(listeners[listeners.len() - 1] == left[i]);
            }
        }
    }
}

/// Only listeners that hear a dispatch are told of it: every delivery is
/// for a registered listener that hears the dispatch.
pub proof fn lemma_fired_hears(
    listeners: Seq<Listener>,
    event: Seq<char>,
    window: Option<Seq<char>>,
    id: EventHandler,
)
    requires
        fired(listeners, event, window).contains(id),
    ensures
        exists|i: int|
            0 <= i < listeners.len() && (#[trigger] listeners[i]).id == id && hears(
                listeners[i],
                event,
                window,
            ),
    decreases listeners.len(),
{
    if listeners.len() > 0 {
        let earlier = listeners.drop_last();
        let told = fired(listeners, event, window);
        let k = choose|k: int| 0 <= k < told.len() && told[k] == id;
        if k < fired(earlier, event, window).len() {
            assert(fired(earlier, event, window)[k] == id);
            lemma_fired_hears(earlier, event, window, id);
            let i = choose|i: int|
                0 <= i < earlier.len() && (#[trigger] earlier[i]).id == id && hears(
                    earlier[i],
                    event,
                    window,
                );
            assert(listeners[i].id == id && hears(listeners[i], event, window));
        } else {
            let last = listeners.len() - 1;
            assert(listeners[last].id == id && hears(listeners[last], event, window));
        }
    }
}

/// A listener registered for the window labelled `scope`
/// gets no delivery from a dispatch that is attributed to another window,
/// or to none.
pub proof fn lemma_scoped_listener_hears_only_its_window(
    listeners: Seq<Listener>,
    next: u64,
    at: int,
    scope: Seq<char>,
    event: Seq<char>,
    window: Option<Seq<char>>,
)
    requires
        names_in_order(listeners, next),
        0 <= at < listeners.len(),
        listeners[at].window == Some(scope),
        window != Some(scope),
    ensures
        !fired(listeners, event, window).contains(listeners[at].id),
{
    let id = listeners[at].id;
    if fired(listeners, event, window).contains(id) {
        lemma_fired_hears(listeners, event, window, id);
        let i = choose|i: int|
            0 <= i < listeners.len() && (#[trigger] listeners[i]).id == id && hears(
                listeners[i],
                event,
                window,
            );
        if i < at {
            assert(listeners[i].id != listeners[at].id);
        } else if at < i {
            assert(listeners[at].id != listeners[i].id);
        }
    }
}

/// How many of the deliveries `told` are for the listener named `id`.
pub open spec fn times_told(told: Seq<EventHandler>, id: EventHandler) -> nat
    decreases told.len(),
{
    if told.len() == 0 {
        0
    } else {
        times_told(told.drop_last(), id) + if told.last() == id {
            1nat
        } else {
            0nat
        }
    }
}

/// A listener that is told at all is among the deliveries.
pub proof fn lemma_told_is_among(told: Seq<EventHandler>, id: EventHandler)
    ensures
        times_told(told, id) > 0 <==> told.contains(id),
    decreases told.len(),
{
    if told.len() > 0 {
        lemma_told_is_among(told.drop_last(), id);
        if told.contains(id) {
            let i = choose|i: int| 0 <= i < told.len() && told[i] == id;
            if i < told.len() - 1 {
                assert(told.drop_last()[i] == id);
            }
        }
        if told.drop_last().contains(id) {
            let i = choose|i: int| 0 <= i < told.drop_last().len() && told.drop_last()[i] == id;
            assert(told[i] == id);
        }
        if told.last() == id {
            assert(told[told.len() - 1] == id);
        }
    }
}

/// A listener that hears a dispatch gets exactly one delivery from it.
pub proof fn lemma_hearing_listener_fires_once(
    listeners: Seq<Listener>,
    next: u64,
    at: int,
    event: Seq<char>,
    window: Option<Seq<char>>,
)
    requires
        names_in_order(listeners, next),
        0 <= at < listeners.len(),
        hears(listeners[at], event, window),
    ensures
        times_told(fired(listeners, event, window), listeners[at].id) == 1,
    decreases listeners.len(),
{
    let id = listeners[at].id;
    let earlier = listeners.drop_last();
    let last = listeners.len() - 1;
    assert(names_in_order(earlier, next)) by {
        assert forall|i: int| 0 <= i < earlier.len() implies (#[trigger] earlier[i]).id.0
            < next by {
            assert(earlier[i] == listeners[i]);
        }
        assert forall|i: int, j: int| 0 <= i < j < earlier.len() implies (
        #[trigger] earlier[i]).id != (#[trigger] earlier[j]).id by {
            assert(earlier[i] == listeners[i] && earlier[j] == listeners[j]);
        }
    }
    if at < last {
        lemma_hearing_listener_fires_once(earlier, next, at, event, window);
        assert(earlier[at] == listeners[at]);
        assert(listeners[at].id != listeners[last].id);
        if hears(listeners.last(), event, window) {
            assert(fired(listeners, event, window).drop_last() =~= fired(earlier, event, window));
        }
    } else {
        lemma_told_is_among(fired(earlier, event, window), id);
        if fired(earlier, event, window).contains(id) {
            lemma_fired_hears(earlier, event, window, id);
            let i = choose|i: int|
                0 <= i < earlier.len() && (#[trigger] earlier[i]).id == id && hears(
                    earlier[i],
                    event,
                    window,
                );
            assert(listeners[i].id != listeners[last].id);
        }
        assert(fired(listeners, event, window).drop_last() =~= fired(earlier, event, window));
    }
}

/// A one-shot listener that hears a dispatch is unregistered
/// by it, and a listener that is not registered gets no delivery, whatever
/// is dispatched afterwards. So a one-shot listener is told of at most one
/// dispatch.
pub proof fn lemma_spent_listener_is_unregistered(
    listeners: Seq<Listener>,
    next: u64,
    at: int,
    event: Seq<char>,
    window: Option<Seq<char>>,
    later_event: Seq<char>,
    later_window: Option<Seq<char>>,
)
    requires
        names_in_order(listeners, next),
        0 <= at < listeners.len(),
        listeners[at].once,
        hears(listeners[at], event, window),
    ensures
        !registered(kept(listeners, event, window), listeners[at].id),
        !fired(kept(listeners, event, window), later_event, later_window).contains(
            listeners[at].id,
        ),
{
    let id = listeners[at].id;
    let left = kept(listeners, event, window);
    lemma_kept_drops_spent(listeners, next, at, event, window);
    if fired(left, later_event, later_window).contains(id) {
        lemma_fired_hears(left, later_event, later_window, id);
    }
}

/// A one-shot listener that hears a dispatch is not among what the dispatch
/// leaves.
proof fn lemma_kept_drops_spent(
    listeners: Seq<Listener>,
    next: u64,
    at: int,
    event: Seq<char>,
    window: Option<Seq<char>>,
)
    requires
        names_in_order(listeners, next),
        0 <= at < listeners.len(),
        spent(listeners[at], event, window),
    ensures
        !registered(kept(listeners, event, window), listeners[at].id),
    decreases listeners.len(),
{
    let id = listeners[at].id;
    let earlier = listeners.drop_last();
    let last = listeners.len() - 1;
    let left = kept(listeners, event, window);
    let before = kept(earlier, event, window);
    assert(names_in_order(earlier, next)) by {
        assert forall|i: int| 0 <= i < earlier.len() implies (#[trigger] earlier[i]).id.0
            < next by {
            assert(earlier[i] == listeners[i]);
        }
        assert forall|i: int, j: int| 0 <= i < j < earlier.len() implies (
        #[trigger] earlier[i]).id != (#[trigger] earlier[j]).id by {
            assert(earlier[i] == listeners[i] && earlier[j] == listeners[j]);
        }
    }
    lemma_kept_in_order(earlier, event, window, next);
    if at < last {
        assert(earlier[at] == listeners[at]);
        lemma_kept_drops_spent(earlier, next, at, event, window);
        if registered(left, id) {
            let i = choose|i: int| 0 <= i < left.len() && (#[trigger] left[i]).id == id;
            if i < before.len() {
                assert(before[i].id == id);
                assert(registered(before, id));
            } else {
                assert(listeners[at].id != listeners[last].id);
            }
        }
    } else {
        if registered(left, id) {
            let i = choose|i: int| 0 <= i < left.len() && (#[trigger] left[i]).id == id;
            assert(before[i].id == id);
            assert(registered(before, id));
            let j = choose|j: int| 0 <= j < earlier.len() && (#[trigger] earlier[j]).id == id;
            assert(listeners[j].id != listeners[last].id);
        }
    }
}

/// How many deliveries the listener named `id` gets from a run of
/// dispatches, each worked out on what the one before it left.
pub open spec fn deliveries_to(
    listeners: Seq<Listener>,
    dispatches: Seq<(Seq<char>, Option<Seq<char>>)>,
    id: EventHandler,
) -> nat
    decreases dispatches.len(),
{
    if dispatches.len() == 0 {
        0
    } else {
        let first = dispatches.first();
        times_told(fired(listeners, first.0, first.1), id) + deliveries_to(
            kept(listeners, first.0, first.1),
            dispatches.drop_first(),
            id,
        )
    }
}

/// A listener that is not registered gets no delivery from any run of
/// dispatches.
pub proof fn lemma_unregistered_hears_nothing(
    listeners: Seq<Listener>,
    next: u64,
    dispatches: Seq<(Seq<char>, Option<Seq<char>>)>,
    id: EventHandler,
)
    requires
        names_in_order(listeners, next),
        !registered(listeners, id),
    ensures
        deliveries_to(listeners, dispatches, id) == 0,
    decreases dispatches.len(),
{
    if dispatches.len() > 0 {
        let first = dispatches.first();
        let told = fired(listeners, first.0, first.1);
        lemma_told_is_among(told, id);
        if told.contains(id) {
            lemma_fired_hears(listeners, first.0, first.1, id);
        }
        lemma_kept_in_order(listeners, first.0, first.1, next);
        lemma_unregistered_hears_nothing(
            kept(listeners, first.0, first.1),
            next,
            dispatches.drop_first(),
            id,
        );
    }
}

/// From any run of dispatches, however many of them it
/// would hear, a one-shot listener gets at most one delivery.
pub proof fn lemma_once_listener_hears_at_most_one(
    listeners: Seq<Listener>,
    next: u64,
    at: int,
    dispatches: Seq<(Seq<char>, Option<Seq<char>>)>,
)
    requires
        names_in_order(listeners, next),
        0 <= at < listeners.len(),
        listeners[at].once,
    ensures
        deliveries_to(listeners, dispatches, listeners[at].id) <= 1,
    decreases dispatches.len(),
{
    if dispatches.len() > 0 {
        let id = listeners[at].id;
        let first = dispatches.first();
        let left = kept(listeners, first.0, first.1);
        lemma_kept_in_order(listeners, first.0, first.1, next);
        if hears(listeners[at], first.0, first.1) {
            lemma_hearing_listener_fires_once(listeners, next, at, first.0, first.1);
            lemma_kept_drops_spent(listeners, next, at, first.0, first.1);
            lemma_unregistered_hears_nothing(left, next, dispatches.drop_first(), id);
        } else {
            let told = fired(listeners, first.0, first.1);
            lemma_told_is_among(told, id);
            if told.contains(id) {
                lemma_fired_hears(listeners, first.0, first.1, id);
                let i = choose|i: int|
                    0 <= i < listeners.len() && (#[trigger] listeners[i]).id == id && hears(
                        listeners[i],
                        first.0,
                        first.1,
                    );
                if i < at {
                    assert(listeners[i].id != listeners[at].id);
                } else if at < i {
                    assert(listeners[at].id != listeners[i].id);
                }
            }
            lemma_unspent_listener_stays(listeners, at, first.0, first.1);
            let place = choose|place: int| 0 <= place < left.len() && left[place] == listeners[at];
            lemma_once_listener_hears_at_most_one(left, next, place, dispatches.drop_first());
        }
    }
}

/// A listener that a dispatch does not end is among what the dispatch
/// leaves.
pub proof fn lemma_unspent_listener_stays(
    listeners: Seq<Listener>,
    at: int,
    event: Seq<char>,
    window: Option<Seq<char>>,
)
    requires
        0 <= at < listeners.len(),
        !spent(listeners[at], event, window),
    ensures
        registered(kept(listeners, event, window), listeners[at].id),
        kept(listeners, event, window).contains(listeners[at]),
    decreases listeners.len(),
{
    let earlier = listeners.drop_last();
    let last = listeners.len() - 1;
    let left = kept(listeners, event, window);
    let before = kept(earlier, event, window);
    if at < last {
        assert(earlier[at] == listeners[at]);
        lemma_unspent_listener_stays(earlier, at, event, window);
        let i = choose|i: int| 0 <= i < before.len() && before[i] == listeners[at];
        assert(left[i] == listeners[at]);
    } else {
        assert(left[left.len() - 1] == listeners[at]);
    }
}

} // verus!
