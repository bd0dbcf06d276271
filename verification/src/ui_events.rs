//! The events of the deferred bus: what a component decides during an
//! input pass and the driver carries out after it.

use vstd::prelude::*;
use crate::app_layer::{AppLayer, AppLayerView};
use crate::component::{Reaction, TerminalEvent, reacted};
use crate::entity::{Exercise, ExerciseView, ID};
use crate::event_dispatcher::{Callback, TermEventDispatcher, term_reaction};
use crate::events::Events;
use crate::model::{Db, DbView};

verus! {

/// Work for the server that keeps the exercises. The driver hands these
/// out; whoever talks to the server carries them out and reports back.
pub enum ControllerRequest {
    /// Fetch all the exercises.
    LoadExercises,
    /// Store a new exercise.
    InsertExercise(Exercise),
    /// Store an exercise in place of the one with its `id`.
    UpdateExercise(Exercise),
    /// Delete the exercise with this `id`.
    RemoveExercise(ID),
}

/// The mathematical value of a `ControllerRequest`.
pub ghost enum ControllerRequestView {
    LoadExercises,
    InsertExercise(ExerciseView),
    UpdateExercise(ExerciseView),
    RemoveExercise(ID),
}

impl View for ControllerRequest {
    type V = ControllerRequestView;

    open spec fn view(&self) -> ControllerRequestView {
        match self {
            ControllerRequest::LoadExercises => ControllerRequestView::LoadExercises,
            ControllerRequest::InsertExercise(e) => ControllerRequestView::InsertExercise(e@),
            ControllerRequest::UpdateExercise(e) => ControllerRequestView::UpdateExercise(e@),
            ControllerRequest::RemoveExercise(id) => ControllerRequestView::RemoveExercise(*id),
        }
    }
}

impl Clone for ControllerRequest {
    fn clone(&self) -> (copy: Self)
        ensures
            copy@ == self@,
    {
        match self {
            ControllerRequest::LoadExercises => ControllerRequest::LoadExercises,
            ControllerRequest::InsertExercise(e) => ControllerRequest::InsertExercise(e.clone()),
            ControllerRequest::UpdateExercise(e) => ControllerRequest::UpdateExercise(e.clone()),
            ControllerRequest::RemoveExercise(id) => ControllerRequest::RemoveExercise(*id),
        }
    }
}

/// An event of the deferred bus.
pub enum UiEvent {
    /// A terminal event, passed on as it came.
    TermEvent(TerminalEvent),
    /// A layer to put on top of the stack.
    AddLayer(AppLayer),
    /// The menu selection moved to the tab with this index.
    MenuSwitched(usize),
    /// Work for the server.
    Request(ControllerRequest),
}

/// The mathematical value of a `UiEvent`.
pub ghost enum UiEventView {
    TermEvent(TerminalEvent),
    AddLayer(AppLayerView),
    MenuSwitched(usize),
    Request(ControllerRequestView),
}

impl View for UiEvent {
    type V = UiEventView;

    open spec fn view(&self) -> UiEventView {
        match self {
            UiEvent::TermEvent(event) => UiEventView::TermEvent(*event),
            UiEvent::AddLayer(layer) => UiEventView::AddLayer(layer@),
            UiEvent::MenuSwitched(index) => UiEventView::MenuSwitched(*index),
            UiEvent::Request(request) => UiEventView::Request(request@),
        }
    }
}

/// The deferred bus.
pub type UiEvents = Events<UiEvent>;

/// The events waiting on the bus, oldest first.
pub open spec fn pending(bus: &UiEvents) -> Seq<UiEventView> {
    bus@.map_values(|event: UiEvent| event@)
}

/// Putting an event on the bus appends its value to the waiting ones.
pub proof fn lemma_pending_push(before: Seq<UiEvent>, event: UiEvent)
    ensures
        before.push(event).map_values(|event: UiEvent| event@) == before.map_values(|event: UiEvent| event@).push(
            event@,
        ),
{
    assert(before.push(event).map_values(|event: UiEvent| event@) =~= before.map_values(
        |event: UiEvent| event@,
    ).push(event@));
}

/// The sending side of the bus, for a component that may put events on it.
pub struct UiEventSender {}

impl UiEventSender {
    /// A sender.
    pub fn new() -> (sender: Self) {
        Self {}
    }

    /// Asks the driver to put `layer` on top of the stack.
    pub fn send_add_layer_event(&self, bus: &mut UiEvents, layer: AppLayer)
        ensures
            pending(final(bus)) == pending(old(bus)).push(UiEventView::AddLayer(layer@)),
    {
        proof {
            lemma_pending_push(bus@, UiEvent::AddLayer(layer));
        }
        bus.add_event(UiEvent::AddLayer(layer));
    }

    /// Tells that the menu selection moved to the tab with index `index`.
    pub fn send_menu_switched_event(&self, bus: &mut UiEvents, index: usize)
        ensures
            pending(final(bus)) == pending(old(bus)).push(UiEventView::MenuSwitched(index)),
    {
        proof {
            lemma_pending_push(bus@, UiEvent::MenuSwitched(index));
        }
        bus.add_event(UiEvent::MenuSwitched(index));
    }

    /// Hands work for the server to the driver.
    pub fn send_request(&self, bus: &mut UiEvents, request: ControllerRequest)
        ensures
            pending(final(bus)) == pending(old(bus)).push(UiEventView::Request(request@)),
    {
        proof {
            lemma_pending_push(bus@, UiEvent::Request(request));
        }
        bus.add_event(UiEvent::Request(request));
    }
}

/// What a component does with an event of the bus: a terminal event goes
/// through the dispatch protocol, a menu switch is a callback of its own,
/// and the other kinds are not for components.
pub open spec fn ui_reaction<T: TermEventDispatcher>(v: T::V, event: UiEvent, db: DbView) -> Reaction<T::V> {
    match event {
        UiEvent::TermEvent(event) => term_reaction::<T>(v, event, db),
        UiEvent::MenuSwitched(index) => T::reaction(v, Callback::MenuSwitched(index), db),
        _ => Reaction::ignored(v),
    }
}

/// A component that answers events of the bus.
pub trait UiEventDispatcher: TermEventDispatcher {
    /// Finds the callback of an event of the bus and answers it. An
    /// event without a callback is not consumed and changes nothing.
    fn dispatch_ui_event(&mut self, event: &UiEvent, db: &Db, bus: &mut UiEvents) -> (consumed: bool)
        ensures
            reacted(
                ui_reaction::<Self>(old(self)@, *event, db@),
                consumed,
                final(self)@,
                pending(old(bus)),
                pending(final(bus)),
            ),
    {
        match event {
            UiEvent::TermEvent(event) => self.dispatch_term_event(event, db, bus),
            UiEvent::MenuSwitched(index) => self.on_callback(&Callback::MenuSwitched(*index), db, bus),
            _ => false,
        }
    }
}

} // verus!
