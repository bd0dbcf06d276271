//! The layers this application stacks.

use vstd::prelude::*;
use crate::component::{Component, EventComponent, Reaction, TerminalEvent};
use crate::event_dispatcher::{Callback, KeyEventDispatcher, TermEventDispatcher};
use crate::layer::Layer;
use crate::layout::Rect;
use crate::exercise_editor::{UiExerciseEditor, UiExerciseEditorView};
use crate::main_ui_layer::{MainUiLayer, MainUiLayerView};
use crate::message_box::{UiMessageBox, UiMessageBoxView};
use crate::model::{Db, DbView};
use crate::render::{RenderFrame, RenderOpView};
use crate::theme::UiTheme;
use crate::ui_events::{UiEventDispatcher, UiEvents};

verus! {

/// One of the layers of the application. The set is closed: a layer of
/// another kind cannot be put on the stack.
pub enum AppLayer {
    /// The main layer.
    Main(MainUiLayer),
    /// A message box.
    MessageBox(UiMessageBox),
    /// The popup that edits an exercise.
    ExerciseEditor(UiExerciseEditor),
}

/// The mathematical value of an `AppLayer`.
pub ghost enum AppLayerView {
    Main(MainUiLayerView),
    MessageBox(UiMessageBoxView),
    ExerciseEditor(UiExerciseEditorView),
}

impl View for AppLayer {
    type V = AppLayerView;

    open spec fn view(&self) -> AppLayerView {
        match self {
            AppLayer::Main(layer) => AppLayerView::Main(layer@),
            AppLayer::MessageBox(layer) => AppLayerView::MessageBox(layer@),
            AppLayer::ExerciseEditor(layer) => AppLayerView::ExerciseEditor(layer@),
        }
    }
}

/// The answer of a layer, as the answer of the layer of the application
/// that it is.
pub open spec fn lifted<V>(reaction: Reaction<V>, wrap: spec_fn(V) -> AppLayerView) -> Reaction<AppLayerView> {
    Reaction { consumed: reaction.consumed, state: wrap(reaction.state), emitted: reaction.emitted }
}

impl KeyEventDispatcher for AppLayer {
    /// A layer of the application answers as the layer that it is.
    open spec fn reaction(v: AppLayerView, callback: Callback, db: DbView) -> Reaction<AppLayerView> {
        match v {
            AppLayerView::Main(layer) => lifted(
                MainUiLayer::reaction(layer, callback, db),
                |state: MainUiLayerView| AppLayerView::Main(state),
            ),
            AppLayerView::MessageBox(layer) => lifted(
                UiMessageBox::reaction(layer, callback, db),
                |state: UiMessageBoxView| AppLayerView::MessageBox(state),
            ),
            AppLayerView::ExerciseEditor(layer) => lifted(
                UiExerciseEditor::reaction(layer, callback, db),
                |state: UiExerciseEditorView| AppLayerView::ExerciseEditor(state),
            ),
        }
    }

    fn on_callback(&mut self, callback: &Callback, db: &Db, bus: &mut UiEvents) -> (consumed: bool) {
        match self {
            AppLayer::Main(layer) => layer.on_callback(callback, db, bus),
            AppLayer::MessageBox(layer) => layer.on_callback(callback, db, bus),
            AppLayer::ExerciseEditor(layer) => layer.on_callback(callback, db, bus),
        }
    }
}

impl TermEventDispatcher for AppLayer {
}

impl UiEventDispatcher for AppLayer {
}

impl Component for AppLayer {
    open spec fn visible(v: AppLayerView) -> bool {
        match v {
            AppLayerView::Main(layer) => MainUiLayer::visible(layer),
            AppLayerView::MessageBox(layer) => UiMessageBox::visible(layer),
            AppLayerView::ExerciseEditor(layer) => UiExerciseEditor::visible(layer),
        }
    }

    open spec fn with_visible(v: AppLayerView, value: bool) -> AppLayerView {
        match v {
            AppLayerView::Main(layer) => AppLayerView::Main(MainUiLayer::with_visible(layer, value)),
            AppLayerView::MessageBox(layer) => AppLayerView::MessageBox(UiMessageBox::with_visible(layer, value)),
            AppLayerView::ExerciseEditor(layer) => AppLayerView::ExerciseEditor(UiExerciseEditor::with_visible(layer, value)),
        }
    }

    open spec fn themed(v: AppLayerView, theme: UiTheme) -> AppLayerView {
        match v {
            AppLayerView::Main(layer) => AppLayerView::Main(MainUiLayer::themed(layer, theme)),
            AppLayerView::MessageBox(layer) => AppLayerView::MessageBox(UiMessageBox::themed(layer, theme)),
            AppLayerView::ExerciseEditor(layer) => AppLayerView::ExerciseEditor(UiExerciseEditor::themed(layer, theme)),
        }
    }

    open spec fn paints(v: AppLayerView, area: Rect, db: DbView, ops: Seq<RenderOpView>) -> bool {
        match v {
            AppLayerView::Main(layer) => MainUiLayer::paints(layer, area, db, ops),
            AppLayerView::MessageBox(layer) => UiMessageBox::paints(layer, area, db, ops),
            AppLayerView::ExerciseEditor(layer) => UiExerciseEditor::paints(layer, area, db, ops),
        }
    }

    fn is_visible(&self) -> (shown: bool) {
        match self {
            AppLayer::Main(layer) => layer.is_visible(),
            AppLayer::MessageBox(layer) => layer.is_visible(),
            AppLayer::ExerciseEditor(layer) => layer.is_visible(),
        }
    }

    fn set_visible(&mut self, value: bool) {
        match self {
            AppLayer::Main(layer) => layer.set_visible(value),
            AppLayer::MessageBox(layer) => layer.set_visible(value),
            AppLayer::ExerciseEditor(layer) => layer.set_visible(value),
        }
    }

    fn draw(&self, f: &mut RenderFrame, area: Rect, db: &Db) {
        match self {
            AppLayer::Main(layer) => {
                layer.draw(f, area, db);
                proof {
                    let ops = choose|ops: Seq<RenderOpView>| #[trigger]
                        MainUiLayer::paints(layer@, area, db@, ops) && f@.ops == old(f)@.ops + ops;
                    assert(Self::paints(self@, area, db@, ops));
                }
            },
            AppLayer::MessageBox(layer) => {
                layer.draw(f, area, db);
                proof {
                    let ops = choose|ops: Seq<RenderOpView>| #[trigger]
                        UiMessageBox::paints(layer@, area, db@, ops) && f@.ops == old(f)@.ops + ops;
                    assert(Self::paints(self@, area, db@, ops));
                }
            },
            AppLayer::ExerciseEditor(layer) => {
                layer.draw(f, area, db);
                proof {
                    let ops = choose|ops: Seq<RenderOpView>| #[trigger]
                        UiExerciseEditor::paints(layer@, area, db@, ops) && f@.ops == old(f)@.ops + ops;
                    assert(Self::paints(self@, area, db@, ops));
                }
            },
        }
    }

    fn apply_theme(&mut self, theme: &UiTheme) {
        match self {
            AppLayer::Main(layer) => layer.apply_theme(theme),
            AppLayer::MessageBox(layer) => layer.apply_theme(theme),
            AppLayer::ExerciseEditor(layer) => layer.apply_theme(theme),
        }
    }
}

impl EventComponent for AppLayer {
    open spec fn focused(v: AppLayerView) -> bool {
        match v {
            AppLayerView::Main(layer) => MainUiLayer::focused(layer),
            AppLayerView::MessageBox(layer) => UiMessageBox::focused(layer),
            AppLayerView::ExerciseEditor(layer) => UiExerciseEditor::focused(layer),
        }
    }

    open spec fn with_focus(v: AppLayerView, value: bool) -> AppLayerView {
        match v {
            AppLayerView::Main(layer) => AppLayerView::Main(MainUiLayer::with_focus(layer, value)),
            AppLayerView::MessageBox(layer) => AppLayerView::MessageBox(UiMessageBox::with_focus(layer, value)),
            AppLayerView::ExerciseEditor(layer) => AppLayerView::ExerciseEditor(UiExerciseEditor::with_focus(layer, value)),
        }
    }

    open spec fn input_reaction(v: AppLayerView, event: TerminalEvent, db: DbView) -> Reaction<AppLayerView> {
        match v {
            AppLayerView::Main(layer) => lifted(
                MainUiLayer::input_reaction(layer, event, db),
                |state: MainUiLayerView| AppLayerView::Main(state),
            ),
            AppLayerView::MessageBox(layer) => lifted(
                UiMessageBox::input_reaction(layer, event, db),
                |state: UiMessageBoxView| AppLayerView::MessageBox(state),
            ),
            AppLayerView::ExerciseEditor(layer) => lifted(
                UiExerciseEditor::input_reaction(layer, event, db),
                |state: UiExerciseEditorView| AppLayerView::ExerciseEditor(state),
            ),
        }
    }

    proof fn lemma_focus_sets(v: AppLayerView, value: bool) {
        match v {
            AppLayerView::Main(layer) => MainUiLayer::lemma_focus_sets(layer, value),
            AppLayerView::MessageBox(layer) => UiMessageBox::lemma_focus_sets(layer, value),
            AppLayerView::ExerciseEditor(layer) => UiExerciseEditor::lemma_focus_sets(layer, value),
        }
    }

    proof fn lemma_visibility_keeps_focus(v: AppLayerView, value: bool) {
        match v {
            AppLayerView::Main(layer) => MainUiLayer::lemma_visibility_keeps_focus(layer, value),
            AppLayerView::MessageBox(layer) => UiMessageBox::lemma_visibility_keeps_focus(layer, value),
            AppLayerView::ExerciseEditor(layer) => UiExerciseEditor::lemma_visibility_keeps_focus(layer, value),
        }
    }

    fn focus(&mut self, value: bool) {
        match self {
            AppLayer::Main(layer) => layer.focus(value),
            AppLayer::MessageBox(layer) => layer.focus(value),
            AppLayer::ExerciseEditor(layer) => layer.focus(value),
        }
    }

    fn on_focus(&self) -> (focused: bool) {
        match self {
            AppLayer::Main(layer) => layer.on_focus(),
            AppLayer::MessageBox(layer) => layer.on_focus(),
            AppLayer::ExerciseEditor(layer) => layer.on_focus(),
        }
    }

    fn on_term_event(&mut self, event: &TerminalEvent, db: &Db, bus: &mut UiEvents) -> (consumed: bool) {
        match self {
            AppLayer::Main(layer) => layer.on_term_event(event, db, bus),
            AppLayer::MessageBox(layer) => layer.on_term_event(event, db, bus),
            AppLayer::ExerciseEditor(layer) => layer.on_term_event(event, db, bus),
        }
    }
}

impl Layer for AppLayer {
    open spec fn modal(v: AppLayerView) -> bool {
        match v {
            AppLayerView::Main(layer) => MainUiLayer::modal(layer),
            AppLayerView::MessageBox(layer) => UiMessageBox::modal(layer),
            AppLayerView::ExerciseEditor(layer) => UiExerciseEditor::modal(layer),
        }
    }

    open spec fn with_modal(v: AppLayerView, value: bool) -> AppLayerView {
        match v {
            AppLayerView::Main(layer) => AppLayerView::Main(MainUiLayer::with_modal(layer, value)),
            AppLayerView::MessageBox(layer) => AppLayerView::MessageBox(UiMessageBox::with_modal(layer, value)),
            AppLayerView::ExerciseEditor(layer) => AppLayerView::ExerciseEditor(UiExerciseEditor::with_modal(layer, value)),
        }
    }

    open spec fn remove_requested(v: AppLayerView) -> bool {
        match v {
            AppLayerView::Main(layer) => MainUiLayer::remove_requested(layer),
            AppLayerView::MessageBox(layer) => UiMessageBox::remove_requested(layer),
            AppLayerView::ExerciseEditor(layer) => UiExerciseEditor::remove_requested(layer),
        }
    }

    fn is_modal(&self) -> (modal: bool) {
        match self {
            AppLayer::Main(layer) => layer.is_modal(),
            AppLayer::MessageBox(layer) => layer.is_modal(),
            AppLayer::ExerciseEditor(layer) => layer.is_modal(),
        }
    }

    fn set_modal(&mut self, is_modal: bool) {
        match self {
            AppLayer::Main(layer) => layer.set_modal(is_modal),
            AppLayer::MessageBox(layer) => layer.set_modal(is_modal),
            AppLayer::ExerciseEditor(layer) => layer.set_modal(is_modal),
        }
    }

    fn is_remove_requested(&self) -> (requested: bool) {
        match self {
            AppLayer::Main(layer) => layer.is_remove_requested(),
            AppLayer::MessageBox(layer) => layer.is_remove_requested(),
            AppLayer::ExerciseEditor(layer) => layer.is_remove_requested(),
        }
    }
}

} // verus!
