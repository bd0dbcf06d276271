use sport_helper::app::App;
use sport_helper::app_layer::AppLayer;
use sport_helper::component::{Component, EventComponent, TerminalEvent};
use sport_helper::config::{AccountConfig, KeyMap};
use sport_helper::controller::{Controller, ControllerReply};
use sport_helper::entity::Exercise;
use sport_helper::event_dispatcher::KeyEvent;
use sport_helper::layer::Layer;
use sport_helper::layout::Rect;
use sport_helper::message_box::{UiMessageBox, UiMessageBoxType};
use sport_helper::model::Table;
use sport_helper::render::{RenderFrame, RenderOp};
use sport_helper::rest::{RestClientError, ServerOperationStatus};
use sport_helper::style::{Color, Style};
use sport_helper::ui::Ui;
use sport_helper::ui_events::{ControllerRequest, UiEvent};

fn screen() -> Rect {
    Rect { x: 0, y: 0, width: 120, height: 40 }
}

fn new_ui() -> Ui {
    Ui::new(Controller::new(AccountConfig::default(), KeyMap::default()))
}

fn ch(c: char) -> TerminalEvent {
    TerminalEvent::Key(KeyEvent::Char(c))
}

fn key(key: KeyEvent) -> TerminalEvent {
    TerminalEvent::Key(key)
}

fn kinds(ui: &Ui) -> Vec<&'static str> {
    ui.layers()
        .get_all()
        .iter()
        .map(|layer| match layer {
            AppLayer::Main(_) => "main",
            AppLayer::MessageBox(_) => "box",
            AppLayer::ExerciseEditor(_) => "editor",
        })
        .collect()
}

fn tick(ui: &mut Ui, inputs: Vec<TerminalEvent>) -> (Vec<TerminalEvent>, Vec<UiEvent>) {
    let mut frame = RenderFrame::new(screen());
    ui.process(&mut frame, &inputs)
}

fn squat() -> Exercise {
    Exercise::new(3, String::from("Squat"), String::from("Legs"))
}

#[test]
fn a_new_driver_holds_the_main_layer_focused_and_shown() {
    let ui = new_ui();
    assert_eq!(kinds(&ui), vec!["main"]);
    let main = ui.layers().get(0).unwrap();
    assert!(main.on_focus());
    assert!(main.is_visible());
    assert!(!main.is_modal());
    assert!(!ui.need_stop());
}

#[test]
fn a_popup_asked_for_during_input_is_on_the_stack_after_the_tick() {
    let mut ui = new_ui();
    let (unconsumed, passed_on) = tick(&mut ui, vec![ch('a')]);
    assert!(unconsumed.is_empty());
    assert!(passed_on.is_empty());
    assert_eq!(kinds(&ui), vec!["main", "editor"]);
    let popup = ui.layers().get(1).unwrap();
    assert!(popup.on_focus());
    assert!(popup.is_visible());
    assert!(popup.is_modal());
    // The main layer keeps its focus.
    assert!(ui.layers().get(0).unwrap().on_focus());
}

#[test]
fn the_stack_does_not_change_during_the_input_pass() {
    let mut ui = new_ui();
    assert!(ui.send_term_event(&ch('a')));
    assert_eq!(kinds(&ui), vec!["main"]);
    let passed_on = ui.process_events();
    assert!(passed_on.is_empty());
    assert_eq!(kinds(&ui), vec!["main", "editor"]);
}

#[test]
fn escape_closes_the_modal_popup_and_the_sweep_removes_it() {
    let mut ui = new_ui();
    ui.add_layer(AppLayer::MessageBox(UiMessageBox::info("note", String::from("text"))));
    assert_eq!(kinds(&ui), vec!["main", "box"]);
    assert!(ui.send_term_event(&key(KeyEvent::Esc)));
    // Not removed before the sweep, and the main layer did not see the key.
    assert_eq!(kinds(&ui), vec!["main", "box"]);
    assert!(ui.layers().get(1).unwrap().is_remove_requested());
    ui.clean();
    assert_eq!(kinds(&ui), vec!["main"]);
}

#[test]
fn a_modal_popup_keeps_keys_from_the_main_layer() {
    let mut ui = new_ui();
    ui.add_layer(AppLayer::MessageBox(UiMessageBox::info("note", String::from("text"))));
    // `a` would open an editor if the main layer saw it.
    let (unconsumed, passed_on) = tick(&mut ui, vec![ch('a')]);
    assert!(unconsumed.is_empty());
    assert!(passed_on.is_empty());
    assert_eq!(kinds(&ui), vec!["main", "box"]);
}

#[test]
fn layers_pushed_in_one_tick_keep_the_order_of_their_requests() {
    let mut ui = new_ui();
    ui.complete(ControllerReply::Loaded(Err(RestClientError::Request(String::from("first")))));
    ui.complete(ControllerReply::Removed(1, Err(RestClientError::Request(String::from("second")))));
    assert_eq!(kinds(&ui), vec!["main"]);
    let passed_on = ui.process_events();
    assert!(passed_on.is_empty());
    assert_eq!(kinds(&ui), vec!["main", "box", "box"]);
    let texts: Vec<String> = ui
        .layers()
        .get_all()
        .iter()
        .filter_map(|layer| match layer {
            AppLayer::MessageBox(message_box) => Some(message_box.text().clone()),
            _ => None,
        })
        .collect();
    assert_eq!(
        texts,
        vec![
            "Can`t get all exercises:\nrequest error: `first`",
            "Can`t remove exercise:\nrequest error: `second`",
        ]
    );
}

#[test]
fn the_tick_hands_back_what_no_layer_consumed_in_order() {
    let mut ui = new_ui();
    let inputs = vec![key(KeyEvent::Left), ch('1'), key(KeyEvent::F(2)), ch('q')];
    let (unconsumed, _) = tick(&mut ui, inputs);
    assert_eq!(unconsumed.len(), 3);
    assert!(matches!(unconsumed[0], TerminalEvent::Key(KeyEvent::Left)));
    assert!(matches!(unconsumed[1], TerminalEvent::Key(KeyEvent::F(2))));
    assert!(matches!(unconsumed[2], TerminalEvent::Key(KeyEvent::Char('q'))));
}

#[test]
fn the_tick_hands_out_the_work_for_the_server() {
    let mut ui = new_ui();
    let (unconsumed, passed_on) = tick(&mut ui, vec![ch('r')]);
    // `r` asks for the exercises and is not consumed.
    assert_eq!(unconsumed.len(), 1);
    assert_eq!(passed_on.len(), 1);
    assert!(matches!(passed_on[0], UiEvent::Request(ControllerRequest::LoadExercises)));
    assert_eq!(kinds(&ui), vec!["main"]);
}

#[test]
fn the_frame_shows_the_background_first() {
    let ui = new_ui();
    let mut frame = RenderFrame::new(screen());
    ui.draw(&mut frame);
    match &frame.ops()[0] {
        RenderOp::Block { area, block } => {
            assert_eq!(*area, screen());
            assert_eq!(block.style, Style { fg: Some(Color::Black), bg: Some(Color::Red), modifier: None });
            assert!(!block.borders);
            assert_eq!(block.title, "");
        }
        _ => panic!("the background is a box"),
    }
    assert_eq!(frame.size(), screen());
    // Background, tabs, table, help box, help line.
    assert_eq!(frame.ops().len(), 5);
}

#[test]
fn the_frame_shows_the_stack_as_it_was_before_the_inputs() {
    let mut ui = new_ui();
    let mut frame = RenderFrame::new(screen());
    ui.process(&mut frame, &vec![ch('a')]);
    assert_eq!(frame.ops().len(), 5);
    let mut next = RenderFrame::new(screen());
    ui.process(&mut next, &vec![]);
    // The editor adds a wipe, a box and two fields.
    assert_eq!(next.ops().len(), 9);
}

#[test]
fn loaded_exercises_reach_the_cache() {
    let mut ui = new_ui();
    ui.complete(ControllerReply::Loaded(Ok(vec![
        squat(),
        Exercise::new(1, String::from("Plank"), String::from("Core")),
    ])));
    let exercises = ui.controller().db().exercises();
    assert_eq!(exercises.len(), 2);
    assert_eq!(exercises.ids(), vec![1, 3]);
    assert_eq!(exercises.get_one(3).unwrap().name, "Squat");
}

#[test]
fn a_failed_load_empties_the_cache_and_shows_the_error() {
    let mut ui = new_ui();
    ui.complete(ControllerReply::Loaded(Ok(vec![squat()])));
    ui.complete(ControllerReply::Loaded(Err(RestClientError::Parse(String::from("eof")))));
    assert_eq!(ui.controller().db().exercises().len(), 0);
    tick(&mut ui, vec![]);
    assert_eq!(kinds(&ui), vec!["main", "box"]);
    match ui.layers().get(1).unwrap() {
        AppLayer::MessageBox(message_box) => {
            assert_eq!(message_box.title(), "Exercises");
            assert_eq!(message_box.text(), "Can`t get all exercises:\nparsing error: `eof`");
            assert_eq!(message_box.message_type(), UiMessageBoxType::Error);
        }
        _ => panic!("the failure is shown in a message box"),
    }
}

#[test]
fn the_editor_sends_a_new_exercise_and_closes_when_it_is_stored() {
    let mut ui = new_ui();
    tick(&mut ui, vec![ch('a')]);
    let mut inputs = vec![ch('R'), ch('o'), ch('w'), key(KeyEvent::Tab), ch('B'), ch('a'), ch('c'), ch('k')];
    // Enter leaves the field; the next Enter reaches the editor.
    inputs.push(key(KeyEvent::Enter));
    inputs.push(key(KeyEvent::Enter));
    let (unconsumed, passed_on) = tick(&mut ui, inputs);
    assert!(unconsumed.is_empty());
    assert_eq!(passed_on.len(), 1);
    let sent = match &passed_on[0] {
        UiEvent::Request(ControllerRequest::InsertExercise(exercise)) => exercise.clone(),
        _ => panic!("the editor hands out an insertion"),
    };
    assert_eq!(sent.id, 0);
    assert_eq!(sent.name, "Row");
    assert_eq!(sent.description, "Back");
    // The editor stays open until the server has answered.
    assert_eq!(kinds(&ui), vec!["main", "editor"]);
    ui.complete(ControllerReply::Inserted(Ok(Exercise::new(9, sent.name, sent.description))));
    assert_eq!(ui.controller().db().exercises().ids(), vec![9]);
    tick(&mut ui, vec![]);
    assert_eq!(kinds(&ui), vec!["main"]);
}

#[test]
fn the_editor_stays_open_and_shows_the_error_when_storing_fails() {
    let mut ui = new_ui();
    tick(&mut ui, vec![ch('a')]);
    ui.complete(ControllerReply::Inserted(Err(RestClientError::Request(String::from("down")))));
    tick(&mut ui, vec![]);
    assert_eq!(kinds(&ui), vec!["main", "editor", "box"]);
    match ui.layers().get(2).unwrap() {
        AppLayer::MessageBox(message_box) => {
            assert_eq!(message_box.text(), "Can`t insert exercise:\nrequest error: `down`");
        }
        _ => panic!("the failure is shown in a message box"),
    }
    assert_eq!(ui.controller().db().exercises().len(), 0);
}

#[test]
fn an_invalid_editor_does_not_send() {
    let mut ui = new_ui();
    tick(&mut ui, vec![ch('a')]);
    // Both fields are empty. Escape leaves the field, Enter reaches the editor.
    let (unconsumed, passed_on) = tick(&mut ui, vec![key(KeyEvent::Esc), key(KeyEvent::Enter)]);
    assert_eq!(unconsumed.len(), 1);
    assert!(matches!(unconsumed[0], TerminalEvent::Key(KeyEvent::Enter)));
    assert!(passed_on.is_empty());
    assert_eq!(kinds(&ui), vec!["main", "editor"]);
}

#[test]
fn update_opens_an_editor_with_the_selected_exercise() {
    let mut ui = new_ui();
    ui.complete(ControllerReply::Loaded(Ok(vec![
        squat(),
        Exercise::new(1, String::from("Plank"), String::from("Core")),
    ])));
    // Down selects the first row, Down again the second: the exercise 3.
    tick(&mut ui, vec![key(KeyEvent::Down), key(KeyEvent::Down), ch('u')]);
    assert_eq!(kinds(&ui), vec!["main", "editor"]);
    match ui.layers().get(1).unwrap() {
        AppLayer::ExerciseEditor(editor) => {
            let data = editor.data();
            assert_eq!(data.id, 3);
            assert_eq!(data.name, "Squat");
            assert_eq!(data.description, "Legs");
        }
        _ => panic!("update opens an editor"),
    }
    // Escape leaves the field, Enter sends the update.
    let (_, passed_on) = tick(&mut ui, vec![key(KeyEvent::Esc), key(KeyEvent::Enter)]);
    assert_eq!(passed_on.len(), 1);
    assert!(matches!(&passed_on[0], UiEvent::Request(ControllerRequest::UpdateExercise(e)) if e.id == 3));
    ui.complete(ControllerReply::Updated(
        Exercise::new(3, String::from("Squat"), String::from("Legs and back")),
        Ok(ServerOperationStatus::new(String::from("ok"))),
    ));
    assert_eq!(ui.controller().db().exercises().get_one(3).unwrap().description, "Legs and back");
    tick(&mut ui, vec![]);
    assert_eq!(kinds(&ui), vec!["main"]);
}

#[test]
fn update_without_a_selection_is_not_consumed() {
    let mut ui = new_ui();
    ui.complete(ControllerReply::Loaded(Ok(vec![squat()])));
    let (unconsumed, passed_on) = tick(&mut ui, vec![ch('u'), ch('d')]);
    assert_eq!(unconsumed.len(), 2);
    assert!(passed_on.is_empty());
    assert_eq!(kinds(&ui), vec!["main"]);
}

#[test]
fn delete_asks_first_and_sends_when_accepted() {
    let mut ui = new_ui();
    ui.complete(ControllerReply::Loaded(Ok(vec![squat()])));
    tick(&mut ui, vec![key(KeyEvent::Down), ch('d')]);
    assert_eq!(kinds(&ui), vec!["main", "box"]);
    match ui.layers().get(1).unwrap() {
        AppLayer::MessageBox(message_box) => {
            assert_eq!(message_box.text(), "Are you sure you want to delete the entry `Squat`");
            assert_eq!(message_box.message_type(), UiMessageBoxType::Warn);
        }
        _ => panic!("delete asks in a message box"),
    }
    let (unconsumed, passed_on) = tick(&mut ui, vec![key(KeyEvent::Enter)]);
    assert!(unconsumed.is_empty());
    assert_eq!(passed_on.len(), 1);
    assert!(matches!(passed_on[0], UiEvent::Request(ControllerRequest::RemoveExercise(3))));
    assert_eq!(kinds(&ui), vec!["main"]);
    ui.complete(ControllerReply::Removed(3, Ok(ServerOperationStatus::new(String::from("ok")))));
    assert_eq!(ui.controller().db().exercises().len(), 0);
}

#[test]
fn delete_is_dropped_when_the_question_is_rejected() {
    let mut ui = new_ui();
    ui.complete(ControllerReply::Loaded(Ok(vec![squat()])));
    tick(&mut ui, vec![key(KeyEvent::Down), ch('d')]);
    let (_, passed_on) = tick(&mut ui, vec![key(KeyEvent::Esc)]);
    assert!(passed_on.is_empty());
    assert_eq!(kinds(&ui), vec!["main"]);
    assert_eq!(ui.controller().db().exercises().len(), 1);
}

#[test]
fn the_quit_key_quits_only_when_no_layer_takes_it() {
    let mut app = App::new(Controller::new(AccountConfig::default(), KeyMap::default()), KeyMap::default());
    let mut frame = RenderFrame::new(screen());
    app.add_event(ch('x'));
    app.tick(&mut frame);
    assert!(!app.need_quit());
    // The editor swallows `q` while a field has the focus.
    app.add_event(ch('a'));
    app.tick(&mut frame);
    app.add_event(ch('q'));
    app.tick(&mut frame);
    assert!(!app.need_quit());
    // Escape leaves the field; `q` then closes the editor.
    app.add_event(key(KeyEvent::Esc));
    app.add_event(ch('q'));
    app.tick(&mut frame);
    assert!(!app.need_quit());
    assert_eq!(app.ui().layers_count(), 1);
    app.add_event(ch('q'));
    app.tick(&mut frame);
    assert!(app.need_quit());
}

#[test]
fn a_window_without_focus_is_not_painted_nor_drained() {
    let mut app = App::new(Controller::new(AccountConfig::default(), KeyMap::default()), KeyMap::default());
    let mut frame = RenderFrame::new(screen());
    app.add_event(TerminalEvent::FocusLost);
    app.tick(&mut frame);
    assert!(!app.is_focused());
    let painted = frame.ops().len();
    assert_eq!(painted, 5);
    app.add_event(ch('a'));
    let passed_on = app.tick(&mut frame);
    assert!(passed_on.is_empty());
    assert_eq!(frame.ops().len(), painted);
    // The editor waits on the bus until the window has the focus again.
    assert_eq!(app.ui().layers_count(), 1);
    app.add_event(TerminalEvent::FocusGained);
    app.tick(&mut frame);
    assert!(app.is_focused());
    assert_eq!(app.ui().layers_count(), 1);
    app.tick(&mut frame);
    assert_eq!(app.ui().layers_count(), 2);
}

#[test]
fn drawing_never_fails_whatever_the_size_of_the_screen() {
    let sizes: [u16; 12] = [0, 1, 2, 3, 5, 8, 16, 17, 100, 1310, 1311, 65535];
    let origins: [u16; 4] = [0, 1, 40000, 65535];
    let mut ui = new_ui();
    ui.complete(ControllerReply::Loaded(Ok(vec![squat()])));
    ui.add_layer(AppLayer::ExerciseEditor(sport_helper::exercise_editor::UiExerciseEditor::new()));
    ui.add_layer(AppLayer::MessageBox(UiMessageBox::info("note", String::from("text"))));
    for width in sizes {
        for height in sizes {
            for x in origins {
                for y in origins {
                    let size = Rect { x, y, width, height };
                    let mut frame = RenderFrame::new(size);
                    ui.draw(&mut frame);
                    assert!(!frame.ops().is_empty());
                    assert!(frame.ops().len() <= 12);
                    assert_eq!(frame.size(), size);
                }
            }
        }
    }
}

#[test]
fn the_driver_keeps_the_keys_and_account_of_its_controller() {
    let keys = KeyMap { quit: 'x', accept: KeyEvent::Tab, reject: KeyEvent::Esc };
    let mut ui = Ui::new(Controller::new(AccountConfig { id: 9 }, keys));
    assert_eq!(ui.controller().key_map().quit, 'x');
    assert_eq!(ui.controller().account().id, 9);
    tick(&mut ui, vec![ch('a'), ch('r')]);
    ui.complete(ControllerReply::Loaded(Ok(vec![squat()])));
    assert_eq!(ui.controller().key_map().quit, 'x');
    assert_eq!(ui.controller().account().id, 9);
    let app = App::new(Controller::new(AccountConfig { id: 7 }, keys), keys);
    assert_eq!(app.ui().controller().account().id, 7);
    assert_eq!(app.ui().controller().key_map().accept, KeyEvent::Tab);
}
