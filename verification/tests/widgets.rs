use sport_helper::component::{Component, EventComponent, TerminalEvent};
use sport_helper::event_dispatcher::{Callback, KeyEvent, KeyEventDispatcher, TermEventDispatcher};
use sport_helper::events::Events;
use sport_helper::exercise_editor::UiExerciseEditor;
use sport_helper::entity::Exercise;
use sport_helper::footer::Footer;
use sport_helper::label::UiLabel;
use sport_helper::layer::{Layer, LayerItemComponent, UiLayer};
use sport_helper::layout::{Alignment, Constraint, Rect};
use sport_helper::main_ui_layer::{to_digit, MainUiLayer};
use sport_helper::menu::{MenuItem, Page, UiMenu};
use sport_helper::message_box::{UiMessageBox, UiMessageBoxType};
use sport_helper::model::{Db, Table};
use sport_helper::page_account::PageAccount;
use sport_helper::page_exercises::PageExercises;
use sport_helper::render::{RenderFrame, RenderOp};
use sport_helper::style::{Color, Modifier, Style};
use sport_helper::tabel::{TableState, UiTable};
use sport_helper::tabs::{UiTab, UiTabs};
use sport_helper::text_edit::TextEdit;
use sport_helper::theme::{UiTableTheme, UiTextEditTheme, UiTheme};
use sport_helper::ui_events::{ControllerRequest, UiEvent, UiEventDispatcher, UiEventSender, UiEvents};
use sport_helper::validators::{
    EmptyStrValidator, EmptyStrValidatorError, ErrorText, StrValidator, StrValidatorError, Validator,
};

fn key(key: KeyEvent) -> TerminalEvent {
    TerminalEvent::Key(key)
}

fn ch(c: char) -> TerminalEvent {
    TerminalEvent::Key(KeyEvent::Char(c))
}

fn area() -> Rect {
    Rect { x: 0, y: 0, width: 100, height: 40 }
}

fn drained(bus: &mut UiEvents) -> Vec<UiEvent> {
    bus.get_all().into_iter().collect()
}

#[test]
fn str_validator_accepts_a_length_between_the_limits() {
    let validator = StrValidator::new(2, 5);
    assert!(validator.validate("abc").is_ok());
    assert!(validator.validate("abcde").is_ok());
}

#[test]
fn str_validator_rejects_what_is_too_long() {
    let validator = StrValidator::new(2, 5);
    assert_eq!(validator.validate("abcdef"), Err(StrValidatorError::MaxLimit));
}

#[test]
fn str_validator_rejects_what_is_not_longer_than_the_lower_limit() {
    let validator = StrValidator::new(2, 5);
    assert_eq!(validator.validate("ab"), Err(StrValidatorError::MinLimit));
    assert_eq!(validator.validate(""), Err(StrValidatorError::MinLimit));
    assert_eq!(StrValidator::new(0, 100).validate(""), Err(StrValidatorError::MinLimit));
}

#[test]
fn str_validator_tells_too_long_before_too_short() {
    let validator = StrValidator::new(10, 3);
    assert_eq!(validator.validate("abcde"), Err(StrValidatorError::MaxLimit));
    assert_eq!(validator.validate("ab"), Err(StrValidatorError::MinLimit));
}

#[test]
fn str_validator_counts_bytes() {
    let validator = StrValidator::new(0, 3);
    // Two characters, four bytes.
    assert_eq!(validator.validate("éé"), Err(StrValidatorError::MaxLimit));
    assert!(validator.validate("é").is_ok());
}

#[test]
fn str_validator_default_accepts_all_but_the_empty_string() {
    let validator = StrValidator::default();
    assert_eq!(validator.min_length, 0);
    assert_eq!(validator.max_length, usize::MAX - 1);
    assert!(validator.validate("x").is_ok());
    assert_eq!(validator.validate(""), Err(StrValidatorError::MinLimit));
}

#[test]
fn empty_str_validator_accepts_everything() {
    let validator = EmptyStrValidator::default();
    assert!(validator.validate("").is_ok());
    assert!(validator.validate("anything").is_ok());
}

#[test]
fn validation_errors_say_what_is_wrong() {
    assert_eq!(StrValidatorError::MaxLimit.message(), "Max limit");
    assert_eq!(StrValidatorError::MinLimit.message(), "Min limit");
    assert_eq!(EmptyStrValidatorError::Empty.message(), "Empty error");
}

#[test]
fn text_edit_edits_only_with_focus() {
    let db = Db::default();
    let mut bus: UiEvents = Events::default();
    let mut field = TextEdit::new("Name:", String::from("ab"), StrValidator::new(0, 10));
    assert!(!field.on_focus());
    assert!(!field.on_term_event(&ch('c'), &db, &mut bus));
    assert_eq!(field.text(), "ab");
    field.focus(true);
    assert!(field.on_term_event(&ch('c'), &db, &mut bus));
    assert_eq!(field.text(), "abc");
    assert!(field.on_term_event(&key(KeyEvent::Backspace), &db, &mut bus));
    assert!(field.on_term_event(&key(KeyEvent::Backspace), &db, &mut bus));
    assert_eq!(field.text(), "a");
    assert!(field.on_term_event(&TerminalEvent::Paste(String::from("pasted")), &db, &mut bus));
    assert_eq!(field.text(), "pasted");
    assert!(!field.on_term_event(&key(KeyEvent::Left), &db, &mut bus));
    assert!(drained(&mut bus).is_empty());
}

#[test]
fn text_edit_backspace_on_an_empty_text_changes_nothing() {
    let db = Db::default();
    let mut bus: UiEvents = Events::default();
    let mut field = TextEdit::new("Name:", String::new(), EmptyStrValidator::default());
    field.focus(true);
    assert!(field.on_term_event(&key(KeyEvent::Backspace), &db, &mut bus));
    assert_eq!(field.text(), "");
}

#[test]
fn text_edit_gives_up_the_focus_on_escape_and_enter() {
    let db = Db::default();
    let mut bus: UiEvents = Events::default();
    let mut field = TextEdit::new("Name:", String::new(), EmptyStrValidator::default());
    field.focus(true);
    assert!(field.on_term_event(&key(KeyEvent::Esc), &db, &mut bus));
    assert!(!field.on_focus());
    field.focus(true);
    assert!(field.on_term_event(&key(KeyEvent::Enter), &db, &mut bus));
    assert!(!field.on_focus());
}

#[test]
fn text_edit_dispatch_does_not_ask_for_focus() {
    let db = Db::default();
    let mut bus: UiEvents = Events::default();
    let mut field = TextEdit::new("Name:", String::new(), EmptyStrValidator::default());
    assert!(field.dispatch_key_event(&KeyEvent::Char('x'), &db, &mut bus));
    assert!(field.dispatch_term_event(&ch('y'), &db, &mut bus));
    assert!(field.on_callback(&Callback::Char('z'), &db, &mut bus));
    assert!(!field.dispatch_key_event(&KeyEvent::F(3), &db, &mut bus));
    assert!(!field.dispatch_term_event(&TerminalEvent::Mouse, &db, &mut bus));
    assert_eq!(field.text(), "xyz");
}

#[test]
fn text_edit_validates_its_text() {
    let mut field = TextEdit::new("Name:", String::from("abc"), StrValidator::new(0, 2));
    assert!(!field.is_valid());
    assert_eq!(field.validate(), Err(String::from("Max limit")));
    field.set_text(String::from("ab"));
    assert!(field.is_valid());
    assert_eq!(field.validate(), Ok(()));
    field.set_text(String::new());
    assert_eq!(field.validate(), Err(String::from("Min limit")));
}

#[test]
fn text_edit_draws_its_text_in_a_titled_box() {
    let db = Db::default();
    let mut field = TextEdit::new("Name:", String::from("abc"), StrValidator::new(0, 10));
    let mut frame = RenderFrame::new(area());
    field.draw(&mut frame, area(), &db);
    assert_eq!(frame.ops().len(), 1);
    match &frame.ops()[0] {
        RenderOp::Paragraph { area: drawn, paragraph } => {
            assert_eq!(*drawn, area());
            assert_eq!(paragraph.text, "abc");
            assert_eq!(paragraph.text_style, Style { fg: Some(Color::White), bg: Some(Color::Black), modifier: None });
            assert_eq!(paragraph.style, Style { fg: Some(Color::Black), bg: Some(Color::White), modifier: None });
            assert_eq!(paragraph.alignment, Alignment::Left);
            assert_eq!(paragraph.wrap, None);
            let block = paragraph.block.as_ref().unwrap();
            assert_eq!(block.title, "Name:");
            assert_eq!(block.title_style, Style { fg: Some(Color::Black), bg: None, modifier: Some(Modifier::Bold) });
            assert!(block.borders);
            assert_eq!(block.style, Style { fg: Some(Color::Gray), bg: Some(Color::White), modifier: None });
        }
        _ => panic!("a text field is drawn as a paragraph"),
    }
    field.focus(true);
    field.set_text(String::new());
    field.apply_theme(&UiTheme {
        table: UiTableTheme::default(),
        text_edit: UiTextEditTheme { text_style: Style::default().fg(Color::Green) },
    });
    let mut frame = RenderFrame::new(area());
    field.draw(&mut frame, area(), &db);
    match &frame.ops()[0] {
        RenderOp::Paragraph { paragraph, .. } => {
            assert_eq!(paragraph.text_style, Style { fg: Some(Color::Green), bg: None, modifier: None });
            let block = paragraph.block.as_ref().unwrap();
            assert_eq!(block.title, "Name:   Validation error: Min limit");
            assert_eq!(block.title_style, Style { fg: Some(Color::Red), bg: None, modifier: Some(Modifier::Bold) });
            assert_eq!(block.style, Style { fg: Some(Color::Black), bg: Some(Color::White), modifier: None });
        }
        _ => panic!("a text field is drawn as a paragraph"),
    }
}

#[test]
fn table_state_selects_and_resets_the_offset() {
    let mut state = TableState { offset: 4, selected: None };
    state.select(Some(2));
    assert_eq!(state.selected(), Some(2));
    assert_eq!(state.offset, 4);
    state.select(None);
    assert_eq!(state, TableState::default());
}

#[test]
fn table_selection_moves_around_the_ends() {
    let mut table: UiTable<u64> = UiTable::default();
    table.set_values(vec![10, 20, 30]);
    table.focus(true);
    assert_eq!(table.selected_row(), None);
    assert_eq!(table.get_value(), None);
    table.next();
    assert_eq!(table.selected_row(), Some(0));
    table.next();
    table.next();
    assert_eq!(table.selected_row(), Some(2));
    assert_eq!(table.get_value(), Some(&30));
    table.next();
    assert_eq!(table.selected_row(), Some(0));
    table.previous();
    assert_eq!(table.selected_row(), Some(2));
    table.previous();
    assert_eq!(table.selected_row(), Some(1));
    assert_eq!(table.get_value(), Some(&20));
}

#[test]
fn table_previous_without_a_selection_selects_the_first_row() {
    let mut table: UiTable<u64> = UiTable::default();
    table.set_values(vec![10, 20, 30]);
    table.focus(true);
    table.previous();
    assert_eq!(table.selected_row(), Some(0));
}

#[test]
fn table_without_focus_or_rows_does_not_move() {
    let mut table: UiTable<u64> = UiTable::default();
    table.focus(true);
    table.next();
    table.previous();
    assert_eq!(table.current_state(), TableState::default());
    table.set_values(vec![1, 2]);
    table.focus(false);
    table.next();
    assert_eq!(table.current_state(), TableState::default());
    table.select_row(1);
    assert_eq!(table.current_state().selected, Some(1));
    // The selection is kept but not told while the table has no focus.
    assert_eq!(table.selected_row(), None);
    table.select_row(2);
    assert_eq!(table.current_state().selected, Some(1));
    assert_eq!(table.count(), 2);
    table.clear_values();
    assert_eq!(table.count(), 0);
    assert_eq!(table.current_state().selected, Some(1));
    table.state().select(None);
    assert_eq!(table.current_state().selected, None);
}

#[test]
fn table_takes_down_and_up() {
    let db = Db::default();
    let mut bus: UiEvents = Events::default();
    let mut table: UiTable<u64> = UiTable::default();
    table.set_values(vec![1, 2]);
    assert!(!table.on_term_event(&key(KeyEvent::Down), &db, &mut bus));
    table.focus(true);
    assert!(table.on_term_event(&key(KeyEvent::Down), &db, &mut bus));
    assert!(table.on_term_event(&key(KeyEvent::Down), &db, &mut bus));
    assert_eq!(table.selected_row(), Some(1));
    assert!(table.on_term_event(&key(KeyEvent::Up), &db, &mut bus));
    assert_eq!(table.selected_row(), Some(0));
    assert!(!table.on_term_event(&key(KeyEvent::Left), &db, &mut bus));
    table.apply_theme(&UiTheme::default());
    assert_eq!(table.theme().header_style, Style { fg: Some(Color::Red), bg: None, modifier: None });
    assert_eq!(table.theme().table_style, Style { fg: Some(Color::White), bg: None, modifier: None });
    assert_eq!(table.theme().highlight_style, Style { fg: None, bg: None, modifier: Some(Modifier::Reversed) });
}

#[test]
fn tabs_start_on_the_first_tab() {
    let tabs = UiTabs::new(vec![UiTab::new(String::from("a")), UiTab::new(String::from("b"))]);
    assert_eq!(tabs.current_index(), 0);
    assert_eq!(tabs.tabs_count(), 2);
    assert!(tabs.tab(0).unwrap().on_focus());
    assert!(!tabs.tab(1).unwrap().on_focus());
    assert!(tabs.tab(2).is_none());
    assert_eq!(tabs.current_tab().name(), "a");
}

#[test]
fn tabs_of_nothing_keep_the_index_one() {
    let tabs = UiTabs::new(vec![]);
    assert_eq!(tabs.current_index(), 1);
    assert_eq!(tabs.tabs_count(), 0);
}

#[test]
fn tabs_switch_only_to_a_tab_that_exists() {
    let mut bus: UiEvents = Events::default();
    let mut tabs = UiTabs::new(vec![
        UiTab::new(String::from("a")),
        UiTab::new(String::from("b")),
        UiTab::new(String::from("c")),
    ]);
    tabs.set_current_tab(2, &mut bus);
    assert_eq!(tabs.current_index(), 2);
    assert!(!tabs.tab(0).unwrap().on_focus());
    assert!(tabs.tab(2).unwrap().on_focus());
    tabs.set_current_tab(3, &mut bus);
    assert_eq!(tabs.current_index(), 2);
    assert_eq!(tabs.next(&mut bus), 2);
    assert_eq!(tabs.prev(&mut bus), 1);
    assert_eq!(tabs.prev(&mut bus), 0);
    assert_eq!(tabs.prev(&mut bus), 0);
    assert_eq!(tabs.next(&mut bus), 1);
    assert!(tabs.tab(1).unwrap().on_focus());
    assert!(!tabs.select(1));
    assert!(tabs.select(0));
    // These tabs are not connected to the bus.
    assert!(drained(&mut bus).is_empty());
}

#[test]
fn tabs_are_drawn_with_their_numbers() {
    let db = Db::default();
    let tabs = UiTabs::new(vec![UiTab::new(String::from("Exercise")), UiTab::new(String::from("Account"))]);
    let mut frame = RenderFrame::new(area());
    tabs.draw(&mut frame, area(), &db);
    match &frame.ops()[0] {
        RenderOp::Tabs { area: drawn, tabs } => {
            assert_eq!(*drawn, area());
            assert_eq!(tabs.titles, vec!["Exercise[1]", "Account[2]"]);
            assert_eq!(tabs.selected, 0);
            assert_eq!(tabs.block.title, "Menu");
            assert!(tabs.block.borders);
            assert_eq!(tabs.style, Style { fg: Some(Color::Cyan), bg: None, modifier: None });
            assert_eq!(tabs.highlight_style, Style { fg: None, bg: Some(Color::Black), modifier: Some(Modifier::Bold) });
        }
        _ => panic!("tabs are drawn as tabs"),
    }
}

#[test]
fn a_tab_keeps_its_focus_flag() {
    let mut tab = UiTab::new(String::from("x"));
    assert!(!tab.on_focus());
    tab.focus(true);
    assert!(tab.on_focus());
    assert_eq!(tab.name(), "x");
}

#[test]
fn menu_items_have_the_indices_of_their_tabs() {
    assert_eq!(MenuItem::Exercises.to_index(), 0);
    assert_eq!(MenuItem::Account.to_index(), 1);
    assert_eq!(MenuItem::from_index(0), MenuItem::Exercises);
    assert_eq!(MenuItem::from_index(1), MenuItem::Account);
}

#[test]
fn menu_switches_between_its_two_pages() {
    let mut bus: UiEvents = Events::default();
    let mut menu = UiMenu::new();
    assert_eq!(menu.items_count(), 2);
    assert_eq!(menu.current_index(), MenuItem::Exercises);
    menu.set_current_index(MenuItem::Account, &mut bus);
    assert_eq!(menu.current_index(), MenuItem::Account);
    assert_eq!(menu.tabs().current_index(), 1);
    menu.select(MenuItem::Exercises);
    assert_eq!(menu.current_index(), MenuItem::Exercises);
    assert!(drained(&mut bus).is_empty());
    assert!(!menu.on_focus());
    menu.focus(true);
    assert!(menu.on_focus());
    assert!(menu.tabs().on_focus());
}

#[test]
fn digits_select_the_pages_of_the_main_layer() {
    let db = Db::default();
    let mut bus: UiEvents = Events::default();
    let mut main = MainUiLayer::new();
    main.focus(true);
    assert!(main.on_term_event(&ch('2'), &db, &mut bus));
    // The page of the account has no commands: `a` is not consumed.
    assert!(!main.on_term_event(&ch('a'), &db, &mut bus));
    assert!(main.on_term_event(&ch('1'), &db, &mut bus));
    assert!(main.on_term_event(&ch('a'), &db, &mut bus));
    assert!(!main.on_term_event(&ch('0'), &db, &mut bus));
    assert!(!main.on_term_event(&ch('3'), &db, &mut bus));
    assert_eq!(drained(&mut bus).len(), 1);
}

#[test]
fn the_main_layer_without_focus_takes_nothing() {
    let db = Db::default();
    let mut bus: UiEvents = Events::default();
    let mut main = MainUiLayer::new();
    assert!(!main.on_focus());
    assert!(!main.on_term_event(&ch('2'), &db, &mut bus));
    assert!(!main.on_term_event(&ch('a'), &db, &mut bus));
    assert!(main.is_visible());
    main.set_visible(false);
    assert!(main.is_visible());
    assert!(!main.is_modal());
    assert!(!main.is_remove_requested());
}

#[test]
fn the_help_line_follows_the_page() {
    let db = Db::default();
    let mut bus: UiEvents = Events::default();
    let mut main = MainUiLayer::new();
    main.focus(true);
    let help = |main: &MainUiLayer| {
        let mut frame = RenderFrame::new(area());
        main.draw(&mut frame, area(), &db);
        frame
            .ops()
            .iter()
            .filter_map(|op| match op {
                RenderOp::Label { text, .. } => Some(text.clone()),
                _ => None,
            })
            .collect::<Vec<String>>()
    };
    assert_eq!(help(&main), vec!["Add[a] Delete[d] Update[u] Quit[q]"]);
    assert!(main.on_term_event(&ch('2'), &db, &mut bus));
    assert_eq!(help(&main), vec![" Quit[q]"]);
    main.focus(false);
    assert_eq!(help(&main), vec![""]);
}

#[test]
fn to_digit_reads_decimal_digits_only() {
    assert_eq!(to_digit('0'), Some(0));
    assert_eq!(to_digit('7'), Some(7));
    assert_eq!(to_digit('9'), Some(9));
    assert_eq!(to_digit('a'), None);
    assert_eq!(to_digit('/'), None);
    assert_eq!(to_digit(':'), None);
}

#[test]
fn pages_start_shown_and_without_focus() {
    let account = PageAccount::new();
    assert!(account.is_visible());
    assert!(!account.on_focus());
    assert_eq!(account.commands_help(), "");
    let mut exercises = PageExercises::new();
    assert!(exercises.is_visible());
    assert!(!exercises.on_focus());
    assert_eq!(exercises.commands_help(), "");
    exercises.focus(true);
    assert_eq!(exercises.commands_help(), "Add[a] Delete[d] Update[u]");
    exercises.set_visible(false);
    let db = Db::default();
    let mut frame = RenderFrame::new(area());
    exercises.draw(&mut frame, area(), &db);
    assert!(frame.ops().is_empty());
    assert!(!exercises.is_modal());
    assert!(!exercises.is_remove_requested());
}

#[test]
fn the_exercises_are_drawn_in_ascending_order_of_their_keys() {
    let mut db = Db::default();
    db.exercises_mut().insert(Exercise::new(12, String::from("Row"), String::from("Back")));
    db.exercises_mut().insert(Exercise::new(3, String::from("Squat"), String::from("Legs")));
    db.exercises_mut().insert(Exercise::new(7, String::from("Plank"), String::from("Core")));
    let mut bus: UiEvents = Events::default();
    let mut page = PageExercises::new();
    page.focus(true);
    assert!(page.on_term_event(&key(KeyEvent::Down), &db, &mut bus));
    assert!(page.on_term_event(&key(KeyEvent::Down), &db, &mut bus));
    let mut frame = RenderFrame::new(area());
    page.draw(&mut frame, area(), &db);
    assert_eq!(frame.ops().len(), 1);
    match &frame.ops()[0] {
        RenderOp::Table { area: drawn, table, state } => {
            assert_eq!(*drawn, area());
            assert_eq!(state.selected, Some(1));
            let cells: Vec<Vec<&str>> =
                table.rows.iter().map(|row| row.iter().map(|cell| cell.text.as_str()).collect()).collect();
            assert_eq!(
                cells,
                vec![vec!["1", "Squat", "Legs"], vec!["2", "Plank", "Core"], vec!["3", "Row", "Back"]]
            );
            let green = Style { fg: Some(Color::Green), bg: None, modifier: None };
            let dark = Style { fg: Some(Color::DarkGray), bg: None, modifier: None };
            let grey = Style { fg: Some(Color::Gray), bg: None, modifier: None };
            let styles: Vec<Vec<Style>> =
                table.rows.iter().map(|row| row.iter().map(|cell| cell.style).collect()).collect();
            assert_eq!(styles, vec![vec![green, dark, dark], vec![green, grey, grey], vec![green, dark, dark]]);
            assert_eq!(table.header, vec!["#", "Name", "Description"]);
            assert_eq!(table.header_margin, 1);
            assert_eq!(table.block.title, "Exercises");
            assert_eq!(table.widths, vec![Constraint::Length(3), Constraint::Length(50), Constraint::Length(30)]);
            assert_eq!(table.column_spacing, 0);
            assert_eq!(table.highlight_symbol, ">");
            assert_eq!(table.style, Style { fg: Some(Color::White), bg: None, modifier: None });
            assert_eq!(table.header_style, Style { fg: Some(Color::Red), bg: None, modifier: None });
        }
        _ => panic!("the page draws a table"),
    }
}

#[test]
fn message_box_starts_modal_focused_and_shown() {
    let message_box = UiMessageBox::new("t", String::from("m"), UiMessageBoxType::Warn);
    assert!(message_box.is_modal());
    assert!(message_box.on_focus());
    assert!(message_box.is_visible());
    assert!(!message_box.is_remove_requested());
    assert_eq!(message_box.title(), "t");
    assert_eq!(message_box.text(), "m");
    assert_eq!(message_box.message_type(), UiMessageBoxType::Warn);
    assert_eq!(UiMessageBox::info("t", String::new()).message_type(), UiMessageBoxType::Info);
    assert_eq!(UiMessageBox::warn("t", String::new()).message_type(), UiMessageBoxType::Warn);
    assert_eq!(UiMessageBox::err("t", String::new()).message_type(), UiMessageBoxType::Error);
}

#[test]
fn message_box_swallows_characters_and_closes_on_q() {
    let db = Db::default();
    let mut bus: UiEvents = Events::default();
    let mut message_box = UiMessageBox::info("t", String::from("m"));
    assert!(message_box.on_term_event(&ch('x'), &db, &mut bus));
    assert!(!message_box.is_remove_requested());
    assert!(message_box.on_term_event(&ch('q'), &db, &mut bus));
    assert!(message_box.is_remove_requested());
    assert!(!message_box.on_term_event(&key(KeyEvent::Tab), &db, &mut bus));
    assert!(!message_box.on_term_event(&TerminalEvent::Paste(String::from("q")), &db, &mut bus));
}

#[test]
fn events_of_the_bus_go_through_the_dispatch_protocol() {
    let db = Db::default();
    let mut bus: UiEvents = Events::default();
    let mut message_box = UiMessageBox::info("t", String::from("m"));
    assert!(!message_box.dispatch_ui_event(&UiEvent::MenuSwitched(1), &db, &mut bus));
    assert!(!message_box.dispatch_ui_event(&UiEvent::Request(ControllerRequest::LoadExercises), &db, &mut bus));
    assert!(!message_box.dispatch_ui_event(&UiEvent::TermEvent(key(KeyEvent::Tab)), &db, &mut bus));
    assert!(!message_box.is_remove_requested());
    assert!(message_box.dispatch_ui_event(&UiEvent::TermEvent(key(KeyEvent::Esc)), &db, &mut bus));
    assert!(message_box.is_remove_requested());
}

#[test]
fn message_box_without_focus_takes_nothing() {
    let db = Db::default();
    let mut bus: UiEvents = Events::default();
    let mut message_box = UiMessageBox::info("t", String::from("m"));
    message_box.focus(false);
    assert!(!message_box.on_term_event(&key(KeyEvent::Esc), &db, &mut bus));
    assert!(!message_box.is_remove_requested());
}

#[test]
fn message_box_hands_out_its_work_once_on_enter() {
    let db = Db::default();
    let mut bus: UiEvents = Events::default();
    let mut message_box = UiMessageBox::warn("t", String::from("m"));
    message_box.set_on_accept(ControllerRequest::RemoveExercise(5));
    assert!(message_box.on_term_event(&key(KeyEvent::Enter), &db, &mut bus));
    assert!(message_box.is_remove_requested());
    let sent = drained(&mut bus);
    assert_eq!(sent.len(), 1);
    assert!(matches!(sent[0], UiEvent::Request(ControllerRequest::RemoveExercise(5))));
    assert!(message_box.on_term_event(&key(KeyEvent::Enter), &db, &mut bus));
    assert!(drained(&mut bus).is_empty());
}

#[test]
fn message_box_escape_does_not_hand_out_the_work() {
    let db = Db::default();
    let mut bus: UiEvents = Events::default();
    let mut message_box = UiMessageBox::warn("t", String::from("m"));
    message_box.set_on_accept(ControllerRequest::RemoveExercise(5));
    assert!(message_box.on_term_event(&key(KeyEvent::Esc), &db, &mut bus));
    assert!(message_box.is_remove_requested());
    assert!(drained(&mut bus).is_empty());
}

#[test]
fn message_box_paints_wipe_box_and_text() {
    let mut message_box = UiMessageBox::err("Exercises", String::from("broken"));
    message_box.set_title(String::from("Server"));
    message_box.set_text(String::from("down"));
    let mut frame = RenderFrame::new(area());
    let frame_area = Rect { x: 1, y: 2, width: 30, height: 10 };
    let inner = Rect { x: 2, y: 3, width: 28, height: 8 };
    message_box.paint(&mut frame, frame_area, inner);
    assert_eq!(frame.ops().len(), 3);
    assert!(matches!(&frame.ops()[0], RenderOp::Clear { area } if *area == frame_area));
    match &frame.ops()[1] {
        RenderOp::Block { area, block } => {
            assert_eq!(*area, frame_area);
            assert_eq!(block.title, "Error message: `Server`; -> Commands(Close: [q] | [ESC] | [ENTER])");
            assert_eq!(block.border_style, Style { fg: Some(Color::Red), bg: None, modifier: None });
            assert!(block.borders);
        }
        _ => panic!("the second widget is the box"),
    }
    match &frame.ops()[2] {
        RenderOp::Paragraph { area, paragraph } => {
            assert_eq!(*area, inner);
            assert_eq!(paragraph.text, "down");
            assert_eq!(paragraph.wrap, Some(true));
            assert!(paragraph.block.is_none());
        }
        _ => panic!("the third widget is the text"),
    }
}

#[test]
fn message_box_border_colour_follows_the_kind() {
    let border = |message_box: UiMessageBox| {
        let mut frame = RenderFrame::new(area());
        message_box.paint(&mut frame, area(), area());
        match &frame.ops()[1] {
            RenderOp::Block { block, .. } => (block.title.clone(), block.border_style.fg),
            _ => panic!("the second widget is the box"),
        }
    };
    assert_eq!(
        border(UiMessageBox::info("x", String::new())),
        (String::from("Info message: `x`; -> Commands(Close: [q] | [ESC] | [ENTER])"), Some(Color::White))
    );
    assert_eq!(
        border(UiMessageBox::warn("x", String::new())),
        (String::from("Warning message: `x`; -> Commands(Close: [q] | [ESC] | [ENTER])"), Some(Color::Yellow))
    );
}

#[test]
fn message_box_is_laid_out_inside_the_area() {
    let whole = Rect { x: 0, y: 0, width: 100, height: 40 };
    let (frame, inner) = UiMessageBox::layout(whole).unwrap();
    assert_eq!(frame, Rect { x: 25, y: 10, width: 50, height: 20 });
    assert_eq!(inner, Rect { x: 26, y: 11, width: 48, height: 19 });
}

#[test]
fn message_box_in_an_area_too_large_to_divide_paints_nothing() {
    let db = Db::default();
    let huge = Rect { x: 0, y: 0, width: 10, height: 40000 };
    assert!(UiMessageBox::layout(huge).is_none());
    let message_box = UiMessageBox::info("t", String::from("m"));
    let mut frame = RenderFrame::new(huge);
    message_box.draw(&mut frame, huge, &db);
    assert!(frame.ops().is_empty());
}

#[test]
fn editor_starts_on_a_new_exercise() {
    let editor = UiExerciseEditor::new();
    assert!(editor.on_focus());
    assert!(editor.is_visible());
    assert!(editor.is_modal());
    assert!(!editor.is_remove_requested());
    let data = editor.data();
    assert_eq!((data.id, data.name.as_str(), data.description.as_str()), (0, "", ""));
}

#[test]
fn editor_types_into_the_field_with_the_focus() {
    let db = Db::default();
    let mut bus: UiEvents = Events::default();
    let mut editor = UiExerciseEditor::new();
    editor.focus(true);
    assert!(editor.on_term_event(&ch('a'), &db, &mut bus));
    assert!(editor.on_term_event(&key(KeyEvent::Tab), &db, &mut bus));
    assert!(editor.on_term_event(&ch('b'), &db, &mut bus));
    assert!(editor.on_term_event(&key(KeyEvent::BackTab), &db, &mut bus));
    assert!(editor.on_term_event(&ch('c'), &db, &mut bus));
    let data = editor.data();
    assert_eq!((data.name.as_str(), data.description.as_str()), ("ac", "b"));
}

#[test]
fn editor_without_focus_on_a_field_types_into_the_description() {
    let db = Db::default();
    let mut bus: UiEvents = Events::default();
    let mut editor = UiExerciseEditor::new();
    // A new editor has the focus, its fields have not: characters reach the
    // editor itself, which swallows them.
    assert!(editor.on_term_event(&ch('x'), &db, &mut bus));
    let data = editor.data();
    assert_eq!((data.name.as_str(), data.description.as_str()), ("", ""));
    assert!(editor.on_term_event(&ch('q'), &db, &mut bus));
    assert!(editor.is_remove_requested());
    assert!(!editor.is_visible());
}

#[test]
fn editor_loads_and_sends_an_update() {
    let db = Db::default();
    let mut bus: UiEvents = Events::default();
    let mut editor = UiExerciseEditor::new();
    editor.load_data(&Exercise::new(4, String::from("Row"), String::from("Back")));
    assert!(editor.on_term_event(&key(KeyEvent::Enter), &db, &mut bus));
    let sent = drained(&mut bus);
    assert_eq!(sent.len(), 1);
    match &sent[0] {
        UiEvent::Request(ControllerRequest::UpdateExercise(data)) => {
            assert_eq!((data.id, data.name.as_str(), data.description.as_str()), (4, "Row", "Back"));
        }
        _ => panic!("a loaded editor sends an update"),
    }
    assert!(!editor.is_remove_requested());
}

#[test]
fn editor_rejects_a_name_that_is_too_long() {
    let db = Db::default();
    let mut bus: UiEvents = Events::default();
    let mut editor = UiExerciseEditor::new();
    editor.load_data(&Exercise::new(4, "x".repeat(101), String::from("Back")));
    assert!(!editor.on_term_event(&key(KeyEvent::Enter), &db, &mut bus));
    assert!(drained(&mut bus).is_empty());
    editor.load_data(&Exercise::new(4, "x".repeat(100), String::from("Back")));
    assert!(editor.on_term_event(&key(KeyEvent::Enter), &db, &mut bus));
    assert_eq!(drained(&mut bus).len(), 1);
}

#[test]
fn editor_reply_closes_on_success_and_reports_a_failure_when_connected() {
    let mut bus: UiEvents = Events::default();
    let mut editor = UiExerciseEditor::new();
    editor.on_reply(&Err(String::from("no")), &mut bus);
    assert!(!editor.is_remove_requested());
    assert!(drained(&mut bus).is_empty());
    editor.set_ui_events_manager();
    editor.on_reply(&Err(String::from("no")), &mut bus);
    assert!(!editor.is_remove_requested());
    let sent = drained(&mut bus);
    assert_eq!(sent.len(), 1);
    match &sent[0] {
        UiEvent::AddLayer(sport_helper::app_layer::AppLayer::MessageBox(message_box)) => {
            assert_eq!(message_box.title(), "Exercises");
            assert_eq!(message_box.text(), "Can`t insert exercise:\nno");
            assert_eq!(message_box.message_type(), UiMessageBoxType::Error);
        }
        _ => panic!("the failure is shown in a message box"),
    }
    editor.on_reply(&Ok(()), &mut bus);
    assert!(editor.is_remove_requested());
    assert!(!editor.is_visible());
}

#[test]
fn editor_paints_its_two_fields() {
    let db = Db::default();
    let editor = UiExerciseEditor::new();
    let mut frame = RenderFrame::new(area());
    let whole = Rect { x: 10, y: 5, width: 40, height: 20 };
    let name = Rect { x: 11, y: 6, width: 38, height: 3 };
    let description = Rect { x: 11, y: 9, width: 38, height: 15 };
    editor.paint(&mut frame, whole, name, description, &db);
    assert_eq!(frame.ops().len(), 4);
    assert!(matches!(&frame.ops()[0], RenderOp::Clear { area } if *area == whole));
    match &frame.ops()[1] {
        RenderOp::Block { area, block } => {
            assert_eq!(*area, whole);
            assert_eq!(block.title, "Exercise;  -> Commands(Exit: [q], Reject: [ESC], Accept: [ENTER])");
        }
        _ => panic!("the second widget is the box"),
    }
    assert!(matches!(&frame.ops()[2], RenderOp::Paragraph { area, .. } if *area == name));
    assert!(matches!(&frame.ops()[3], RenderOp::Paragraph { area, .. } if *area == description));
}

#[test]
fn a_hidden_editor_paints_nothing() {
    let db = Db::default();
    let mut editor = UiExerciseEditor::new();
    editor.close();
    let mut frame = RenderFrame::new(area());
    editor.draw(&mut frame, area(), &db);
    assert!(frame.ops().is_empty());
}

#[test]
fn editor_layout_gives_room_for_both_fields() {
    let (frame, name, description) = UiExerciseEditor::layout(area()).unwrap();
    assert_eq!(frame, Rect { x: 25, y: 10, width: 50, height: 20 });
    assert_eq!(name.x, 26);
    assert_eq!(description.x, 26);
    assert_eq!(name.width, 48);
    assert_eq!(description.width, 48);
    assert_eq!(name.y, 11);
    assert_eq!(description.y, name.y + name.height);
    assert_eq!(description.y + description.height, 29);
}

#[test]
fn label_draws_its_text() {
    let db = Db::default();
    let label = UiLabel::new("one").text("two");
    let mut frame = RenderFrame::new(area());
    let place = Rect { x: 3, y: 4, width: 10, height: 1 };
    label.draw(&mut frame, place, &db);
    assert_eq!(frame.ops().len(), 1);
    assert!(matches!(&frame.ops()[0], RenderOp::Label { area, text } if *area == place && text == "two"));
    assert!(label.is_visible());
}

#[test]
fn footer_draws_a_help_box_and_its_text() {
    let db = Db::default();
    let mut footer = Footer::default();
    footer.content = String::from("Quit[q]");
    let place = Rect { x: 0, y: 20, width: 50, height: 4 };
    let mut frame = RenderFrame::new(area());
    footer.draw(&mut frame, place, &db);
    assert_eq!(frame.ops().len(), 2);
    match &frame.ops()[0] {
        RenderOp::Block { area, block } => {
            assert_eq!(*area, place);
            assert_eq!(block.title, "Help");
            assert!(block.borders);
        }
        _ => panic!("the first widget is the box"),
    }
    match &frame.ops()[1] {
        RenderOp::Label { area, text } => {
            assert_eq!(*area, Rect { x: 1, y: 21, width: 48, height: 1 });
            assert_eq!(text, "Quit[q]");
        }
        _ => panic!("the second widget is the text"),
    }
}

#[test]
fn footer_at_the_edge_of_the_coordinates_draws_the_box_alone() {
    let db = Db::default();
    let footer = Footer::default();
    let place = Rect { x: 65535, y: 0, width: 4, height: 4 };
    let mut frame = RenderFrame::new(area());
    footer.draw(&mut frame, place, &db);
    assert_eq!(frame.ops().len(), 1);
}

#[test]
fn a_layer_of_components_offers_the_event_until_one_consumes() {
    let db = Db::default();
    let mut bus: UiEvents = Events::default();
    let mut layer: UiLayer<TextEdit<EmptyStrValidator>> = UiLayer::new();
    assert_eq!(layer.len(), 0);
    layer.add(TextEdit::new("a", String::new(), EmptyStrValidator::default()));
    layer.add(TextEdit::new("b", String::new(), EmptyStrValidator::default()));
    assert_eq!(layer.len(), 2);
    assert!(!layer.on_focus());
    assert!(layer.is_visible());
    assert!(!layer.is_modal());
    assert!(!layer.on_term_event(&ch('x'), &db, &mut bus));
    layer.focus(true);
    assert!(layer.on_focus());
    assert!(layer.on_term_event(&ch('x'), &db, &mut bus));
    // Escape takes the focus from the first field only.
    assert!(layer.on_term_event(&key(KeyEvent::Esc), &db, &mut bus));
    assert!(layer.on_term_event(&ch('y'), &db, &mut bus));
    let mut frame = RenderFrame::new(area());
    layer.draw(&mut frame, area(), &db);
    let texts: Vec<String> = frame
        .ops()
        .iter()
        .filter_map(|op| match op {
            RenderOp::Paragraph { paragraph, .. } => Some(paragraph.text.clone()),
            _ => None,
        })
        .collect();
    assert_eq!(texts, vec!["x", "y"]);
    layer.set_modal(true);
    assert!(layer.is_modal());
    assert!(!layer.is_remove_requested());
    layer.set_visible(false);
    assert!(!layer.is_visible());
    assert!(layer.on_focus());
}

#[test]
fn a_layer_can_be_made_of_given_components() {
    let layer = UiLayer::with_components(vec![
        TextEdit::new("a", String::new(), EmptyStrValidator::default()),
        TextEdit::new("b", String::new(), EmptyStrValidator::default()),
        TextEdit::new("c", String::new(), EmptyStrValidator::default()),
    ]);
    assert_eq!(layer.len(), 3);
    fn is_item<C: LayerItemComponent>(_: &UiLayer<C>) {}
    is_item(&layer);
}

#[test]
fn the_sender_puts_events_on_the_bus() {
    let mut bus: UiEvents = Events::default();
    let sender = UiEventSender::new();
    sender.send_menu_switched_event(&mut bus, 1);
    sender.send_request(&mut bus, ControllerRequest::RemoveExercise(2));
    sender.send_add_layer_event(
        &mut bus,
        sport_helper::app_layer::AppLayer::MessageBox(UiMessageBox::info("t", String::new())),
    );
    let sent = drained(&mut bus);
    assert_eq!(sent.len(), 3);
    assert!(matches!(sent[0], UiEvent::MenuSwitched(1)));
    assert!(matches!(sent[1], UiEvent::Request(ControllerRequest::RemoveExercise(2))));
    assert!(matches!(sent[2], UiEvent::AddLayer(_)));
}

#[test]
fn a_layer_without_focus_asks_no_component() {
    let db = Db::default();
    let mut bus: UiEvents = Events::default();
    let mut field = TextEdit::new("a", String::new(), EmptyStrValidator::default());
    field.focus(true);
    let mut layer = UiLayer::with_components(vec![field]);
    assert!(!layer.on_focus());
    assert!(!layer.on_term_event(&ch('x'), &db, &mut bus));
    let mut frame = RenderFrame::new(area());
    layer.draw(&mut frame, area(), &db);
    assert!(matches!(&frame.ops()[0], RenderOp::Paragraph { paragraph, .. } if paragraph.text.is_empty()));
    layer.focus(true);
    assert!(layer.on_term_event(&ch('x'), &db, &mut bus));
    let mut frame = RenderFrame::new(area());
    layer.draw(&mut frame, area(), &db);
    assert!(matches!(&frame.ops()[0], RenderOp::Paragraph { paragraph, .. } if paragraph.text == "x"));
}

#[test]
fn an_editor_that_loses_the_focus_takes_it_from_both_fields() {
    let db = Db::default();
    let mut bus: UiEvents = Events::default();
    let field_colours = |editor: &UiExerciseEditor| {
        let mut frame = RenderFrame::new(area());
        editor.paint(&mut frame, area(), area(), area(), &db);
        frame
            .ops()
            .iter()
            .filter_map(|op| match op {
                RenderOp::Paragraph { paragraph, .. } => paragraph.block.as_ref().and_then(|block| block.style.fg),
                _ => None,
            })
            .collect::<Vec<Color>>()
    };
    let mut editor = UiExerciseEditor::new();
    editor.focus(true);
    assert_eq!(field_colours(&editor), vec![Color::Black, Color::Gray]);
    assert!(editor.on_term_event(&key(KeyEvent::Tab), &db, &mut bus));
    assert_eq!(field_colours(&editor), vec![Color::Gray, Color::Black]);
    editor.focus(false);
    assert!(!editor.on_focus());
    assert_eq!(field_colours(&editor), vec![Color::Gray, Color::Gray]);
    assert!(!editor.on_term_event(&ch('x'), &db, &mut bus));
    editor.focus(true);
    assert_eq!(field_colours(&editor), vec![Color::Black, Color::Gray]);
}
