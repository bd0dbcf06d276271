use sport_helper::config::{AccountConfig, KeyMap};
use sport_helper::controller::{Controller, ControllerExercises, ControllerPerson, ControllerReply, ReplyKind};
use sport_helper::entity::{Exercise, Moment, Person};
use sport_helper::event_dispatcher::KeyEvent;
use sport_helper::layout::{Constraint, Direction, Layout, Rect};
use sport_helper::model::{Db, Exercises, Persons, Table};
use sport_helper::rest::{
    exercises_path, persons_path, server_address, BodyKind, HttpMethod, RestClientError, RestOperation, ServerError, ServerMessage,
    ServerOperationStatus, STATUS_OK,
};
use sport_helper::style::{Color, Modifier, Style};
use sport_helper::text::to_decimal;
use sport_helper::theme::UiTheme;
use sport_helper::utils::centered_rect;

fn exercise(id: u64, name: &str) -> Exercise {
    Exercise::new(id, String::from(name), String::from("text"))
}

fn person(id: u64, name: &str) -> Person {
    Person::new(id, String::from(name), String::from("Doe"), Moment { seconds: 86400, nanos: 5 }, String::from("f"), 170)
}

fn ok() -> Result<ServerOperationStatus, RestClientError> {
    Ok(ServerOperationStatus::new(String::from("ok")))
}

fn failed<T>() -> Result<T, RestClientError> {
    Err(RestClientError::Request(String::from("down")))
}

#[test]
fn inserted_exercise_is_found() {
    let mut table = Exercises::default();
    let kept = table.insert(exercise(7, "Squat")).map(|e| e.name.clone());
    assert_eq!(kept, Some(String::from("Squat")));
    assert!(table.contains(7));
    assert!(!table.contains(8));
    assert_eq!(table.len(), 1);
    assert_eq!(table.get_one(7).unwrap().name, "Squat");
    assert!(table.get_one(8).is_none());
}

#[test]
fn insert_replaces_the_exercise_with_the_same_key() {
    let mut table = Exercises::default();
    table.insert(exercise(7, "Squat"));
    table.insert(exercise(7, "Lunge"));
    assert_eq!(table.len(), 1);
    assert_eq!(table.get_one(7).unwrap().name, "Lunge");
}

#[test]
fn update_changes_only_what_the_table_holds() {
    let mut table = Exercises::default();
    table.insert(exercise(7, "Squat"));
    table.update(exercise(8, "Row"));
    assert_eq!(table.len(), 1);
    assert!(!table.contains(8));
    table.update(exercise(7, "Lunge"));
    assert_eq!(table.get_one(7).unwrap().name, "Lunge");
}

#[test]
fn remove_and_clear_drop_entities() {
    let mut table = Exercises::default();
    table.insert(exercise(1, "a"));
    table.insert(exercise(2, "b"));
    table.insert(exercise(3, "c"));
    table.remove(2);
    table.remove(9);
    assert_eq!(table.ids(), vec![1, 3]);
    table.clear();
    assert_eq!(table.len(), 0);
    assert!(table.get_all().is_empty());
}

#[test]
fn the_listing_is_in_ascending_order_of_the_keys() {
    let mut table = Exercises::default();
    for id in [40u64, 3, 17, 1, 99, 25] {
        table.insert(exercise(id, "x"));
    }
    assert_eq!(table.ids(), vec![1, 3, 17, 25, 40, 99]);
    let listed: Vec<u64> = table.get_all().iter().map(|e| e.id).collect();
    assert_eq!(listed, vec![1, 3, 17, 25, 40, 99]);
}

#[test]
fn persons_are_kept_like_exercises() {
    let mut table = Persons::default();
    table.insert(person(5, "Ann"));
    table.insert(person(2, "Bob"));
    table.update(person(2, "Rob"));
    table.update(person(3, "Cid"));
    assert_eq!(table.ids(), vec![2, 5]);
    assert_eq!(table.len(), 2);
    assert!(table.contains(5));
    assert_eq!(table.get_one(2).unwrap().first_name, "Rob");
    assert_eq!(table.get_one(2).unwrap().birth_date, Moment { seconds: 86400, nanos: 5 });
    let names: Vec<&str> = table.get_all().iter().map(|p| p.first_name.as_str()).collect();
    assert_eq!(names, vec!["Rob", "Ann"]);
    table.remove(5);
    assert_eq!(table.ids(), vec![2]);
    table.clear();
    assert_eq!(table.len(), 0);
}

#[test]
fn default_entities_are_empty() {
    let e = Exercise::default();
    assert_eq!((e.id, e.name.as_str(), e.description.as_str()), (0, "", ""));
    let p = Person::default();
    assert_eq!((p.id, p.first_name.as_str(), p.last_name.as_str(), p.gender.as_str(), p.height), (0, "", "", "", 0));
    assert_eq!(p.birth_date, Moment { seconds: 0, nanos: 0 });
    let copy = person(1, "Ann").clone();
    assert_eq!((copy.id, copy.first_name.as_str(), copy.height), (1, "Ann", 170));
}

#[test]
fn the_cache_has_a_table_for_each_kind() {
    let mut db = Db::default();
    db.exercises_mut().insert(exercise(1, "a"));
    db.persons_mut().insert(person(2, "b"));
    assert_eq!(db.exercises().len(), 1);
    assert_eq!(db.persons().len(), 1);
    assert!(db.persons().contains(2));
}

#[test]
fn load_all_keeps_what_came_and_empties_the_cache_on_failure() {
    let rules = ControllerExercises {};
    let mut db = Db::default();
    db.exercises_mut().insert(exercise(1, "old"));
    let outcome = rules.load_all(&mut db, Ok(vec![exercise(2, "a"), exercise(3, "b"), exercise(2, "c")]));
    assert!(outcome.is_ok());
    assert_eq!(db.exercises().ids(), vec![1, 2, 3]);
    // Of two exercises with one key, the later one stays.
    assert_eq!(db.exercises().get_one(2).unwrap().name, "c");
    let outcome = rules.load_all(&mut db, failed());
    assert!(matches!(outcome, Err(RestClientError::Request(why)) if why == "down"));
    assert_eq!(db.exercises().len(), 0);
}

#[test]
fn the_other_rules_for_exercises_follow_the_server() {
    let rules = ControllerExercises {};
    let mut db = Db::default();
    rules.load_one(&mut db, Ok(exercise(1, "a")));
    rules.load_one(&mut db, failed());
    assert_eq!(db.exercises().ids(), vec![1]);
    assert!(rules.insert(&mut db, Ok(exercise(2, "b"))).is_ok());
    assert!(rules.insert(&mut db, failed()).is_err());
    assert_eq!(db.exercises().ids(), vec![1, 2]);
    assert!(rules.update(&mut db, exercise(2, "c"), ok()).is_ok());
    assert_eq!(db.exercises().get_one(2).unwrap().name, "c");
    assert!(rules.update(&mut db, exercise(2, "d"), failed()).is_err());
    assert_eq!(db.exercises().get_one(2).unwrap().name, "c");
    assert!(rules.update(&mut db, exercise(5, "e"), ok()).is_ok());
    assert!(!db.exercises().contains(5));
    assert!(rules.remove_exercise(&mut db, 1, failed()).is_err());
    assert_eq!(db.exercises().ids(), vec![1, 2]);
    assert!(rules.remove_exercise(&mut db, 1, ok()).is_ok());
    assert_eq!(db.exercises().ids(), vec![2]);
}

#[test]
fn the_rules_for_persons_follow_the_server() {
    let rules = ControllerPerson {};
    let mut db = Db::default();
    rules.load_one(&mut db, Ok(person(1, "a")));
    rules.load_one(&mut db, failed());
    assert!(rules.insert(&mut db, Ok(person(2, "b"))).is_ok());
    assert!(rules.insert(&mut db, failed()).is_err());
    assert_eq!(db.persons().ids(), vec![1, 2]);
    assert!(rules.update(&mut db, person(2, "c"), ok()).is_ok());
    assert!(rules.update(&mut db, person(2, "d"), failed()).is_err());
    assert_eq!(db.persons().get_one(2).unwrap().first_name, "c");
    assert!(rules.remove_person(&mut db, 1, failed()).is_err());
    assert!(rules.remove_person(&mut db, 1, ok()).is_ok());
    assert_eq!(db.persons().ids(), vec![2]);
}

#[test]
fn the_controller_takes_replies() {
    let mut controller = Controller::new(AccountConfig { id: 4 }, KeyMap::default());
    assert!(controller.account().is_valid());
    assert_eq!(controller.key_map().quit, 'q');
    assert!(controller.take(ControllerReply::Loaded(Ok(vec![exercise(1, "a")]))).is_ok());
    assert!(controller.take(ControllerReply::Inserted(Ok(exercise(2, "b")))).is_ok());
    assert!(controller.take(ControllerReply::Updated(exercise(1, "c"), ok())).is_ok());
    assert!(controller.take(ControllerReply::Removed(2, ok())).is_ok());
    assert_eq!(controller.db().exercises().ids(), vec![1]);
    assert_eq!(controller.db().exercises().get_one(1).unwrap().name, "c");
    assert!(controller.take(ControllerReply::Removed(1, failed())).is_err());
    assert_eq!(controller.db().exercises().len(), 1);
    controller.db_mut().exercises_mut().clear();
    assert_eq!(controller.db().exercises().len(), 0);
    controller.person().load_one(&mut Db::default(), failed());
    controller.exercises().load_one(&mut Db::default(), failed());
    assert_eq!(ControllerReply::Loaded(failed()).kind(), ReplyKind::Loaded);
    assert_eq!(ControllerReply::Inserted(failed()).kind(), ReplyKind::Inserted);
    assert_eq!(ControllerReply::Updated(exercise(1, "a"), ok()).kind(), ReplyKind::Updated);
    assert_eq!(ControllerReply::Removed(1, ok()).kind(), ReplyKind::Removed);
}

#[test]
fn an_account_is_valid_when_its_id_is_set() {
    assert!(!AccountConfig::default().is_valid());
    assert!(!AccountConfig { id: 0 }.is_valid());
    assert!(AccountConfig { id: 1 }.is_valid());
    assert!(AccountConfig { id: u64::MAX }.is_valid());
}

#[test]
fn the_standard_keys() {
    let keys = KeyMap::default();
    assert_eq!(keys.quit, 'q');
    assert_eq!(keys.accept, KeyEvent::Enter);
    assert_eq!(keys.reject, KeyEvent::Esc);
}

#[test]
fn errors_are_shown_with_their_kind() {
    assert_eq!(RestClientError::Parse(String::from("eof")).to_string(), "parsing error: `eof`");
    assert_eq!(RestClientError::Request(String::from("refused")).to_string(), "request error: `refused`");
    assert_eq!(
        RestClientError::ServerMessage(ServerMessage::new(String::from("info"), String::from("busy"))).to_string(),
        "server message: `type: info, message: busy`"
    );
    assert_eq!(
        RestClientError::ServerError(ServerError::new(String::from("db"), String::from("lost"))).to_string(),
        "server error: `type: db, error: lost`"
    );
    assert_eq!(ServerMessage::new(String::from("a"), String::from("b")).to_string(), "type: a, message: b");
    assert_eq!(ServerError::new(String::from("a"), String::from("b")).to_string(), "type: a, error: b");
    assert_eq!(ServerOperationStatus::new(String::from("done")).status(), "done");
}

#[test]
fn requests_have_their_method_address_and_body() {
    assert_eq!(RestOperation::GetOne.method(), HttpMethod::Get);
    assert_eq!(RestOperation::GetAll.method(), HttpMethod::Get);
    assert_eq!(RestOperation::Insert.method(), HttpMethod::Post);
    assert_eq!(RestOperation::Update.method(), HttpMethod::Put);
    assert_eq!(RestOperation::Remove.method(), HttpMethod::Delete);
    assert_eq!(server_address("127.0.0.1", 5050), "http://127.0.0.1:5050");
    let path = exercises_path("http://127.0.0.1:5050");
    assert_eq!(path, "http://127.0.0.1:5050/exercises");
    assert_eq!(persons_path("http://h"), "http://h/persons");
    assert_eq!(RestOperation::GetOne.url(&path, 12), "http://127.0.0.1:5050/exercises/12");
    assert_eq!(RestOperation::Update.url(&path, 0), "http://127.0.0.1:5050/exercises/0");
    assert_eq!(RestOperation::Remove.url(&path, 18446744073709551615), "http://127.0.0.1:5050/exercises/18446744073709551615");
    assert_eq!(RestOperation::GetAll.url(&path, 12), "http://127.0.0.1:5050/exercises");
    assert_eq!(RestOperation::Insert.url(&path, 12), "http://127.0.0.1:5050/exercises");
    assert!(RestOperation::Insert.sends_body());
    assert!(RestOperation::Update.sends_body());
    assert!(!RestOperation::GetOne.sends_body());
    assert!(!RestOperation::GetAll.sends_body());
    assert!(!RestOperation::Remove.sends_body());
}

#[test]
fn only_a_failed_request_for_one_entity_is_read_as_an_error() {
    assert_eq!(STATUS_OK, 200);
    assert_eq!(RestOperation::GetOne.body_kind(200), BodyKind::Payload);
    assert_eq!(RestOperation::GetOne.body_kind(404), BodyKind::ServerError);
    assert_eq!(RestOperation::GetOne.body_kind(201), BodyKind::ServerError);
    for operation in [RestOperation::GetAll, RestOperation::Insert, RestOperation::Update, RestOperation::Remove] {
        assert_eq!(operation.body_kind(200), BodyKind::Payload);
        assert_eq!(operation.body_kind(500), BodyKind::Payload);
    }
}

#[test]
fn numbers_are_written_in_decimal() {
    assert_eq!(to_decimal(0), "0");
    assert_eq!(to_decimal(7), "7");
    assert_eq!(to_decimal(10), "10");
    assert_eq!(to_decimal(1234567890), "1234567890");
    assert_eq!(to_decimal(u64::MAX), u64::MAX.to_string());
}

#[test]
fn styles_are_built_part_by_part() {
    let style = Style::default().fg(Color::White).bg(Color::Black).add_modifier(Modifier::Bold);
    assert_eq!(style, Style { fg: Some(Color::White), bg: Some(Color::Black), modifier: Some(Modifier::Bold) });
    assert_eq!(Style::default(), Style { fg: None, bg: None, modifier: None });
    let theme = UiTheme::default();
    assert_eq!(theme.text_edit.text_style, Style { fg: Some(Color::White), bg: Some(Color::Black), modifier: None });
    assert_eq!(theme.table.highlight_style, Style { fg: None, bg: None, modifier: Some(Modifier::Reversed) });
}

#[test]
fn rect_edges() {
    let rect = Rect { x: 3, y: 4, width: 10, height: 20 };
    assert_eq!(rect.left(), 3);
    assert_eq!(rect.top(), 4);
    assert_eq!(Rect::default(), Rect { x: 0, y: 0, width: 0, height: 0 });
}

#[test]
fn split_gives_one_part_for_each_constraint() {
    let area = Rect { x: 2, y: 2, width: 10, height: 10 };
    let parts = Layout::default()
        .direction(Direction::Vertical)
        .constraints(vec![Constraint::Length(5), Constraint::Min(0)])
        .split(area)
        .unwrap();
    assert_eq!(
        parts,
        vec![Rect { x: 2, y: 2, width: 10, height: 5 }, Rect { x: 2, y: 7, width: 10, height: 5 }]
    );
    let parts = Layout::default()
        .direction(Direction::Horizontal)
        .constraints(vec![Constraint::Percentage(50), Constraint::Percentage(50)])
        .split(Rect { x: 0, y: 0, width: 8, height: 2 })
        .unwrap();
    assert_eq!(parts, vec![Rect { x: 0, y: 0, width: 4, height: 2 }, Rect { x: 4, y: 0, width: 4, height: 2 }]);
    let none = Layout::default().split(area).unwrap();
    assert!(none.is_empty());
}

#[test]
fn split_keeps_the_margin_free() {
    let parts = Layout::default()
        .direction(Direction::Vertical)
        .margin(1)
        .constraints(vec![Constraint::Length(3), Constraint::Min(10), Constraint::Length(3)])
        .split(Rect { x: 0, y: 0, width: 80, height: 24 })
        .unwrap();
    assert_eq!(
        parts,
        vec![
            Rect { x: 1, y: 1, width: 78, height: 3 },
            Rect { x: 1, y: 4, width: 78, height: 16 },
            Rect { x: 1, y: 20, width: 78, height: 3 },
        ]
    );
}

#[test]
fn split_refuses_what_the_solver_cannot_divide() {
    let layout = Layout::default().direction(Direction::Horizontal).constraints(vec![Constraint::Percentage(50)]);
    assert!(layout.can_split(Rect { x: 0, y: 0, width: 1310, height: 1 }));
    assert!(!layout.can_split(Rect { x: 0, y: 0, width: 1311, height: 1 }));
    assert!(layout.split(Rect { x: 0, y: 0, width: 1311, height: 1 }).is_none());
    // A percentage of zero fits every extent.
    let layout = Layout::default().constraints(vec![Constraint::Percentage(0), Constraint::Length(70000u32 as u16)]);
    assert!(layout.can_split(Rect { x: 0, y: 0, width: 65535, height: 65535 }));
    let layout = Layout::default().margin(40000);
    assert!(!layout.can_split(Rect { x: 0, y: 0, width: 10, height: 10 }));
    let layout = Layout::default().margin(2);
    assert!(!layout.can_split(Rect { x: 65534, y: 0, width: 10, height: 10 }));
    assert!(!layout.can_split(Rect { x: 0, y: 65534, width: 10, height: 10 }));
    // What is left inside the margin has to end on the coordinates.
    assert!(layout.can_split(Rect { x: 65527, y: 0, width: 10, height: 10 }));
    assert!(!layout.can_split(Rect { x: 65528, y: 0, width: 10, height: 10 }));
    assert!(layout.can_split(Rect { x: 0, y: 65527, width: 10, height: 10 }));
    assert!(!layout.can_split(Rect { x: 0, y: 65528, width: 10, height: 10 }));
    let plain = Layout::default().constraints(vec![Constraint::Length(1), Constraint::Min(0)]);
    assert!(plain.can_split(Rect { x: 65525, y: 65525, width: 10, height: 10 }));
    assert_eq!(plain.split(Rect { x: 65525, y: 65525, width: 10, height: 10 }).unwrap().len(), 2);
    assert!(!plain.can_split(Rect { x: 65526, y: 0, width: 10, height: 10 }));
    assert!(plain.split(Rect { x: 0, y: 65526, width: 10, height: 10 }).is_none());
    // Where the margin does not fit, nothing is left to overflow.
    assert!(layout.can_split(Rect { x: 65534, y: 0, width: 3, height: 10 }));
    assert!(layout.split(Rect { x: 65534, y: 0, width: 3, height: 10 }).is_some());
}

#[test]
fn centered_rect_is_the_middle_of_the_area() {
    let area = Rect { x: 0, y: 0, width: 100, height: 40 };
    assert_eq!(centered_rect(50, 50, area), Some(Rect { x: 25, y: 10, width: 50, height: 20 }));
    assert_eq!(centered_rect(100, 100, area), Some(area));
    assert_eq!(centered_rect(50, 50, Rect { x: 0, y: 0, width: 2000, height: 10 }), None);
    assert_eq!(centered_rect(50, 50, Rect { x: 0, y: 0, width: 10, height: 2000 }), None);
}

#[test]
fn the_last_part_ends_where_the_inside_of_the_area_ends() {
    let area = Rect { x: 3, y: 4, width: 40, height: 30 };
    let rows = Layout::default()
        .direction(Direction::Vertical)
        .margin(2)
        .constraints(vec![Constraint::Min(3), Constraint::Min(6)])
        .split(area)
        .unwrap();
    assert_eq!(rows.len(), 2);
    assert_eq!(rows[1].y + rows[1].height, 4 + 30 - 2);
    let columns = Layout::default()
        .direction(Direction::Horizontal)
        .constraints(vec![Constraint::Length(5), Constraint::Length(5), Constraint::Length(5)])
        .split(area)
        .unwrap();
    assert_eq!(columns.len(), 3);
    assert_eq!(columns[2].x + columns[2].width, 3 + 40);
    let squeezed = Layout::default()
        .direction(Direction::Vertical)
        .margin(20)
        .constraints(vec![Constraint::Length(5)])
        .split(area)
        .unwrap();
    // The margin does not fit: what is left is the empty corner.
    assert_eq!(squeezed, vec![Rect { x: 0, y: 0, width: 0, height: 0 }]);
}

#[test]
fn the_controller_keeps_its_keys_and_account() {
    let keys = KeyMap { quit: 'x', accept: KeyEvent::Tab, reject: KeyEvent::Esc };
    let mut controller = Controller::new(AccountConfig { id: 9 }, keys);
    assert_eq!(controller.key_map().quit, 'x');
    assert_eq!(controller.key_map().accept, KeyEvent::Tab);
    assert_eq!(controller.account().id, 9);
    assert!(controller.take(ControllerReply::Loaded(Ok(vec![exercise(1, "a")]))).is_ok());
    assert_eq!(controller.key_map().quit, 'x');
    assert_eq!(controller.account().id, 9);
}
