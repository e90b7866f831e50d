use vantage::engine::Engine;
use vantage::input::InputEvent;
use vantage::setting::{Setting, Settings};
use vantage::value::SettingValue;
use vantage::view_model::{build_view, ViewRow};

fn two_settings() -> Engine {
    let items = vec![
        Setting::new("FnLock".to_string(), "Fn Lock".to_string(), "/sys/fn_lock".to_string()),
        Setting::new(
            "ConservationMode".to_string(),
            "Conservation Mode".to_string(),
            "/sys/conservation_mode".to_string(),
        ),
    ];
    Engine::new(Settings::new(items).unwrap())
}

fn row(label: &str, value: &str, is_selected: bool) -> ViewRow {
    ViewRow { label: label.to_string(), value: value.to_string(), is_selected }
}

fn selected_rows(rows: &Vec<ViewRow>) -> usize {
    rows.iter().filter(|row| row.is_selected).count()
}

#[test]
fn rows_follow_the_catalogue() {
    let engine = two_settings();
    let rows = build_view(&engine, &vec![SettingValue::Off, SettingValue::On]);
    assert_eq!(
        rows,
        vec![row("Fn Lock", "0", true), row("Conservation Mode", "1", false)]
    );
}

#[test]
fn selected_row_follows_the_selection() {
    let mut engine = two_settings();
    engine.step(InputEvent::MoveNext);
    let rows = build_view(&engine, &vec![SettingValue::Off, SettingValue::On]);
    assert_eq!(
        rows,
        vec![row("Fn Lock", "0", false), row("Conservation Mode", "1", true)]
    );
}

#[test]
fn unrecognized_text_is_shown_verbatim() {
    let engine = two_settings();
    let values = vec![
        SettingValue::Unrecognized("garbage".to_string()),
        SettingValue::Unrecognized(String::new()),
    ];
    let rows = build_view(&engine, &values);
    assert_eq!(
        rows,
        vec![row("Fn Lock", "garbage", true), row("Conservation Mode", "", false)]
    );
}

#[test]
fn exactly_one_row_is_selected_in_every_frame() {
    let events = [
        InputEvent::MoveNext,
        InputEvent::MoveNext,
        InputEvent::Confirm,
        InputEvent::MovePrevious,
        InputEvent::MovePrevious,
        InputEvent::MovePrevious,
        InputEvent::SetLow,
        InputEvent::Ignore,
        InputEvent::Quit,
    ];
    let mut items: Vec<Setting> = Vec::new();
    for i in 0..3 {
        items.push(Setting::new(format!("s{}", i), format!("S{}", i), format!("/p{}", i)));
    }
    let mut engine = Engine::new(Settings::new(items).unwrap());
    let values = vec![SettingValue::On, SettingValue::Off, SettingValue::parse("?")];
    for event in events {
        engine.step(event);
        let rows = build_view(&engine, &values);
        assert_eq!(rows.len(), 3);
        assert_eq!(selected_rows(&rows), 1);
        assert!(rows[engine.selected()].is_selected);
    }
}

#[test]
fn building_twice_gives_the_same_rows() {
    let engine = two_settings();
    let values = vec![SettingValue::On, SettingValue::parse("x")];
    let first = build_view(&engine, &values);
    let second = build_view(&engine, &values);
    assert_eq!(first, second);
    assert_eq!(engine.selected(), 0);
    assert_eq!(values, vec![SettingValue::On, SettingValue::parse("x")]);
}

#[test]
fn single_setting_has_one_selected_row() {
    let items = vec![Setting::new("a".to_string(), "A".to_string(), "/a".to_string())];
    let engine = Engine::new(Settings::new(items).unwrap());
    let rows = build_view(&engine, &vec![SettingValue::On]);
    assert_eq!(rows, vec![row("A", "1", true)]);
}
