use vantage::engine::{Engine, Step};
use vantage::input::{decode_key, InputEvent, KeyCode, KeyKind, KeyPress};
use vantage::setting::{Setting, Settings};
use vantage::store::{plan_write, value_of_read, WriteError};
use vantage::value::SettingValue;
use vantage::view_model::{build_view, ViewRow};

/// Backing files held in memory: the contents of each, `None` for a file
/// that cannot be read, and whether writes are refused.
struct Files {
    contents: Vec<Option<String>>,
    read_only: bool,
    writes: usize,
}

impl Files {
    fn holding(texts: &[&str]) -> Files {
        let contents = texts.iter().map(|text| Some(text.to_string())).collect();
        Files { contents, read_only: false, writes: 0 }
    }

    fn read(&self, setting: usize) -> Option<String> {
        self.contents[setting].clone()
    }

    fn write(&mut self, setting: usize, text: String) -> Result<(), String> {
        self.writes += 1;
        if self.read_only {
            Err("Permission denied".to_string())
        } else {
            self.contents[setting] = Some(text);
            Ok(())
        }
    }

    fn text(&self, setting: usize) -> &str {
        self.contents[setting].as_deref().unwrap()
    }
}

/// What one turn of the outer loop gave.
#[derive(Debug, PartialEq)]
enum Turn {
    Quit,
    Done(Result<(), WriteError>),
}

fn panel(labels: &[&str]) -> Engine {
    let mut items: Vec<Setting> = Vec::new();
    for label in labels {
        items.push(Setting::new(label.to_string(), label.to_string(), format!("/sys/{}", label)));
    }
    Engine::new(Settings::new(items).unwrap())
}

fn turn(engine: &mut Engine, files: &mut Files, event: InputEvent) -> Turn {
    match engine.step(event) {
        Step::Quit => Turn::Quit,
        Step::Idle => Turn::Done(Ok(())),
        Step::Update { setting, change } => {
            match plan_write(setting, change, files.read(setting)) {
                Some(request) => {
                    let outcome = files.write(request.setting, request.text.clone());
                    Turn::Done(request.report(outcome))
                }
                None => Turn::Done(Ok(())),
            }
        }
    }
}

fn frame(engine: &Engine, files: &Files) -> Vec<ViewRow> {
    let mut values: Vec<SettingValue> = Vec::new();
    for setting in 0..engine.settings().len() {
        values.push(value_of_read(files.read(setting)));
    }
    build_view(engine, &values)
}

fn row(label: &str, value: &str, is_selected: bool) -> ViewRow {
    ViewRow { label: label.to_string(), value: value.to_string(), is_selected }
}

#[test]
fn confirm_on_zero_writes_one() {
    let mut engine = panel(&["A"]);
    let mut files = Files::holding(&["0"]);
    assert_eq!(turn(&mut engine, &mut files, InputEvent::Confirm), Turn::Done(Ok(())));
    assert_eq!(files.text(0), "1");
}

#[test]
fn confirm_on_one_writes_zero() {
    let mut engine = panel(&["A"]);
    let mut files = Files::holding(&["1"]);
    assert_eq!(turn(&mut engine, &mut files, InputEvent::Confirm), Turn::Done(Ok(())));
    assert_eq!(files.text(0), "0");
}

#[test]
fn confirm_twice_restores_the_file() {
    let mut engine = panel(&["A"]);
    let mut files = Files::holding(&["1"]);
    turn(&mut engine, &mut files, InputEvent::Confirm);
    turn(&mut engine, &mut files, InputEvent::Confirm);
    assert_eq!(files.text(0), "1");
    assert_eq!(files.writes, 2);
}

#[test]
fn set_low_on_one_writes_zero() {
    let mut engine = panel(&["A"]);
    let mut files = Files::holding(&["1"]);
    assert_eq!(turn(&mut engine, &mut files, InputEvent::SetLow), Turn::Done(Ok(())));
    assert_eq!(files.text(0), "0");
}

#[test]
fn set_high_on_zero_writes_one() {
    let mut engine = panel(&["A"]);
    let mut files = Files::holding(&["0"]);
    assert_eq!(turn(&mut engine, &mut files, InputEvent::SetHigh), Turn::Done(Ok(())));
    assert_eq!(files.text(0), "1");
}

#[test]
fn set_low_twice_is_the_same_as_once() {
    for start in ["0", "1", "garbage", ""] {
        let mut engine = panel(&["A"]);
        let mut files = Files::holding(&[start]);
        turn(&mut engine, &mut files, InputEvent::SetLow);
        let once = files.text(0).to_string();
        turn(&mut engine, &mut files, InputEvent::SetLow);
        assert_eq!(files.text(0), once);
        assert_eq!(files.text(0), "0");
    }
}

#[test]
fn set_high_twice_is_the_same_as_once() {
    for start in ["0", "1", "garbage", ""] {
        let mut engine = panel(&["A"]);
        let mut files = Files::holding(&[start]);
        turn(&mut engine, &mut files, InputEvent::SetHigh);
        let once = files.text(0).to_string();
        turn(&mut engine, &mut files, InputEvent::SetHigh);
        assert_eq!(files.text(0), once);
        assert_eq!(files.text(0), "1");
    }
}

#[test]
fn set_low_overwrites_unrecognized_contents() {
    let mut engine = panel(&["A"]);
    let mut files = Files::holding(&["garbage"]);
    turn(&mut engine, &mut files, InputEvent::SetLow);
    assert_eq!(files.text(0), "0");
}

#[test]
fn two_settings_move_next_goes_to_b_and_wraps_to_a() {
    let mut engine = panel(&["A", "B"]);
    let mut files = Files::holding(&["0", "0"]);
    assert_eq!(engine.selected(), 0);
    assert_eq!(turn(&mut engine, &mut files, InputEvent::MoveNext), Turn::Done(Ok(())));
    assert_eq!(engine.selected(), 1);
    assert_eq!(frame(&engine, &files), vec![row("A", "0", false), row("B", "0", true)]);
    assert_eq!(turn(&mut engine, &mut files, InputEvent::MoveNext), Turn::Done(Ok(())));
    assert_eq!(engine.selected(), 0);
    assert_eq!(frame(&engine, &files), vec![row("A", "0", true), row("B", "0", false)]);
    assert_eq!(files.writes, 0);
}

#[test]
fn garbage_is_shown_verbatim_and_confirm_keeps_it() {
    let mut engine = panel(&["A"]);
    let mut files = Files::holding(&["garbage"]);
    assert_eq!(frame(&engine, &files), vec![row("A", "garbage", true)]);
    assert_eq!(turn(&mut engine, &mut files, InputEvent::Confirm), Turn::Done(Ok(())));
    assert_eq!(files.text(0), "garbage");
    assert_eq!(files.writes, 0);
    assert_eq!(frame(&engine, &files), vec![row("A", "garbage", true)]);
}

#[test]
fn confirm_on_an_unreadable_file_writes_nothing() {
    let mut engine = panel(&["A"]);
    let mut files = Files { contents: vec![None], read_only: false, writes: 0 };
    assert_eq!(frame(&engine, &files), vec![row("A", "", true)]);
    assert_eq!(turn(&mut engine, &mut files, InputEvent::Confirm), Turn::Done(Ok(())));
    assert_eq!(files.writes, 0);
    assert_eq!(files.contents, vec![None]);
}

#[test]
fn failed_write_is_reported_and_changes_nothing() {
    let mut engine = panel(&["A", "B", "C"]);
    let mut files = Files::holding(&["0", "1", "garbage"]);
    files.read_only = true;
    turn(&mut engine, &mut files, InputEvent::MoveNext);
    let before = frame(&engine, &files);
    let outcome = turn(&mut engine, &mut files, InputEvent::Confirm);
    assert_eq!(
        outcome,
        Turn::Done(Err(WriteError { setting: 1, reason: "Permission denied".to_string() }))
    );
    assert_eq!(files.writes, 1);
    assert_eq!(engine.selected(), 1);
    assert_eq!(frame(&engine, &files), before);
    assert_eq!(
        frame(&engine, &files),
        vec![row("A", "0", false), row("B", "1", true), row("C", "garbage", false)]
    );
}

#[test]
fn failed_write_is_reported_for_set_low_and_set_high() {
    for event in [InputEvent::SetLow, InputEvent::SetHigh] {
        let mut engine = panel(&["A", "B"]);
        let mut files = Files::holding(&["0", "1"]);
        files.read_only = true;
        let outcome = turn(&mut engine, &mut files, event);
        assert_eq!(
            outcome,
            Turn::Done(Err(WriteError { setting: 0, reason: "Permission denied".to_string() }))
        );
        assert_eq!(files.text(0), "0");
        assert_eq!(files.text(1), "1");
        assert_eq!(engine.selected(), 0);
    }
}

#[test]
fn panel_goes_on_after_a_failed_write() {
    let mut engine = panel(&["A", "B"]);
    let mut files = Files::holding(&["0", "0"]);
    files.read_only = true;
    assert!(matches!(turn(&mut engine, &mut files, InputEvent::SetHigh), Turn::Done(Err(_))));
    files.read_only = false;
    assert_eq!(turn(&mut engine, &mut files, InputEvent::MoveNext), Turn::Done(Ok(())));
    assert_eq!(turn(&mut engine, &mut files, InputEvent::SetHigh), Turn::Done(Ok(())));
    assert_eq!(files.text(0), "0");
    assert_eq!(files.text(1), "1");
}

#[test]
fn an_update_touches_only_the_selected_file() {
    let mut engine = panel(&["A", "B", "C"]);
    let mut files = Files::holding(&["0", "0", "0"]);
    turn(&mut engine, &mut files, InputEvent::MovePrevious);
    turn(&mut engine, &mut files, InputEvent::Confirm);
    assert_eq!(files.text(0), "0");
    assert_eq!(files.text(1), "0");
    assert_eq!(files.text(2), "1");
    assert_eq!(files.writes, 1);
}

#[test]
fn moves_quit_and_ignore_write_nothing() {
    let mut engine = panel(&["A", "B"]);
    let mut files = Files::holding(&["0", "1"]);
    files.read_only = true;
    for event in [InputEvent::MoveNext, InputEvent::MovePrevious, InputEvent::Ignore] {
        assert_eq!(turn(&mut engine, &mut files, event), Turn::Done(Ok(())));
    }
    assert_eq!(turn(&mut engine, &mut files, InputEvent::Quit), Turn::Quit);
    assert_eq!(files.writes, 0);
}

#[test]
fn keys_drive_the_panel() {
    let mut engine = panel(&["A", "B"]);
    let mut files = Files::holding(&["0", "0"]);
    let keys = [KeyCode::Down, KeyCode::Enter, KeyCode::Up, KeyCode::Right, KeyCode::Left, KeyCode::Right];
    for code in keys {
        let event = decode_key(KeyPress { code, kind: KeyKind::Press, control: false });
        assert_eq!(turn(&mut engine, &mut files, event), Turn::Done(Ok(())));
    }
    assert_eq!(files.text(0), "1");
    assert_eq!(files.text(1), "1");
    let quit = decode_key(KeyPress { code: KeyCode::Char('c'), kind: KeyKind::Press, control: true });
    assert_eq!(turn(&mut engine, &mut files, quit), Turn::Quit);
}
