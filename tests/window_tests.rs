use hwnd_tracer::path::{PathAction, PathEvent, PathOutcome, PathQuery};
use hwnd_tracer::rect::RECT;
use hwnd_tracer::wide::{decode_wide, fill_wide, wide_text, DecodeError};
use hwnd_tracer::window::{
    get_class_name, get_process_id, get_process_path, get_rect, get_title, WindowDescriptor,
    NO_WINDOW,
};
use hwnd_tracer::TEXT_CAPACITY;

fn units(s: &str) -> Vec<u16> {
    s.encode_utf16().collect()
}

fn os_buffer(s: &str) -> Vec<u16> {
    fill_wide(&units(s), TEXT_CAPACITY)
}

/// A stand-in for the window system's process calls, counting opens and closes.
struct MockProcesses {
    open_succeeds: bool,
    image: Vec<u16>,
    opened: u32,
    closed: u32,
}

impl MockProcesses {
    fn answer(&mut self, action: PathAction) -> PathEvent {
        match action {
            PathAction::OpenProcess { .. } => {
                if self.open_succeeds {
                    self.opened += 1;
                    PathEvent::Opened { handle: 0x77 }
                } else {
                    PathEvent::Opened { handle: 0 }
                }
            }
            PathAction::QueryImageName { handle } => {
                assert_eq!(handle, 0x77);
                PathEvent::ImageName { units: self.image.clone() }
            }
            PathAction::CloseProcess { handle } => {
                assert_eq!(handle, 0x77);
                self.closed += 1;
                PathEvent::Closed
            }
        }
    }
}

fn run_path_query(mock: &mut MockProcesses, pid: u32) -> PathOutcome {
    let (mut state, first) = PathQuery::begin(pid);
    let mut next = Some(first);
    while let Some(action) = next {
        let event = mock.answer(action);
        let (s, a) = state.step(event);
        state = s;
        next = a;
    }
    assert!(state.is_finished());
    state.outcome().unwrap()
}

fn notepad_snapshot(open_succeeds: bool) -> Vec<String> {
    let mut mock = MockProcesses {
        open_succeeds,
        image: os_buffer("C:\\Windows\\notepad.exe"),
        opened: 0,
        closed: 0,
    };
    let path = run_path_query(&mut mock, 4321);
    let d = WindowDescriptor::assemble(
        0x1234,
        &os_buffer("Notepad"),
        RECT::new(0, 0, 800, 600),
        4321,
        &os_buffer("Notepad"),
        &path,
    );
    d.render_report()
}

#[test]
fn test_get_title() {
    let title = get_title(0x1234, &os_buffer("Untitled - Notepad"));
    assert!(!title.is_empty());
    assert_eq!(title, "Untitled - Notepad");
}

#[test]
fn test_get_rect() {
    let rect = get_rect(0x1234, RECT::new(10, 20, 810, 620));
    assert_ne!(rect.left, rect.right);
    assert_ne!(rect.top, rect.bottom);
}

#[test]
fn test_get_process_id() {
    let process_id = get_process_id(0x1234, 4321);
    assert_ne!(process_id, 0);
}

#[test]
fn test_get_class_name() {
    let class_name = get_class_name(0x1234, &os_buffer("Notepad"));
    assert!(!class_name.is_empty());
}

#[test]
fn test_get_process_path() {
    let mut mock = MockProcesses {
        open_succeeds: true,
        image: os_buffer("\\Device\\HarddiskVolume3\\Windows\\notepad.exe"),
        opened: 0,
        closed: 0,
    };
    let outcome = run_path_query(&mut mock, 4321);
    let process_path = get_process_path(0x1234, &outcome);
    assert!(!process_path.is_empty());
    assert_eq!(process_path, "\\Device\\HarddiskVolume3\\Windows\\notepad.exe");
}

#[test]
fn decode_twice_gives_same_text() {
    let buf = os_buffer("Calculator");
    assert_eq!(decode_wide(&buf), decode_wide(&buf));
    assert_eq!(decode_wide(&buf), Ok("Calculator".to_string()));
}

#[test]
fn all_zero_buffer_decodes_empty() {
    assert_eq!(decode_wide(&[0u16; 256]), Ok(String::new()));
    assert_eq!(decode_wide(&[]), Ok(String::new()));
}

#[test]
fn decode_stops_at_first_nul() {
    assert_eq!(decode_wide(&[0x61, 0x62, 0, 0x63, 0]), Ok("ab".to_string()));
    assert_eq!(decode_wide(&[0x61, 0x62]), Ok("ab".to_string()));
}

#[test]
fn decode_surrogate_pair() {
    assert_eq!(decode_wide(&[0xD834, 0xDD1E, 0x6d, 0]), Ok("\u{1D11E}m".to_string()));
}

#[test]
fn decode_unpaired_surrogate_fails() {
    assert_eq!(decode_wide(&[0x61, 0xD800, 0x62, 0]), Err(DecodeError));
    assert_eq!(wide_text(&[0x61, 0xD800, 0x62, 0]), "");
}

#[test]
fn text_at_capacity_minus_one_is_whole() {
    let src = "x".repeat(TEXT_CAPACITY - 1);
    let buf = os_buffer(&src);
    assert_eq!(buf.len(), TEXT_CAPACITY);
    assert_eq!(buf[TEXT_CAPACITY - 1], 0);
    assert_eq!(decode_wide(&buf), Ok(src));
}

#[test]
fn text_over_capacity_is_truncated() {
    let src = "y".repeat(300);
    let buf = os_buffer(&src);
    assert_eq!(buf.len(), TEXT_CAPACITY);
    assert_eq!(decode_wide(&buf), Ok("y".repeat(TEXT_CAPACITY - 1)));
}

#[test]
fn fill_pads_with_nul() {
    assert_eq!(fill_wide(&[0x41, 0x42], 4), vec![0x41, 0x42, 0, 0]);
    assert_eq!(fill_wide(&[0x41, 0x42, 0x43], 2), vec![0x41, 0]);
    assert_eq!(fill_wide(&[0x41], 1), vec![0]);
}

#[test]
fn sentinel_degrades_every_attribute() {
    let text = os_buffer("Notepad");
    assert_eq!(get_title(NO_WINDOW, &text), "");
    assert_eq!(get_class_name(NO_WINDOW, &text), "");
    assert_eq!(get_rect(NO_WINDOW, RECT::new(1, 2, 3, 4)), RECT::zero());
    assert_eq!(get_process_id(NO_WINDOW, 99), 0);
    let found = PathOutcome::Path("C:\\a.exe".to_string());
    assert_eq!(get_process_path(NO_WINDOW, &found), "");
    let d = WindowDescriptor::assemble(NO_WINDOW, &text, RECT::new(1, 2, 3, 4), 99, &text, &found);
    assert_eq!(
        d.render_report(),
        vec![
            "hwnd: 0x0",
            "title: \"\"",
            "rect: RECT { left: 0, top: 0, right: 0, bottom: 0 }",
            "process_id: 0",
            "class_name: ",
            "process_path: ",
        ]
    );
}

#[test]
fn process_handle_released_once_on_success() {
    let mut mock = MockProcesses { open_succeeds: true, image: os_buffer("C:\\p.exe"), opened: 0, closed: 0 };
    let outcome = run_path_query(&mut mock, 8);
    assert_eq!(outcome, PathOutcome::Path("C:\\p.exe".to_string()));
    assert_eq!(mock.opened, 1);
    assert_eq!(mock.closed, 1);
}

#[test]
fn process_handle_released_once_on_bad_image_name() {
    let mut mock = MockProcesses { open_succeeds: true, image: vec![0xDC00, 0], opened: 0, closed: 0 };
    let outcome = run_path_query(&mut mock, 8);
    assert_eq!(outcome, PathOutcome::Undecodable);
    assert_eq!(mock.opened, 1);
    assert_eq!(mock.closed, 1);
}

#[test]
fn failed_open_closes_nothing() {
    let mut mock = MockProcesses { open_succeeds: false, image: os_buffer("C:\\p.exe"), opened: 0, closed: 0 };
    let outcome = run_path_query(&mut mock, 8);
    assert_eq!(outcome, PathOutcome::OpenFailed);
    assert_eq!(outcome.text(), "");
    assert_eq!(mock.opened, 0);
    assert_eq!(mock.closed, 0);
}

#[test]
fn unexpected_event_changes_nothing() {
    let (state, _) = PathQuery::begin(5);
    let (state, action) = state.step(PathEvent::Closed);
    assert_eq!(state, PathQuery::Opening { pid: 5 });
    assert_eq!(action, None);
    let (state, action) = state.step(PathEvent::Opened { handle: 9 });
    assert_eq!(state, PathQuery::Reading { handle: 9 });
    assert_eq!(action, Some(PathAction::QueryImageName { handle: 9 }));
    assert_eq!(state.outcome(), None);
}

#[test]
fn end_to_end_notepad_report() {
    assert_eq!(
        notepad_snapshot(true),
        vec![
            "hwnd: 0x1234",
            "title: \"Notepad\"",
            "rect: RECT { left: 0, top: 0, right: 800, bottom: 600 }",
            "process_id: 4321",
            "class_name: Notepad",
            "process_path: C:\\Windows\\notepad.exe",
        ]
    );
}

#[test]
fn failed_open_changes_only_path_line() {
    let good = notepad_snapshot(true);
    let bad = notepad_snapshot(false);
    assert_eq!(good[..5], bad[..5]);
    assert_eq!(bad[5], "process_path: ");
    assert_ne!(good[5], bad[5]);
}

#[test]
fn rect_text_with_negative_coordinates() {
    assert_eq!(
        RECT::new(-8, -31, 1928, 1048).to_string(),
        "RECT { left: -8, top: -31, right: 1928, bottom: 1048 }"
    );
    assert_eq!(
        RECT::new(i32::MIN, i32::MAX, 0, -1).to_string(),
        "RECT { left: -2147483648, top: 2147483647, right: 0, bottom: -1 }"
    );
}

#[test]
fn report_numbers_and_quoting() {
    let d = WindowDescriptor::assemble(
        0xabcdef,
        &os_buffer("say \"hi\"\\"),
        RECT::zero(),
        u32::MAX,
        &os_buffer("Cls"),
        &PathOutcome::OpenFailed,
    );
    let lines = d.render_report();
    assert_eq!(lines[0], "hwnd: 0xabcdef");
    assert_eq!(lines[1], "title: \"say \\\"hi\\\"\\\\\"");
    assert_eq!(lines[3], "process_id: 4294967295");
    assert_eq!(lines[5], "process_path: ");
}
