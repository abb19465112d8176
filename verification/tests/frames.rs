use reliability::capture::{resolved_capture, symbol_names};
use reliability::frames::{resolved_names, strip_unwind_frames};

fn names(list: &[&str]) -> Vec<String> {
    list.iter().map(|name| name.to_string()).collect()
}

fn names_by_the_crate(capture: &backtrace::Backtrace) -> Vec<Vec<Option<String>>> {
    capture
        .frames()
        .iter()
        .map(|frame| {
            frame
                .symbols()
                .iter()
                .map(|symbol| symbol.name().map(|name| format!("{:#}", name)))
                .collect()
        })
        .collect()
}

#[test]
fn frames_up_to_the_marker_are_dropped() {
    let capture = names(&[
        "backtrace::capture::Backtrace::new",
        "zed::reliability::init_panic_hook::{{closure}}",
        "std::panicking::rust_panic_with_hook",
        "rust_begin_unwind",
        "core::panicking::panic_fmt",
        "editor::Editor::move_down",
        "main",
    ]);
    assert_eq!(
        strip_unwind_frames(capture),
        names(&["core::panicking::panic_fmt", "editor::Editor::move_down", "main"])
    );
}

#[test]
fn a_capture_without_the_marker_is_kept_whole() {
    let capture = names(&["a", "b", "c"]);
    assert_eq!(strip_unwind_frames(capture.clone()), capture);
}

#[test]
fn an_empty_capture_stays_empty() {
    assert_eq!(strip_unwind_frames(Vec::new()), Vec::<String>::new());
}

#[test]
fn a_marker_at_the_end_leaves_nothing() {
    assert_eq!(strip_unwind_frames(names(&["a", "rust_begin_unwind"])), Vec::<String>::new());
}

#[test]
fn a_marker_at_the_start_drops_only_itself() {
    assert_eq!(strip_unwind_frames(names(&["rust_begin_unwind", "a", "b"])), names(&["a", "b"]));
}

#[test]
fn only_the_first_marker_counts() {
    let capture = names(&["x", "rust_begin_unwind", "y", "rust_begin_unwind", "z"]);
    assert_eq!(strip_unwind_frames(capture), names(&["y", "rust_begin_unwind", "z"]));
}

#[test]
fn a_name_that_only_holds_the_marker_is_no_marker() {
    let capture = names(&["my::rust_begin_unwind", "rust_begin_unwind2", "tail"]);
    assert_eq!(strip_unwind_frames(capture.clone()), capture);
}

#[test]
fn kept_frames_never_come_from_before_the_marker() {
    for at in 0..6usize {
        let mut capture: Vec<String> = (0..6).map(|i| format!("frame{}", i)).collect();
        capture[at] = "rust_begin_unwind".to_string();
        let kept = strip_unwind_frames(capture.clone());
        assert_eq!(kept.len(), 5 - at);
        assert_eq!(kept, capture[at + 1..].to_vec());
        assert!(!kept.contains(&"rust_begin_unwind".to_string()));
    }
}

#[test]
fn resolved_names_skip_nameless_symbols() {
    let frames = vec![
        vec![Some("inlined".to_string()), Some("outer".to_string())],
        vec![],
        vec![None],
        vec![None, Some("main".to_string()), None],
    ];
    assert_eq!(resolved_names(&frames), names(&["inlined", "outer", "main"]));
}

#[test]
fn resolved_names_of_nothing() {
    assert_eq!(resolved_names(&Vec::new()), Vec::<String>::new());
    assert_eq!(resolved_names(&vec![vec![], vec![None]]), Vec::<String>::new());
}

#[test]
fn symbol_names_read_what_the_capture_holds() {
    let capture = backtrace::Backtrace::new();
    let read = symbol_names(&capture);
    assert_eq!(read.len(), capture.frames().len());
    assert_eq!(read, names_by_the_crate(&capture));
}

#[test]
fn symbol_names_of_an_unresolved_capture_are_empty_frames() {
    let capture = backtrace::Backtrace::new_unresolved();
    let read = symbol_names(&capture);
    assert_eq!(read.len(), capture.frames().len());
    assert!(read.iter().all(|frame| frame.is_empty()));
    assert_eq!(resolved_capture(&capture), Vec::<String>::new());
}

#[test]
fn resolved_capture_flattens_in_order() {
    let capture = backtrace::Backtrace::new();
    let expected: Vec<String> =
        names_by_the_crate(&capture).into_iter().flatten().flatten().collect();
    assert_eq!(resolved_capture(&capture), expected);
}

#[test]
fn stripping_a_real_capture_agrees_with_draining() {
    let capture = backtrace::Backtrace::new();
    let mut expected = resolved_capture(&capture);
    expected.insert(expected.len() / 2, "rust_begin_unwind".to_string());
    let raw = expected.clone();
    if let Some(at) = expected.iter().position(|name| name == "rust_begin_unwind") {
        expected.drain(0..=at);
    }
    assert_eq!(strip_unwind_frames(raw), expected);
}

#[test]
fn names_are_written_without_their_hash() {
    let capture = backtrace::Backtrace::new();
    for name in resolved_capture(&capture) {
        let last = name.rsplit("::").next().unwrap_or("");
        let is_hash = last.len() == 17
            && last.starts_with('h')
            && last[1..].chars().all(|c| c.is_ascii_hexdigit());
        assert!(!is_hash, "{}", name);
    }
}
