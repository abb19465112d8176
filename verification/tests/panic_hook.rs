use reliability::panic_counter::{next_count, PanicCounter};
use reliability::panic_hook::{
    dev_report, init_panic_hook, panic_file_for, panic_file_name, plan, role_for, HookAction,
    HookPlan, HookRole, PanicHook, DEV_EXIT_CODE,
};
use reliability::panic_report::{FailureInfo, FailurePayload, LocationData, SourceLocation};
use reliability::release_channel::ReleaseChannel;
use reliability::version::SemanticVersion;

fn hook(channel: ReleaseChannel, is_pty: bool) -> PanicHook {
    init_panic_hook(
        Some("installation-17".to_string()),
        SemanticVersion::new(0, 143, 6),
        "session-4".to_string(),
        channel,
        "x86_64".to_string(),
        is_pty,
    )
}

fn boom() -> FailureInfo {
    FailureInfo {
        thread_name: Some("worker-3".to_string()),
        payload: FailurePayload::Text("boom".to_string()),
        location: Some(SourceLocation { file: "main.rs".to_string(), line: 42, column: 7 }),
    }
}

const SEEN_AT: i64 = 1_718_011_805_123;

#[test]
fn the_first_count_makes_the_reporter() {
    assert_eq!(role_for(0), HookRole::Reporter);
    assert_eq!(role_for(1), HookRole::Suppressed);
    assert_eq!(role_for(2), HookRole::Suppressed);
    assert_eq!(role_for(u32::MAX), HookRole::Suppressed);
}

#[test]
fn a_suppressed_failure_is_held_back_on_every_channel() {
    for channel in [ReleaseChannel::Dev, ReleaseChannel::Nightly, ReleaseChannel::Preview, ReleaseChannel::Stable] {
        assert_eq!(plan(HookRole::Suppressed, channel, true), HookPlan::Suppress);
        assert_eq!(plan(HookRole::Suppressed, channel, false), HookPlan::Suppress);
    }
}

#[test]
fn a_development_build_prints_and_exits() {
    assert_eq!(plan(HookRole::Reporter, ReleaseChannel::Dev, true), HookPlan::PrintAndExit);
    assert_eq!(plan(HookRole::Reporter, ReleaseChannel::Dev, false), HookPlan::PrintAndExit);
}

#[test]
fn other_builds_report_and_store_unless_on_a_terminal() {
    for channel in [ReleaseChannel::Nightly, ReleaseChannel::Preview, ReleaseChannel::Stable] {
        assert_eq!(plan(HookRole::Reporter, channel, false), HookPlan::ReportAndAbort { persist: true });
        assert_eq!(plan(HookRole::Reporter, channel, true), HookPlan::ReportAndAbort { persist: false });
    }
}

#[test]
fn the_exit_code_of_a_development_build() {
    assert_eq!(DEV_EXIT_CODE, -1);
}

#[test]
fn the_development_report_is_put_together() {
    let location = SourceLocation { file: "src/main.rs".to_string(), line: 42, column: 7 };
    let text = dev_report("\"worker-3\"", "\"boom\"", &location, "   0: main\n");
    assert_eq!(text, "Thread \"worker-3\" panicked with \"boom\" at src/main.rs:42:7\n   0: main\n");
}

#[test]
fn the_panic_file_is_named_by_its_stamp() {
    assert_eq!(panic_file_name("zed", "2024_06_10 09_30_05"), "zed-2024_06_10 09_30_05.panic");
    assert_eq!(panic_file_name("", ""), "-.panic");
}

#[test]
fn two_panics_at_different_times_get_two_files() {
    let first = panic_file_name("zed", "2024_06_10 09_30_05");
    let second = panic_file_name("zed", "2024_06_10 09_30_06");
    assert_ne!(first, second);
}

#[test]
fn the_first_failure_is_reported_with_its_record() {
    let hook = hook(ReleaseChannel::Stable, false);
    let action = hook.on_failure(&boom(), SEEN_AT);
    match action {
        HookAction::ReportAndAbort { record, panic_file } => {
            assert_eq!(record.thread_name, "worker-3");
            assert_eq!(record.message, "boom");
            assert_eq!(
                record.source_location,
                Some(LocationData { file: "main.rs".to_string(), line: 42 })
            );
            assert_eq!(record.app_version, "0.143.6");
            assert_eq!(record.release_channel, "Stable");
            assert_eq!(record.os_name, "");
            assert_eq!(record.os_version, None);
            assert_eq!(record.architecture, "x86_64");
            assert_eq!(record.installation_id, Some("installation-17".to_string()));
            assert_eq!(record.session_id, "session-4");
            assert_eq!(record.timestamp, 1_718_011_805_123);
            assert!(!record.frames.contains(&"rust_begin_unwind".to_string()));
            assert_eq!(panic_file, Some("zed-2024_06_10 09_30_05.panic".to_string()));
        }
        other => panic!("{:?}", other),
    }
}

#[test]
fn on_a_terminal_no_file_is_named() {
    let hook = hook(ReleaseChannel::Preview, true);
    match hook.on_failure(&boom(), SEEN_AT) {
        HookAction::ReportAndAbort { record, panic_file } => {
            assert_eq!(record.release_channel, "Preview");
            assert_eq!(panic_file, None);
        }
        other => panic!("{:?}", other),
    }
}

#[test]
fn every_later_failure_is_suppressed() {
    let hook = hook(ReleaseChannel::Stable, false);
    assert!(matches!(hook.on_failure(&boom(), SEEN_AT), HookAction::ReportAndAbort { .. }));
    for _ in 0..10 {
        assert_eq!(hook.on_failure(&boom(), SEEN_AT), HookAction::Suppress);
    }
}

#[test]
fn entering_counts_up() {
    let hook = hook(ReleaseChannel::Nightly, true);
    assert_eq!(hook.enter(), HookRole::Reporter);
    assert_eq!(hook.enter(), HookRole::Suppressed);
    assert_eq!(hook.enter(), HookRole::Suppressed);
}

#[test]
fn a_suppressed_failure_gets_no_record() {
    let hook = hook(ReleaseChannel::Stable, false);
    assert_eq!(hook.respond(HookRole::Suppressed, &boom(), SEEN_AT), HookAction::Suppress);
    let dev = self::hook(ReleaseChannel::Dev, false);
    assert_eq!(dev.respond(HookRole::Suppressed, &boom(), SEEN_AT), HookAction::Suppress);
}

#[test]
fn a_development_build_quotes_thread_and_message() {
    let hook = hook(ReleaseChannel::Dev, true);
    match hook.on_failure(&boom(), SEEN_AT) {
        HookAction::PrintAndExit { message, exit_code } => {
            assert_eq!(exit_code, -1);
            let head = "Thread \"worker-3\" panicked with \"boom\" at main.rs:42:7\n";
            assert!(message.starts_with(head), "{}", message);
            assert!(message.len() > head.len());
        }
        other => panic!("{:?}", other),
    }
    assert_eq!(hook.on_failure(&boom(), SEEN_AT), HookAction::Suppress);
}

#[test]
fn quoting_escapes_what_cannot_stand_between_quotes() {
    let info = FailureInfo {
        thread_name: None,
        payload: FailurePayload::Text("say \"hi\"\n\\".to_string()),
        location: Some(SourceLocation { file: "a b.rs".to_string(), line: 1, column: 100 }),
    };
    let hook = hook(ReleaseChannel::Dev, false);
    match hook.respond(HookRole::Reporter, &info, SEEN_AT) {
        HookAction::PrintAndExit { message, exit_code } => {
            assert_eq!(exit_code, DEV_EXIT_CODE);
            let head = "Thread \"<unnamed>\" panicked with \"say \\\"hi\\\"\\n\\\\\" at a b.rs:1:100\n";
            assert!(message.starts_with(head), "{}", message);
        }
        other => panic!("{:?}", other),
    }
}

#[test]
fn an_opaque_payload_is_reported_by_its_placeholder() {
    let info = FailureInfo { payload: FailurePayload::Opaque, ..boom() };
    let hook = hook(ReleaseChannel::Stable, true);
    match hook.on_failure(&info, SEEN_AT) {
        HookAction::ReportAndAbort { record, .. } => assert_eq!(record.message, "Box<Any>"),
        other => panic!("{:?}", other),
    }
}

#[test]
fn of_many_failures_one_reports() {
    let hook = hook(ReleaseChannel::Stable, true);
    let reporters = (0..400).filter(|_| hook.enter() == HookRole::Reporter).count();
    assert_eq!(reporters, 1);
}

#[test]
fn the_count_goes_up_by_one() {
    assert_eq!(next_count(0), 1);
    assert_eq!(next_count(41), 42);
    assert_eq!(next_count(u32::MAX - 1), u32::MAX);
}

#[test]
fn the_largest_count_stays_and_never_turns_to_zero() {
    assert_eq!(next_count(u32::MAX), u32::MAX);
    assert_eq!(role_for(next_count(u32::MAX)), HookRole::Suppressed);
}

#[test]
fn a_counter_tells_each_entry_how_many_came_before() {
    let counter = PanicCounter::new();
    for expected in 0..1000u32 {
        assert_eq!(counter.enter(), expected);
    }
}

#[test]
fn the_panic_file_is_named_by_the_time_of_the_failure() {
    assert_eq!(panic_file_for(1_718_011_805_000), Some("zed-2024_06_10 09_30_05.panic".to_string()));
    assert_eq!(panic_file_for(1_718_011_805_999), Some("zed-2024_06_10 09_30_05.panic".to_string()));
    assert_eq!(panic_file_for(1_718_011_806_000), Some("zed-2024_06_10 09_30_06.panic".to_string()));
    assert_eq!(panic_file_for(947_638_923_004), Some("zed-2000_01_12 01_02_03.panic".to_string()));
}

#[test]
fn a_time_before_the_epoch_still_names_a_file() {
    assert_eq!(panic_file_for(0), Some("zed-1970_01_01 00_00_00.panic".to_string()));
    assert_eq!(panic_file_for(-1), Some("zed-1969_12_31 23_59_59.panic".to_string()));
}

#[test]
fn a_time_beyond_the_calendar_names_no_file() {
    assert_eq!(panic_file_for(i64::MAX), None);
    assert_eq!(panic_file_for(i64::MIN), None);
    let hook = hook(ReleaseChannel::Stable, false);
    match hook.on_failure(&boom(), i64::MAX) {
        HookAction::ReportAndAbort { record, panic_file } => {
            assert_eq!(record.timestamp, i64::MAX);
            assert_eq!(panic_file, None);
        }
        other => panic!("{:?}", other),
    }
}

#[test]
fn two_failures_a_second_apart_get_two_files() {
    let first = hook(ReleaseChannel::Stable, false);
    let second = hook(ReleaseChannel::Stable, false);
    let one = match first.on_failure(&boom(), SEEN_AT) {
        HookAction::ReportAndAbort { panic_file, .. } => panic_file,
        other => panic!("{:?}", other),
    };
    let other = match second.on_failure(&boom(), SEEN_AT + 1000) {
        HookAction::ReportAndAbort { panic_file, .. } => panic_file,
        other => panic!("{:?}", other),
    };
    assert_eq!(one, Some("zed-2024_06_10 09_30_05.panic".to_string()));
    assert_eq!(other, Some("zed-2024_06_10 09_30_06.panic".to_string()));
}
