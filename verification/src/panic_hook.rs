//! The handler of uncaught failures. It is entered from whichever thread
//! fails; the first failure to enter reports and ends the process, and every
//! later one is held back for good so that the report is not cut off.

use vstd::prelude::*;
use vstd::string::*;
use backtrace::Backtrace;
use crate::capture::{backtrace_symbols, backtrace_text, capture_resolved, resolved_capture};
use crate::frames::stack_names;
use crate::panic_counter::{count_after, lemma_count_after, PanicCounter};
use crate::panic_report::{
    message_spec,
    record_spec,
    thread_name_spec,
    FailureInfo,
    FailureInfoView,
    FailureRecord,
    HostFacts,
    HostFactsView,
    SourceLocation,
    SourceLocationView,
};
use crate::release_channel::ReleaseChannel;
use crate::text::{debug_form, debug_quoted, decimal, push_decimal};
use crate::version::SemanticVersion;

verus! {

/// The state of the handler. It starts armed and turns to reporting, for
/// good, when the first failure enters.
#[derive(Clone, Copy, Debug, PartialEq, Eq, Structural)]
pub enum HookState {
    Armed,
    Reporting,
}

/// What falls to a failure that enters the handler.
#[derive(Clone, Copy, Debug, PartialEq, Eq, Structural)]
pub enum HookRole {
    /// It found the handler armed: it reports and ends the process.
    Reporter,
    /// It found a report under way: it waits and never returns.
    Suppressed,
}

/// What the handler does with a failure, before any of it is carried out.
#[derive(Clone, Copy, Debug, PartialEq, Eq, Structural)]
pub enum HookPlan {
    /// Yield the processor over and over, without end.
    Suppress,
    /// Print the failure to standard error and exit at once.
    PrintAndExit,
    /// Build a record, log it, store it in a file if `persist` is set, and
    /// abort.
    ReportAndAbort { persist: bool },
}

/// What the handler asks of the program that installed it.
#[derive(Clone, Debug, PartialEq, Eq)]
pub enum HookAction {
    /// Yield the processor over and over, without end.
    Suppress,
    /// Print `message` to standard error and exit with `exit_code`.
    PrintAndExit { message: String, exit_code: i32 },
    /// Log `record`; if `panic_file` names a file, append the record to it
    /// as one line of the logs directory; then abort, whether or not the
    /// file could be written. No file is named on a terminal, nor for a time
    /// that no calendar date can be written for.
    ReportAndAbort { record: FailureRecord, panic_file: Option<String> },
}

/// The status with which a development build exits after a failure.
pub const DEV_EXIT_CODE: i32 = -1;

/// The state of a handler that `entered` failures have entered.
pub open spec fn state_after(entered: nat) -> HookState {
    if entered == 0 {
        HookState::Armed
    } else {
        HookState::Reporting
    }
}

/// The role of the failure that finds the count at `prior`.
pub open spec fn role_spec(prior: u32) -> HookRole {
    if prior == 0 {
        HookRole::Reporter
    } else {
        HookRole::Suppressed
    }
}

/// What is done about a failure with the given role, in a build of the given
/// channel, with standard output attached to a terminal or not.
pub open spec fn plan_spec(role: HookRole, channel: ReleaseChannel, is_pty: bool) -> HookPlan {
    match role {
        HookRole::Suppressed => HookPlan::Suppress,
        HookRole::Reporter => if channel == ReleaseChannel::Dev {
            HookPlan::PrintAndExit
        } else {
            HookPlan::ReportAndAbort { persist: !is_pty }
        },
    }
}

/// The text a development build prints for a failure. The thread's name and
/// the message come quoted; the stack follows on a line of its own.
pub open spec fn dev_report_spec(
    thread_quoted: Seq<char>,
    message_quoted: Seq<char>,
    location: SourceLocationView,
    stack: Seq<char>,
) -> Seq<char> {
    "Thread "@ + thread_quoted + " panicked with "@ + message_quoted + " at "@ + location.file
        + seq![':'] + decimal(location.line as nat) + seq![':'] + decimal(location.column as nat)
        + seq!['\n'] + stack
}

/// The name of the file that holds the record of a failure seen at `stamp`.
pub open spec fn panic_file_name_spec(app: Seq<char>, stamp: Seq<char>) -> Seq<char> {
    app + seq!['-'] + stamp + ".panic"@
}

/// Failures seen at different times are stored in different files.
pub proof fn lemma_panic_files_differ(app: Seq<char>, first: Seq<char>, second: Seq<char>)
    requires
        first != second,
    ensures
        panic_file_name_spec(app, first) != panic_file_name_spec(app, second),
{
    let one = panic_file_name_spec(app, first);
    let other = panic_file_name_spec(app, second);
    if one == other {
        assert(one.len() == other.len());
        assert(first.len() == second.len());
        assert forall|i: int| 0 <= i < first.len() implies first[i] == second[i] by {
            assert(one[app.len() + 1 + i] == first[i]);
            assert(other[app.len() + 1 + i] == second[i]);
        }
        assert(first =~= second);
    }
}

/// The name under which this application stores its records.
pub open spec fn app_name() -> Seq<char> {
    "zed"@
}

/// The date and time, in UTC, of the instant `millis` milliseconds after the
/// Unix epoch, written as year, month, day, hour, minute and second, the
/// fields joined by underscores and the date parted from the time by a
/// space; `None` for an instant beyond the years that a date can name.
pub uninterp spec fn file_stamp_text(millis: i64) -> Option<Seq<char>>;

/// Calls `chrono::DateTime::from_timestamp_millis`, which answers `None`
/// for an instant out of its range, and writes the date and time it
/// answers with `DateTime::format`. The contract only gives the outcome
/// its name, `file_stamp_text`.
#[verifier::external_body]
fn file_stamp(millis: i64) -> (stamp: Option<String>)
    ensures
        stamp.deep_view() == file_stamp_text(millis),
{
    chrono::DateTime::from_timestamp_millis(millis).map(
        |instant| instant.format("%Y_%m_%d %H_%M_%S").to_string(),
    )
}

/// The name of the file that holds the record of a failure seen at
/// `timestamp`, where that time can be written as a date.
pub open spec fn panic_file_spec(timestamp: i64) -> Option<Seq<char>> {
    match file_stamp_text(timestamp) {
        Some(stamp) => Some(panic_file_name_spec(app_name(), stamp)),
        None => None,
    }
}

/// Whether `action` is a fit answer of a handler set up with `host` and
/// `is_pty` to the failure `info`, seen at `timestamp`, in the given role.
/// The plan fixes the kind of the answer; the stack, which the handler
/// reads for itself, may be any.
pub open spec fn answers(
    host: HostFactsView,
    is_pty: bool,
    role: HookRole,
    info: FailureInfoView,
    timestamp: i64,
    action: HookAction,
) -> bool {
    match plan_spec(role, host.release_channel, is_pty) {
        HookPlan::Suppress => action is Suppress,
        HookPlan::PrintAndExit => {
            &&& action is PrintAndExit
            &&& action->exit_code == DEV_EXIT_CODE
            &&& info.location is Some
            &&& exists|stack: Seq<char>|
                action->message@ == #[trigger] dev_report_spec(
                    debug_form(thread_name_spec(info)),
                    debug_form(message_spec(info.payload)),
                    info.location->0,
                    stack,
                )
        },
        HookPlan::ReportAndAbort { persist } => {
            &&& action is ReportAndAbort
            &&& exists|capture: Backtrace|
                action->record@ == #[trigger] record_spec(
                    info,
                    host,
                    timestamp,
                    stack_names(backtrace_symbols(capture)),
                )
            &&& action->panic_file.deep_view() == if persist {
                panic_file_spec(timestamp)
            } else {
                None
            }
        },
    }
}

/// What is done about the failure that `before` others entered ahead of.
pub open spec fn plan_of_entry(before: nat, channel: ReleaseChannel, is_pty: bool) -> HookPlan {
    plan_spec(role_spec(count_after(before)), channel, is_pty)
}

/// Of the failures that enter one handler, however many they are, the first
/// finds it armed and is the reporter; every later one finds it reporting
/// and is suppressed.
pub proof fn lemma_single_reporter(entries: nat)
    requires
        1 <= entries,
    ensures
        state_after(0) == HookState::Armed,
        role_spec(count_after(0)) == HookRole::Reporter,
        forall|before: nat|
            0 < before < entries ==> state_after(before) == HookState::Reporting && role_spec(
                #[trigger] count_after(before),
            ) == HookRole::Suppressed,
{
    assert forall|before: nat| 0 < before < entries implies role_spec(
        #[trigger] count_after(before),
    ) == HookRole::Suppressed by {
        lemma_count_after(before);
    }
}

/// The number of records that the first `entries` failures to enter one
/// handler lead to.
pub open spec fn records_built(entries: nat, channel: ReleaseChannel, is_pty: bool) -> nat
    decreases entries,
{
    if entries == 0 {
        0
    } else {
        let before = (entries - 1) as nat;
        records_built(before, channel, is_pty) + if plan_of_entry(before, channel, is_pty)
            is ReportAndAbort {
            1nat
        } else {
            0nat
        }
    }
}

/// In a build that is not a development build, exactly one of the failures
/// that enter one handler leads to a record: the first. Every other is told
/// to wait without end, whatever the channel and the terminal.
pub proof fn lemma_single_record(entries: nat, channel: ReleaseChannel, is_pty: bool)
    requires
        1 <= entries,
        channel != ReleaseChannel::Dev,
    ensures
        records_built(entries, channel, is_pty) == 1,
        plan_of_entry(0, channel, is_pty) == (HookPlan::ReportAndAbort { persist: !is_pty }),
        forall|before: nat|
            0 < before < entries ==> #[trigger] plan_of_entry(before, channel, is_pty)
                == HookPlan::Suppress,
    decreases entries,
{
    lemma_single_reporter(entries);
    if entries > 1 {
        lemma_single_record((entries - 1) as nat, channel, is_pty);
    } else {
        assert(records_built(0, channel, is_pty) == 0);
    }
}

/// The role of the failure that found the count at `prior`.
pub fn role_for(prior: u32) -> (role: HookRole)
    ensures
        role == role_spec(prior),
{
    if prior == 0 {
        HookRole::Reporter
    } else {
        HookRole::Suppressed
    }
}

/// Decides what is done about a failure.
pub fn plan(role: HookRole, channel: ReleaseChannel, is_pty: bool) -> (plan: HookPlan)
    ensures
        plan == plan_spec(role, channel, is_pty),
{
    match role {
        HookRole::Suppressed => HookPlan::Suppress,
        HookRole::Reporter => match channel {
            ReleaseChannel::Dev => HookPlan::PrintAndExit,
            _ => HookPlan::ReportAndAbort { persist: !is_pty },
        },
    }
}

/// Puts together the text that a development build prints for a failure.
/// `thread_quoted` and `message_quoted` are taken as they are: the caller
/// has quoted them.
pub fn dev_report(
    thread_quoted: &str,
    message_quoted: &str,
    location: &SourceLocation,
    stack: &str,
) -> (text: String)
    ensures
        text@ == dev_report_spec(thread_quoted@, message_quoted@, location@, stack@),
{
    proof {
        reveal_strlit(":");
        reveal_strlit("\n");
    }
    let mut text = String::from_str("Thread ");
    text.append(thread_quoted);
    text.append(" panicked with ");
    text.append(message_quoted);
    text.append(" at ");
    text.append(location.file.as_str());
    text.append(":");
    push_decimal(&mut text, location.line as u64);
    text.append(":");
    push_decimal(&mut text, location.column as u64);
    text.append("\n");
    text.append(stack);
    assert(text@ =~= dev_report_spec(thread_quoted@, message_quoted@, location@, stack@));
    text
}

/// Names the file that holds the record of a failure: the application's
/// name, a hyphen, the time stamp, and the extension `.panic`.
pub fn panic_file_name(app: &str, stamp: &str) -> (name: String)
    ensures
        name@ == panic_file_name_spec(app@, stamp@),
{
    proof {
        reveal_strlit("-");
    }
    let mut name = String::from_str(app);
    name.append("-");
    name.append(stamp);
    name.append(".panic");
    assert(name@ =~= panic_file_name_spec(app@, stamp@));
    name
}

/// Names the file that holds the record of a failure seen at `timestamp`,
/// in milliseconds since the Unix epoch. There is no name for a time that
/// cannot be written as a date.
pub fn panic_file_for(timestamp: i64) -> (name: Option<String>)
    ensures
        name.deep_view() == panic_file_spec(timestamp),
{
    match file_stamp(timestamp) {
        Some(stamp) => Some(panic_file_name("zed", stamp.as_str())),
        None => None,
    }
}

/// The handler of uncaught failures, set up for one application.
pub struct PanicHook {
    host: HostFacts,
    is_pty: bool,
    counter: PanicCounter,
}

impl PanicHook {
    /// What the handler was told about the application.
    pub closed spec fn host(&self) -> HostFactsView {
        self.host@
    }

    /// Whether standard output was attached to a terminal when the handler
    /// was set up.
    pub closed spec fn is_pty(&self) -> bool {
        self.is_pty
    }

    /// Counts a failure in and tells it its role. Which role that is depends
    /// on the failures that entered before, from this thread or any other.
    pub fn enter(&self) -> (role: HookRole) {
        role_for(self.counter.enter())
    }

    /// Handles a failure whose role is known, seen at `timestamp`, in
    /// milliseconds since the Unix epoch. A suppressed failure is told to
    /// wait. The reporter of a development build gets the text to print,
    /// with the stack as it stands at this call. The reporter of any other
    /// build gets the record of the failure, and the name of the file to
    /// store it in unless standard output is a terminal.
    pub fn respond(&self, role: HookRole, info: &FailureInfo, timestamp: i64) -> (action:
        HookAction)
        requires
            plan_spec(role, self.host().release_channel, self.is_pty()) is PrintAndExit
                ==> info.location is Some,
        ensures
            answers(self.host(), self.is_pty(), role, info@, timestamp, action),
    {
        match plan(role, self.host.release_channel, self.is_pty) {
            HookPlan::Suppress => HookAction::Suppress,
            HookPlan::PrintAndExit => {
                let thread = info.thread_name_or_placeholder();
                let message = info.message();
                let capture = capture_resolved();
                let stack = backtrace_text(&capture);
                let thread_quoted = debug_quoted(thread.as_str());
                let message_quoted = debug_quoted(message.as_str());
                let location = info.location.as_ref().unwrap();
                let text = dev_report(
                    thread_quoted.as_str(),
                    message_quoted.as_str(),
                    location,
                    stack.as_str(),
                );
                assert(text@ == dev_report_spec(
                    debug_form(thread_name_spec(info@)),
                    debug_form(message_spec(info@.payload)),
                    info@.location->0,
                    stack@,
                ));
                HookAction::PrintAndExit { message: text, exit_code: DEV_EXIT_CODE }
            },
            HookPlan::ReportAndAbort { persist } => {
                let capture = capture_resolved();
                let names = resolved_capture(&capture);
                let record = FailureRecord::build(info, &self.host, timestamp, names);
                assert(record@ == record_spec(
                    info@,
                    self.host(),
                    timestamp,
                    stack_names(backtrace_symbols(capture)),
                ));
                let panic_file = if persist {
                    panic_file_for(timestamp)
                } else {
                    None
                };
                HookAction::ReportAndAbort { record, panic_file }
            },
        }
    }

    /// Handles a failure seen at `timestamp`: counts it in, then answers it
    /// by its role.
    pub fn on_failure(&self, info: &FailureInfo, timestamp: i64) -> (action: HookAction)
        requires
            self.host().release_channel == ReleaseChannel::Dev ==> info.location is Some,
        ensures
            exists|role: HookRole|
                answers(self.host(), self.is_pty(), role, info@, timestamp, action),
    {
        let role = self.enter();
        self.respond(role, info, timestamp)
    }
}

/// Sets up the handler of uncaught failures for one application. The handler
/// starts armed.
pub fn init_panic_hook(
    installation_id: Option<String>,
    app_version: SemanticVersion,
    session_id: String,
    release_channel: ReleaseChannel,
    architecture: String,
    is_pty: bool,
) -> (hook: PanicHook)
    ensures
        hook.is_pty() == is_pty,
        hook.host() == (HostFactsView {
            app_version,
            release_channel,
            architecture: architecture@,
            installation_id: installation_id.deep_view(),
            session_id: session_id@,
        }),
{
    PanicHook {
        host: HostFacts { app_version, release_channel, architecture, installation_id, session_id },
        is_pty,
        counter: PanicCounter::new(),
    }
}

} // verus!
