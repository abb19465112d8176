//! The record of one uncaught failure and how it is assembled. Nothing here
//! reads a clock, a stack or a file: every input is an argument.

use vstd::prelude::*;
use vstd::string::*;
use crate::frames::{application_frames, strip_unwind_frames};
use crate::release_channel::ReleaseChannel;
use crate::version::SemanticVersion;

verus! {

/// Where in the source a failure was raised.
#[derive(Clone, Debug, PartialEq, Eq)]
pub struct SourceLocation {
    pub file: String,
    pub line: u32,
    pub column: u32,
}

pub struct SourceLocationView {
    pub file: Seq<char>,
    pub line: u32,
    pub column: u32,
}

impl View for SourceLocation {
    type V = SourceLocationView;

    open spec fn view(&self) -> SourceLocationView {
        SourceLocationView { file: self.file@, line: self.line, column: self.column }
    }
}

/// The part of a source location that a record keeps.
#[derive(Clone, Debug, PartialEq, Eq)]
pub struct LocationData {
    pub file: String,
    pub line: u32,
}

pub struct LocationDataView {
    pub file: Seq<char>,
    pub line: u32,
}

impl View for LocationData {
    type V = LocationDataView;

    open spec fn view(&self) -> LocationDataView {
        LocationDataView { file: self.file@, line: self.line }
    }
}

/// What a failure carried with it.
#[derive(Clone, Debug, PartialEq, Eq)]
pub enum FailurePayload {
    /// A message, whether it was raised as a literal or as an owned string.
    Text(String),
    /// A value of some other type, of which nothing can be printed.
    Opaque,
}

pub enum FailurePayloadView {
    Text(Seq<char>),
    Opaque,
}

impl View for FailurePayload {
    type V = FailurePayloadView;

    open spec fn view(&self) -> FailurePayloadView {
        match self {
            FailurePayload::Text(text) => FailurePayloadView::Text(text@),
            FailurePayload::Opaque => FailurePayloadView::Opaque,
        }
    }
}

/// An uncaught failure as the handler receives it.
#[derive(Clone, Debug, PartialEq, Eq)]
pub struct FailureInfo {
    /// The name of the failing thread, if it has one.
    pub thread_name: Option<String>,
    pub payload: FailurePayload,
    pub location: Option<SourceLocation>,
}

pub struct FailureInfoView {
    pub thread_name: Option<Seq<char>>,
    pub payload: FailurePayloadView,
    pub location: Option<SourceLocationView>,
}

impl View for FailureInfo {
    type V = FailureInfoView;

    open spec fn view(&self) -> FailureInfoView {
        FailureInfoView {
            thread_name: self.thread_name.deep_view(),
            payload: self.payload@,
            location: match self.location {
                Some(location) => Some(location@),
                None => None,
            },
        }
    }
}

/// What the host application tells the handler about itself when the
/// handler is set up.
#[derive(Clone, Debug, PartialEq, Eq)]
pub struct HostFacts {
    pub app_version: SemanticVersion,
    pub release_channel: ReleaseChannel,
    pub architecture: String,
    pub installation_id: Option<String>,
    pub session_id: String,
}

pub struct HostFactsView {
    pub app_version: SemanticVersion,
    pub release_channel: ReleaseChannel,
    pub architecture: Seq<char>,
    pub installation_id: Option<Seq<char>>,
    pub session_id: Seq<char>,
}

impl View for HostFacts {
    type V = HostFactsView;

    open spec fn view(&self) -> HostFactsView {
        HostFactsView {
            app_version: self.app_version,
            release_channel: self.release_channel,
            architecture: self.architecture@,
            installation_id: self.installation_id.deep_view(),
            session_id: self.session_id@,
        }
    }
}

/// The record of one uncaught failure, as it is logged, stored and sent.
#[derive(Clone, Debug, PartialEq, Eq)]
pub struct FailureRecord {
    pub thread_name: String,
    pub message: String,
    pub source_location: Option<LocationData>,
    pub app_version: String,
    pub release_channel: String,
    pub os_name: String,
    pub os_version: Option<String>,
    pub architecture: String,
    /// Milliseconds since the Unix epoch.
    pub timestamp: i64,
    pub frames: Vec<String>,
    pub installation_id: Option<String>,
    pub session_id: String,
}

pub struct FailureRecordView {
    pub thread_name: Seq<char>,
    pub message: Seq<char>,
    pub source_location: Option<LocationDataView>,
    pub app_version: Seq<char>,
    pub release_channel: Seq<char>,
    pub os_name: Seq<char>,
    pub os_version: Option<Seq<char>>,
    pub architecture: Seq<char>,
    pub timestamp: i64,
    pub frames: Seq<Seq<char>>,
    pub installation_id: Option<Seq<char>>,
    pub session_id: Seq<char>,
}

impl View for FailureRecord {
    type V = FailureRecordView;

    open spec fn view(&self) -> FailureRecordView {
        FailureRecordView {
            thread_name: self.thread_name@,
            message: self.message@,
            source_location: match self.source_location {
                Some(location) => Some(location@),
                None => None,
            },
            app_version: self.app_version@,
            release_channel: self.release_channel@,
            os_name: self.os_name@,
            os_version: self.os_version.deep_view(),
            architecture: self.architecture@,
            timestamp: self.timestamp,
            frames: self.frames.deep_view(),
            installation_id: self.installation_id.deep_view(),
            session_id: self.session_id@,
        }
    }
}

/// The name a record gives to a thread that has none.
pub open spec fn unnamed_thread() -> Seq<char> {
    "<unnamed>"@
}

/// The message a record gives to a payload that holds no text.
pub open spec fn opaque_message() -> Seq<char> {
    "Box<Any>"@
}

/// The name under which a failing thread is reported.
pub open spec fn thread_name_spec(info: FailureInfoView) -> Seq<char> {
    match info.thread_name {
        Some(name) => name,
        None => unnamed_thread(),
    }
}

/// The message under which a failure is reported.
pub open spec fn message_spec(payload: FailurePayloadView) -> Seq<char> {
    match payload {
        FailurePayloadView::Text(text) => text,
        FailurePayloadView::Opaque => opaque_message(),
    }
}

/// The record of the failure `info` in the application `host`, seen at
/// `timestamp` with the resolved stack `capture`. The operating system is
/// left blank: whoever forwards the record fills it in.
pub open spec fn record_spec(
    info: FailureInfoView,
    host: HostFactsView,
    timestamp: i64,
    capture: Seq<Seq<char>>,
) -> FailureRecordView {
    FailureRecordView {
        thread_name: thread_name_spec(info),
        message: message_spec(info.payload),
        source_location: match info.location {
            Some(location) => Some(LocationDataView { file: location.file, line: location.line }),
            None => None,
        },
        app_version: host.app_version.text(),
        release_channel: host.release_channel.display_name_spec(),
        os_name: Seq::empty(),
        os_version: None,
        architecture: host.architecture,
        timestamp,
        frames: application_frames(capture),
        installation_id: host.installation_id,
        session_id: host.session_id,
    }
}

fn clone_optional(text: &Option<String>) -> (copy: Option<String>)
    ensures
        copy.deep_view() == text.deep_view(),
{
    match text {
        Some(text) => Some(text.clone()),
        None => None,
    }
}

impl FailureInfo {
    /// The name of the failing thread, or a placeholder if it has none.
    pub fn thread_name_or_placeholder(&self) -> (name: String)
        ensures
            name@ == thread_name_spec(self@),
    {
        match &self.thread_name {
            Some(name) => name.clone(),
            None => String::from_str("<unnamed>"),
        }
    }

    /// The text of the failure, or a placeholder if its payload holds none.
    pub fn message(&self) -> (message: String)
        ensures
            message@ == message_spec(self.payload@),
    {
        match &self.payload {
            FailurePayload::Text(text) => text.clone(),
            FailurePayload::Opaque => String::from_str("Box<Any>"),
        }
    }
}

impl FailureRecord {
    /// Assembles the record of a failure from what the handler was given.
    /// Of `capture`, the names of the stack at the time of the failure, only
    /// the frames after the first unwind marker are kept.
    pub fn build(info: &FailureInfo, host: &HostFacts, timestamp: i64, capture: Vec<String>) -> (record:
        FailureRecord)
        ensures
            record@ == record_spec(info@, host@, timestamp, capture.deep_view()),
    {
        let source_location = match &info.location {
            Some(location) => Some(LocationData { file: location.file.clone(), line: location.line }),
            None => None,
        };
        FailureRecord {
            thread_name: info.thread_name_or_placeholder(),
            message: info.message(),
            source_location,
            app_version: host.app_version.to_string(),
            release_channel: String::from_str(host.release_channel.display_name()),
            os_name: String::new(),
            os_version: None,
            architecture: host.architecture.clone(),
            timestamp,
            frames: strip_unwind_frames(capture),
            installation_id: clone_optional(&host.installation_id),
            session_id: host.session_id.clone(),
        }
    }
}

} // verus!
