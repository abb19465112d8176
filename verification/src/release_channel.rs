//! The distribution track of a build, which selects how failures are handled.

use vstd::prelude::*;

verus! {

/// The distribution track a build was made for.
#[derive(Clone, Copy, Debug, PartialEq, Eq, Structural)]
pub enum ReleaseChannel {
    Dev,
    Nightly,
    Preview,
    Stable,
}

impl ReleaseChannel {
    /// The name under which the channel appears in reports.
    pub open spec fn display_name_spec(self) -> Seq<char> {
        match self {
            ReleaseChannel::Dev => "Dev"@,
            ReleaseChannel::Nightly => "Nightly"@,
            ReleaseChannel::Preview => "Preview"@,
            ReleaseChannel::Stable => "Stable"@,
        }
    }

    /// Channels whose builds identify the exact source revision they were
    /// made from.
    pub open spec fn reports_commit_spec(self) -> bool {
        self == ReleaseChannel::Dev || self == ReleaseChannel::Nightly
    }

    /// Channels on which a stalled main thread is watched for. Stable builds
    /// are left out: the reports are too noisy for them.
    pub open spec fn watches_for_hangs_spec(self) -> bool {
        self != ReleaseChannel::Stable
    }

    pub fn display_name(&self) -> (name: &'static str)
        ensures
            name@ == self.display_name_spec(),
    {
        match self {
            ReleaseChannel::Dev => "Dev",
            ReleaseChannel::Nightly => "Nightly",
            ReleaseChannel::Preview => "Preview",
            ReleaseChannel::Stable => "Stable",
        }
    }

    #[verifier::when_used_as_spec(reports_commit_spec)]
    pub fn reports_commit(self) -> (yes: bool)
        ensures
            yes == self.reports_commit_spec(),
    {
        match self {
            ReleaseChannel::Dev | ReleaseChannel::Nightly => true,
            _ => false,
        }
    }

    #[verifier::when_used_as_spec(watches_for_hangs_spec)]
    pub fn watches_for_hangs(self) -> (yes: bool)
        ensures
            yes == self.watches_for_hangs_spec(),
    {
        match self {
            ReleaseChannel::Dev | ReleaseChannel::Nightly | ReleaseChannel::Preview => true,
            ReleaseChannel::Stable => false,
        }
    }
}

} // verus!
