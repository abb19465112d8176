//! The facts about the machine and the build that accompany a report.

use vstd::prelude::*;
use vstd::string::*;
use crate::os_release::{distribution, distribution_spec, unknown};
use crate::release_channel::ReleaseChannel;
use crate::version::SemanticVersion;

verus! {

/// What was found out about the operating system, by the means that each
/// platform offers.
#[derive(Clone, Debug, PartialEq, Eq)]
pub enum OsProbe {
    /// The version that the process information reports.
    MacOs { version: SemanticVersion },
    /// The name of the display server in use, and the text of the first
    /// `os-release` file that could be read, empty if none could.
    Linux { compositor: String, os_release: String },
    /// The major, minor and build numbers that the kernel reports, or
    /// nothing if it would not tell.
    Windows { version: Option<SemanticVersion> },
}

pub enum OsProbeView {
    MacOs { version: SemanticVersion },
    Linux { compositor: Seq<char>, os_release: Seq<char> },
    Windows { version: Option<SemanticVersion> },
}

impl View for OsProbe {
    type V = OsProbeView;

    open spec fn view(&self) -> OsProbeView {
        match self {
            OsProbe::MacOs { version } => OsProbeView::MacOs { version: *version },
            OsProbe::Linux { compositor, os_release } => OsProbeView::Linux {
                compositor: compositor@,
                os_release: os_release@,
            },
            OsProbe::Windows { version } => OsProbeView::Windows { version: *version },
        }
    }
}

/// The name under which the operating system is reported.
pub open spec fn os_name_spec(probe: OsProbeView) -> Seq<char> {
    match probe {
        OsProbeView::MacOs { .. } => "macOS"@,
        OsProbeView::Linux { compositor, .. } => "Linux "@ + compositor,
        OsProbeView::Windows { .. } => "Windows"@,
    }
}

/// The version under which the operating system is reported.
pub open spec fn os_version_spec(probe: OsProbeView) -> Seq<char> {
    match probe {
        OsProbeView::MacOs { version } => version.text(),
        OsProbeView::Linux { os_release, .. } => distribution_spec(os_release),
        OsProbeView::Windows { version } => match version {
            Some(version) => version.text(),
            None => unknown(),
        },
    }
}

/// The build and the machine it runs on.
#[derive(Clone, Debug, PartialEq, Eq)]
pub struct SystemSpecs {
    pub app_version: String,
    pub release_channel: &'static str,
    pub os_name: String,
    pub os_version: String,
    /// The memory of the machine, in bytes.
    pub memory: u64,
    pub architecture: &'static str,
    pub commit_sha: Option<String>,
}

pub struct SystemSpecsView {
    pub app_version: Seq<char>,
    pub release_channel: Seq<char>,
    pub os_name: Seq<char>,
    pub os_version: Seq<char>,
    pub memory: u64,
    pub architecture: Seq<char>,
    pub commit_sha: Option<Seq<char>>,
}

impl View for SystemSpecs {
    type V = SystemSpecsView;

    open spec fn view(&self) -> SystemSpecsView {
        SystemSpecsView {
            app_version: self.app_version@,
            release_channel: self.release_channel@,
            os_name: self.os_name@,
            os_version: self.os_version@,
            memory: self.memory,
            architecture: self.architecture@,
            commit_sha: self.commit_sha.deep_view(),
        }
    }
}

/// The revision a report names: the one the build was made from, on the
/// channels that report it, and none on the others.
pub open spec fn reported_commit(channel: ReleaseChannel, commit_sha: Option<Seq<char>>) -> Option<
    Seq<char>,
> {
    if channel.reports_commit_spec() {
        commit_sha
    } else {
        None
    }
}

/// The build as a report names it: channel, and revision where there is one.
pub open spec fn build_label(specs: SystemSpecsView) -> Seq<char> {
    match specs.commit_sha {
        Some(sha) => specs.release_channel + seq![' '] + sha,
        None => specs.release_channel,
    }
}

/// The four lines under which the facts are shown. `human_memory` is the
/// size of the memory as a reader takes it in.
pub open spec fn summary_spec(specs: SystemSpecsView, human_memory: Seq<char>) -> Seq<char> {
    "Zed: v"@ + specs.app_version + " ("@ + build_label(specs) + ")"@ + "\nOS: "@ + specs.os_name
        + seq![' '] + specs.os_version + "\nMemory: "@ + human_memory + "\nArchitecture: "@
        + specs.architecture
}

impl SystemSpecs {
    /// Puts the facts together. The revision is dropped on channels that do
    /// not report it.
    pub fn new(
        app_version: String,
        release_channel: ReleaseChannel,
        commit_sha: Option<String>,
        probe: &OsProbe,
        memory: u64,
        architecture: &'static str,
    ) -> (specs: SystemSpecs)
        ensures
            specs@ == (SystemSpecsView {
                app_version: app_version@,
                release_channel: release_channel.display_name_spec(),
                os_name: os_name_spec(probe@),
                os_version: os_version_spec(probe@),
                memory,
                architecture: architecture@,
                commit_sha: reported_commit(release_channel, commit_sha.deep_view()),
            }),
    {
        let commit_sha = if release_channel.reports_commit() {
            commit_sha
        } else {
            None
        };
        SystemSpecs {
            app_version,
            release_channel: release_channel.display_name(),
            os_name: SystemSpecs::os_name(probe),
            os_version: SystemSpecs::os_version(probe),
            memory,
            architecture,
            commit_sha,
        }
    }

    /// The name under which the operating system is reported.
    pub fn os_name(probe: &OsProbe) -> (name: String)
        ensures
            name@ == os_name_spec(probe@),
    {
        match probe {
            OsProbe::MacOs { .. } => String::from_str("macOS"),
            OsProbe::Linux { compositor, .. } => String::from_str("Linux ").concat(
                compositor.as_str(),
            ),
            OsProbe::Windows { .. } => String::from_str("Windows"),
        }
    }

    /// The version under which the operating system is reported.
    pub fn os_version(probe: &OsProbe) -> (version: String)
        ensures
            version@ == os_version_spec(probe@),
    {
        match probe {
            OsProbe::MacOs { version } => version.to_string(),
            OsProbe::Linux { os_release, .. } => distribution(os_release.as_str()),
            OsProbe::Windows { version } => match version {
                Some(version) => version.to_string(),
                None => {
                    proof {
                        reveal_strlit("unknown");
                        assert("unknown"@ =~= unknown());
                    }
                    String::from_str("unknown")
                },
            },
        }
    }

    /// Writes the facts out in four lines: the build, the operating system,
    /// the memory and the architecture.
    pub fn summary(&self, human_memory: &str) -> (text: String)
        ensures
            text@ == summary_spec(self@, human_memory@),
    {
        proof {
            reveal_strlit(" ");
        }
        let mut text = String::from_str("Zed: v");
        text.append(self.app_version.as_str());
        text.append(" (");
        text.append(self.release_channel);
        match &self.commit_sha {
            Some(sha) => {
                text.append(" ");
                text.append(sha.as_str());
            },
            None => {},
        }
        text.append(")");
        text.append("\nOS: ");
        text.append(self.os_name.as_str());
        text.append(" ");
        text.append(self.os_version.as_str());
        text.append("\nMemory: ");
        text.append(human_memory);
        text.append("\nArchitecture: ");
        text.append(self.architecture);
        assert(text@ =~= summary_spec(self@, human_memory@));
        text
    }
}

} // verus!
