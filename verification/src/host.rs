use crate::text::{chars_of, same_text};
use vstd::prelude::*;

verus! {

/// The identity of the machine a launch is planned for, with the features
/// that the caller has switched on.
#[derive(Debug, Clone, PartialEq, Eq)]
pub struct HostSnapshot {
    /// `osx`, `linux` or `windows` on the platforms the manifests know.
    pub os_name: String,
    /// `x86`, `x86_64`, `arm64` or the platform's own name for another one.
    pub arch: String,
    pub os_version: String,
    /// Feature flags by name; of two entries with one name the later counts.
    pub features: Vec<(String, bool)>,
}

/// The mathematical value of a [`HostSnapshot`].
pub struct HostSnapshotView {
    pub os_name: Seq<char>,
    pub arch: Seq<char>,
    pub os_version: Seq<char>,
    pub features: Seq<(Seq<char>, bool)>,
}

impl View for HostSnapshot {
    type V = HostSnapshotView;

    open spec fn view(&self) -> HostSnapshotView {
        HostSnapshotView {
            os_name: self.os_name@,
            arch: self.arch@,
            os_version: self.os_version@,
            features: self.features.deep_view(),
        }
    }
}

impl DeepView for HostSnapshot {
    type V = HostSnapshotView;

    open spec fn deep_view(&self) -> HostSnapshotView {
        self@
    }
}

/// The manifests' name for an operating system, from the platform's own
/// name for it: macOS and Darwin are `osx`, Linux and the BSDs are `linux`,
/// Windows is `windows`. Another name stands for itself.
pub open spec fn normalized_os(raw: Seq<char>) -> Seq<char> {
    if raw == "macos"@ || raw == "darwin"@ || raw == "Darwin"@ || raw == "osx"@ {
        "osx"@
    } else if raw == "linux"@ || raw == "Linux"@ || raw == "freebsd"@ || raw == "netbsd"@ || raw
        == "openbsd"@ || raw == "dragonfly"@ {
        "linux"@
    } else if raw == "windows"@ || raw == "Windows"@ || raw == "Windows_NT"@ {
        "windows"@
    } else {
        raw
    }
}

/// The manifests' name for a processor architecture: 64-bit x86 is
/// `x86_64`, 32-bit x86 is `x86`, 64-bit ARM is `arm64`. Another name
/// stands for itself.
pub open spec fn normalized_arch(raw: Seq<char>) -> Seq<char> {
    if raw == "x86_64"@ || raw == "amd64"@ || raw == "x64"@ {
        "x86_64"@
    } else if raw == "x86"@ || raw == "i386"@ || raw == "i586"@ || raw == "i686"@ {
        "x86"@
    } else if raw == "aarch64"@ || raw == "arm64"@ {
        "arm64"@
    } else {
        raw
    }
}

/// Normalises the platform's name for its operating system.
pub fn normalize_os(raw: &str) -> (r: String)
    ensures
        r@ == normalized_os(raw@),
{
    if same_text(raw, "macos") || same_text(raw, "darwin") || same_text(raw, "Darwin") || same_text(
        raw,
        "osx",
    ) {
        "osx".to_owned()
    } else if same_text(raw, "linux") || same_text(raw, "Linux") || same_text(raw, "freebsd")
        || same_text(raw, "netbsd") || same_text(raw, "openbsd") || same_text(raw, "dragonfly") {
        "linux".to_owned()
    } else if same_text(raw, "windows") || same_text(raw, "Windows") || same_text(
        raw,
        "Windows_NT",
    ) {
        "windows".to_owned()
    } else {
        raw.to_owned()
    }
}

/// Normalises the platform's name for its processor architecture.
pub fn normalize_arch(raw: &str) -> (r: String)
    ensures
        r@ == normalized_arch(raw@),
{
    if same_text(raw, "x86_64") || same_text(raw, "amd64") || same_text(raw, "x64") {
        "x86_64".to_owned()
    } else if same_text(raw, "x86") || same_text(raw, "i386") || same_text(raw, "i586")
        || same_text(raw, "i686") {
        "x86".to_owned()
    } else if same_text(raw, "aarch64") || same_text(raw, "arm64") {
        "arm64".to_owned()
    } else {
        raw.to_owned()
    }
}

/// The snapshot of a host from the platform's own names for its operating
/// system and architecture, its version string and the caller's features.
pub fn snapshot(
    raw_os: &str,
    raw_arch: &str,
    os_version: &str,
    features: Vec<(String, bool)>,
) -> (r: HostSnapshot)
    ensures
        r@ == (HostSnapshotView {
            os_name: normalized_os(raw_os@),
            arch: normalized_arch(raw_arch@),
            os_version: os_version@,
            features: features.deep_view(),
        }),
{
    HostSnapshot {
        os_name: normalize_os(raw_os),
        arch: normalize_arch(raw_arch),
        os_version: os_version.to_owned(),
        features,
    }
}

/// Whether an architecture of this name has 64-bit words: its name ends in `64`.
pub open spec fn is_64_bit(arch: Seq<char>) -> bool {
    arch.len() >= 2 && arch[arch.len() - 2] == '6' && arch[arch.len() - 1] == '4'
}

/// Decides whether an architecture of this name has 64-bit words.
pub fn arch_is_64_bit(arch: &str) -> (r: bool)
    ensures
        r == is_64_bit(arch@),
{
    let chars = chars_of(arch);
    let n = chars.len();
    n >= 2 && chars[n - 2] == '6' && chars[n - 1] == '4'
}

} // verus!
