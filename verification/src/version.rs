//! The compiler that built a macro library, and which compilers are supported.

use vstd::prelude::*;

verus! {

/// The first minor version of the compiler whose libraries a client accepts.
pub const MINIMUM_MINOR: u32 = 47;

/// What a macro library records of the compiler that built it.
#[derive(Debug, PartialEq, Eq)]
pub struct RustCInfo {
    /// Major, minor and patch number of the compiler.
    pub version: (u32, u32, u32),
    pub channel: String,
    pub commit: Option<String>,
    pub date: Option<String>,
    /// The compiler's own line about its version.
    pub version_string: String,
}

/// Whether libraries built by the compiler of the given version are accepted.
pub open spec fn supported(major: u32, minor: u32) -> bool {
    major >= 1 && minor >= MINIMUM_MINOR
}

/// Whether the version `(major, minor)` comes before the first supported
/// one, which is `(1, 47)`: versions are ordered by their major number, then
/// by their minor number.
pub open spec fn precedes_minimum(major: u32, minor: u32) -> bool {
    major < 1 || (major == 1 && minor < MINIMUM_MINOR)
}

/// No version before the first supported one is supported: `(1, 46)` is not,
/// nor is any version before it.
pub proof fn lemma_old_versions_unsupported(major: u32, minor: u32)
    requires
        precedes_minimum(major, minor),
    ensures
        !supported(major, minor),
{
}

/// Whether libraries built by the compiler of the given version are accepted.
pub fn is_supported(major: u32, minor: u32) -> (accepted: bool)
    ensures
        accepted == supported(major, minor),
{
    major >= 1 && minor >= MINIMUM_MINOR
}

/// The complaint about a library that an unsupported compiler built.
pub open spec fn unsupported_message(path: Seq<char>, toolchain: Seq<char>) -> Seq<char> {
    "proc-macro "@ + path + " built by "@ + toolchain
        + " is not supported by Rust Analyzer, please update your rust version."@
}

} // verus!
