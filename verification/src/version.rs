//! The one command the UI layer can invoke: `get_app_version`.
//!
//! The version string is baked into the binary when it is built; the command
//! takes no input, has no side effect, cannot fail, and always returns that
//! exact string.

use vstd::prelude::*;

verus! {

/// The semantic-version string baked into this build.
pub open spec fn spec_app_version() -> Seq<char> {
    "0.1.0"@
}

/// Returns the build-time version string: always the same non-empty string,
/// whatever was called before and however often it is called.
pub fn get_app_version() -> (v: String)
    ensures
        v@ == spec_app_version(),
        v@.len() > 0,
{
    proof {
        reveal_strlit("0.1.0");
    }
    String::from_str("0.1.0")
}

/// Law: the version command is deterministic. Any two results, from any two
/// invocations in any order, are the same string, since each one equals the
/// single build-time version.
pub proof fn lemma_version_deterministic(a: Seq<char>, b: Seq<char>)
    requires
        a == spec_app_version(),
        b == spec_app_version(),
    ensures
        a == b,
{
}

} // verus!
