use vstd::prelude::*;
use vstd::string::StringExecFns;

verus! {

/// The version identifier this build reports, as a sequence of characters.
/// It is fixed at build time and equals the version declared in the
/// package manifest.
pub open spec fn version_spec() -> Seq<char> {
    "0.0.1"@
}

/// Returns the build's version identifier.
///
/// The result is exactly the package's declared version, it is non-empty,
/// and the call is pure: no inputs, no failure modes, no side effects.
pub fn get_version() -> (r: String)
    ensures
        r@ == version_spec(),
        r@.len() > 0,
{
    proof {
        reveal_strlit("0.0.1");
    }
    String::from_str("0.0.1")
}

/// Referential stability: any two results of `get_version` within one build
/// are the identical string. Each call's result equals `version_spec()`,
/// so any pair of results agrees.
pub proof fn lemma_get_version_stable(a: Seq<char>, b: Seq<char>)
    requires
        a == version_spec(),
        b == version_spec(),
    ensures
        a == b,
{
}

} // verus!
