//! Joining a directory and a name into one path.

use vstd::prelude::*;

verus! {

/// The path that results when `name` is adjoined to `base` by the path rules
/// of the platform that the crate is built for: what `Path::join` of std
/// returns, read back as text. The rules (which separator, and when one is
/// added) are std's and are not restated here.
pub uninterp spec fn joined_path(base: Seq<char>, name: Seq<char>) -> Seq<char>;

/// `PathBuf::from(base).join(name)` of std, as text. Trusted: the result is a
/// function of the two texts alone, and it is the one that [`joined_path`]
/// names. Both arguments are valid UTF-8, so nothing is lost when the joined
/// path is read back as text.
#[verifier::external_body]
pub(crate) fn join_path(base: &str, name: &str) -> (joined: String)
    ensures
        joined@ == joined_path(base@, name@),
{
    std::path::PathBuf::from(base).join(name).to_string_lossy().to_string()
}

} // verus!
