//! Platform identification and the path-sanitization workaround.

use vstd::prelude::*;
use vstd::string::StrSliceExecFns;

verus! {

/// The platform family the extension runs on, fixed for the process lifetime.
#[derive(Debug, Clone, Copy, PartialEq, Eq, Structural)]
pub enum Platform {
    Mac,
    Linux,
    Windows,
}

/// What sanitization does to a path's character sequence: on Windows exactly
/// one leading `/` is removed if present; everywhere else, and on Windows
/// paths without a leading slash, the path passes through unchanged.
pub open spec fn spec_sanitize(platform: Platform, path: Seq<char>) -> Seq<char> {
    if platform == Platform::Windows && path.len() > 0 && path[0] == '/' {
        path.skip(1)
    } else {
        path
    }
}

/// Corrects a path's string form for the given platform.
///
/// The host's embedded runtime occasionally hands Windows targets
/// POSIX-style absolute paths with a spurious leading slash; stripping that
/// one slash restores a valid Windows path. Mac and Linux paths are already
/// correct and pass through untouched.
pub fn sanitize_windows_path(platform: Platform, path: String) -> (r: String)
    ensures
        r@ == spec_sanitize(platform, path@),
{
    match platform {
        Platform::Mac | Platform::Linux => path,
        Platform::Windows => {
            let s = path.as_str();
            let n = s.unicode_len();
            if n > 0 && s.get_char(0) == '/' {
                s.substring_char(1, n).to_owned()
            } else {
                path
            }
        },
    }
}

/// Sanitization touches nothing on Mac and Linux: for every path, the result
/// is the input itself, leading slashes included.
pub proof fn lemma_sanitize_identity_off_windows(platform: Platform, path: Seq<char>)
    requires
        platform != Platform::Windows,
    ensures
        spec_sanitize(platform, path) == path,
{
}

/// On Windows, a path with a leading slash loses exactly that first
/// character and nothing else; one without a leading slash is unchanged.
pub proof fn lemma_sanitize_windows_strips_one(path: Seq<char>)
    ensures
        path.len() > 0 && path[0] == '/' ==> spec_sanitize(Platform::Windows, path)
            == path.skip(1),
        !(path.len() > 0 && path[0] == '/') ==> spec_sanitize(Platform::Windows, path) == path,
{
}

} // verus!
