//! The installer's external collaborators: environment lookups and
//! filesystem probes. Each function here is a trusted window onto an
//! outside call whose result depends on the machine's state, so nothing is
//! promised of what comes back; the verified decision functions in
//! [`crate::install`] take these results as arguments.

use vstd::prelude::*;

use path_absolutize::Absolutize;

verus! {

/// Relies on dirs::home_dir: the user's home directory as the system
/// reports it, when there is one and its path is valid Unicode.
#[verifier::external_body]
pub(crate) fn home_dir_path() -> (r: Option<String>) {
    dirs::home_dir().and_then(|p| p.to_str().map(|s| s.to_string()))
}

/// Relies on std's Path::is_file: whether `p` names an existing regular
/// file (following symbolic links) at the moment of the call.
#[verifier::external_body]
pub(crate) fn path_is_file(p: &str) -> (r: bool) {
    std::path::Path::new(p).is_file()
}

/// Relies on path_absolutize's Absolutize::absolutize: `p` made absolute
/// against the current working directory, with `.` and `..` components
/// resolved. `None` when the working directory cannot be read or the
/// result is not valid Unicode.
#[verifier::external_body]
pub(crate) fn absolutize_path(p: &str) -> (r: Option<String>) {
    match std::path::Path::new(p).absolutize() {
        Ok(a) => a.to_str().map(|s| s.to_string()),
        Err(_) => None,
    }
}

/// Relies on std's String::push: appends exactly the one character.
#[verifier::external_body]
pub(crate) fn push_char(s: &mut String, c: char)
    ensures
        final(s)@ == old(s)@.push(c),
{
    s.push(c);
}

/// Relies on which::which: the first executable named `pwsh` on the system
/// search path, when one exists and its path is valid Unicode.
#[verifier::external_body]
pub(crate) fn which_pwsh() -> (r: Option<String>) {
    match which::which("pwsh") {
        Ok(p) => p.to_str().map(|s| s.to_string()),
        Err(_) => None,
    }
}

} // verus!
