//! Deciding whether the installed program can be started.
//!
//! The caller looks at the disk and talks to the host; what follows from
//! what it found is decided here.

use vstd::prelude::*;
use vstd::string::StringExecFns;
use crate::error::ErrorKind;
use crate::error::ErrorView;
use crate::error::InstallError;
use crate::error::outcome;

verus! {

/// The error for an executable that is not where it is expected.
/// `shown` is the expected path in printable form.
pub open spec fn executable_not_found(shown: Seq<char>) -> ErrorView {
    ErrorView { kind: ErrorKind::NotFound, message: "Game executable not found at: "@ + shown }
}

/// The error for an executable path that cannot be handed to the host as
/// text.
pub open spec fn invalid_path() -> ErrorView {
    ErrorView { kind: ErrorKind::Launch, message: "Invalid path"@ }
}

/// The error for a host that refused to start the program.
pub open spec fn launch_failure(detail: Seq<char>) -> ErrorView {
    ErrorView { kind: ErrorKind::Launch, message: detail }
}

/// What a launch request comes to, given what the caller found: whether a
/// file is present at the expected path, the path as text if it has a
/// textual form, and the path in printable form.
pub open spec fn launch_decision(present: bool, path: Option<Seq<char>>, shown: Seq<char>) -> Result<
    Seq<char>,
    ErrorView,
> {
    if !present {
        Err(executable_not_found(shown))
    } else {
        match path {
            Some(text) => Ok(text),
            None => Err(invalid_path()),
        }
    }
}

/// Decides a launch request. On success the result is the path to ask the
/// host to start.
///
/// A missing executable is `NotFound`, whatever else holds: nothing is
/// searched for, created or repaired. A path without a textual form is a
/// launch error.
pub fn plan_launch(present: bool, path: Option<&str>, shown: &str) -> (r: Result<
    String,
    InstallError,
>)
    ensures
        outcome(r) == launch_decision(
            present,
            match path {
                Some(text) => Some(text@),
                None => None,
            },
            shown@,
        ),
{
    if !present {
        let mut message = String::from_str("Game executable not found at: ");
        message.append(shown);
        return Err(InstallError { kind: ErrorKind::NotFound, message });
    }
    match path {
        Some(text) => Ok(String::from_str(text)),
        None => Err(InstallError::new(ErrorKind::Launch, "Invalid path")),
    }
}

/// The launch error for a host that refused to start the program, with the
/// host's own message.
pub fn launch_refused(detail: &str) -> (e: InstallError)
    ensures
        e@ == launch_failure(detail@),
{
    InstallError::new(ErrorKind::Launch, detail)
}

/// A launch request for an executable that is absent is `NotFound`, and a
/// request is granted only for an executable that is present.
pub proof fn absent_executable_is_not_found(present: bool, path: Option<Seq<char>>, shown: Seq<char>)
    ensures
        !present ==> launch_decision(present, path, shown) is Err && launch_decision(
            present,
            path,
            shown,
        )->Err_0.kind == ErrorKind::NotFound,
        launch_decision(present, path, shown) is Ok ==> present,
{
}

} // verus!
