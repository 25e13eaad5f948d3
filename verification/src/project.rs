//! Checks on the project and the environment before anything is spawned,
//! and the naming of files inside the project.

use std::path::Path;
use vstd::prelude::*;
use crate::error::{SessionError, ValidationError};
use crate::text::text_of;

verus! {

/// What `Path::strip_prefix` gives for a path and a base, both read as
/// paths: the rest of the path below the base, or `None` where the base is
/// not a prefix of the path.
pub uninterp spec fn path_strip_prefix(path: Seq<char>, base: Seq<char>) -> Option<Seq<char>>;

/// Calls `Path::strip_prefix`. Trusted: the result is the one named by
/// [`path_strip_prefix`].
#[verifier::external_body]
fn strip_prefix(path: &str, base: &str) -> (rest: Option<String>)
    ensures
        text_of(rest) == path_strip_prefix(path@, base@),
{
    Path::new(path).strip_prefix(base).ok().map(|rest| rest.to_string_lossy().to_string())
}

/// The name under which a file is shown, given what is left of its path
/// below the project root: that rest, or the whole path where the file does
/// not lie below the root.
pub open spec fn shown_path(stripped: Option<Seq<char>>, absolute_path: Seq<char>) -> Seq<char> {
    match stripped {
        Some(rest) => rest,
        None => absolute_path,
    }
}

/// Chooses the name under which a file is shown.
pub fn relative_or_absolute(stripped: Option<String>, absolute_path: &str) -> (shown: String)
    ensures
        shown@ == shown_path(text_of(stripped), absolute_path@),
{
    match stripped {
        Some(rest) => rest,
        None => String::from_str(absolute_path),
    }
}

/// The path of a file relative to the project root, for display; a file
/// outside the project keeps its whole path.
pub fn get_relative_path(absolute_path: &str, project_root: &str) -> (shown: String)
    ensures
        shown@ == shown_path(path_strip_prefix(absolute_path@, project_root@), absolute_path@),
{
    relative_or_absolute(strip_prefix(absolute_path, project_root), absolute_path)
}

/// Accepts a project that has a source directory. `has_lib_dir` says
/// whether there is a directory named `lib` at the project root.
pub fn validate_flutter_project(path: &str, has_lib_dir: bool) -> (checked: Result<(), SessionError>)
    ensures
        checked is Ok <==> has_lib_dir,
        checked matches Err(e) ==> e matches SessionError::StartupValidation(
            ValidationError::MissingSourceDir(project),
        ) && project@ == path@,
{
    if has_lib_dir {
        Ok(())
    } else {
        Err(SessionError::StartupValidation(ValidationError::MissingSourceDir(String::from_str(path))))
    }
}

/// Accepts an environment in which the external tool can be started.
/// `tool_started` says whether asking the tool for its version could be
/// launched at all; what the tool answered does not matter.
pub fn check_prerequisites(tool_started: bool) -> (checked: Result<(), SessionError>)
    ensures
        checked is Ok <==> tool_started,
        checked matches Err(e) ==> e matches SessionError::StartupValidation(
            ValidationError::MissingTool,
        ),
{
    if tool_started {
        Ok(())
    } else {
        Err(SessionError::StartupValidation(ValidationError::MissingTool))
    }
}

} // verus!
