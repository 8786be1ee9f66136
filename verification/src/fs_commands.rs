//! Responses of the filesystem command handlers.
//!
//! Each handler observes the filesystem (did the write succeed, does the path
//! exist, what kind of path is it) and answers the caller with a success
//! message or a stringified error. The observation is I/O and happens outside
//! this crate; everything the handler computes from the observation is here,
//! with an exact contract.

use vstd::prelude::*;

verus! {

/// Response of the file-writing command: reports where the file was written,
/// or why the write failed.
pub fn write_file_response(name: &str, outcome: Result<(), String>) -> (r: Result<String, String>)
    ensures
        outcome matches Ok(_) ==> (r matches Ok(m) && m@ == "File written successfully to "@
            + name@),
        outcome matches Err(e) ==> (r matches Err(m) && m@ == "Failed to write file: "@ + e@),
{
    match outcome {
        Ok(_) => Ok(String::from_str("File written successfully to ").concat(name)),
        Err(e) => Err(String::from_str("Failed to write file: ").concat(e.as_str())),
    }
}

/// Response of the existence-check command: whatever the filesystem reported,
/// and never an error.
pub fn exists_file_response(found: bool) -> (r: Result<bool, String>)
    ensures
        r == Ok::<bool, String>(found),
{
    Ok(found)
}

/// Response of the directory-creation command: confirms the directories, or
/// reports why they could not be created.
pub fn ensure_directory_response(dir_path: &str, outcome: Result<(), String>) -> (r: Result<
    String,
    String,
>)
    ensures
        outcome matches Ok(_) ==> (r matches Ok(m) && m@ == "Directories ensured for path: "@
            + dir_path@),
        outcome matches Err(e) ==> (r matches Err(m) && m@ == "Failed to create directories: "@
            + e@),
{
    match outcome {
        Ok(_) => Ok(String::from_str("Directories ensured for path: ").concat(dir_path)),
        Err(e) => Err(String::from_str("Failed to create directories: ").concat(e.as_str())),
    }
}

/// What the filesystem reports about the path handed to the deletion command.
#[derive(Clone, Copy, PartialEq, Eq, Structural, Debug)]
pub enum PathKind {
    /// The path does not exist.
    Missing,
    /// The path is a regular file.
    File,
    /// The path is a directory.
    Directory,
    /// The path exists but is neither a regular file nor a directory.
    Other,
}

/// The removal the deletion command asks the filesystem for.
#[derive(Clone, Copy, PartialEq, Eq, Structural, Debug)]
pub enum RemovalKind {
    /// Remove a single file.
    File,
    /// Remove a directory and everything under it.
    Directory,
}

/// What the deletion command does for a path of the given kind: answer at
/// once, or remove something first.
#[derive(PartialEq, Eq, Debug)]
pub enum DeletePlan {
    /// No removal is needed: this is the command's response.
    Finished(Result<String, String>),
    /// The named removal must be performed before answering.
    Remove(RemovalKind),
}

/// Plan of the deletion command: a missing path is nothing to do, a file or a
/// directory is removed, and anything else is refused.
pub fn delete_plan(target_path: &str, kind: PathKind) -> (p: DeletePlan)
    ensures
        kind == PathKind::Missing ==> (p matches DeletePlan::Finished(r) && r matches Ok(m) && m@
            == "Path does not exist. Nothing to do"@),
        kind == PathKind::File ==> p == DeletePlan::Remove(RemovalKind::File),
        kind == PathKind::Directory ==> p == DeletePlan::Remove(RemovalKind::Directory),
        kind == PathKind::Other ==> (p matches DeletePlan::Finished(r) && r matches Err(m) && m@
            == "Unknown path type: "@ + target_path@),
{
    match kind {
        PathKind::Missing => DeletePlan::Finished(
            Ok(String::from_str("Path does not exist. Nothing to do")),
        ),
        PathKind::File => DeletePlan::Remove(RemovalKind::File),
        PathKind::Directory => DeletePlan::Remove(RemovalKind::Directory),
        PathKind::Other => DeletePlan::Finished(
            Err(String::from_str("Unknown path type: ").concat(target_path)),
        ),
    }
}

/// Response of the deletion command once the planned removal has run:
/// confirms the deleted path, or reports the failure under the kind of
/// removal that was attempted.
pub fn delete_removal_response(
    target_path: &str,
    kind: RemovalKind,
    outcome: Result<(), String>,
) -> (r: Result<String, String>)
    ensures
        outcome matches Ok(_) ==> (r matches Ok(m) && m@ == "Successfully deleted: "@
            + target_path@),
        outcome matches Err(e) ==> (r matches Err(m) && m@ == (if kind == RemovalKind::File {
            "Failed to delete file: "@
        } else {
            "Failed to delete directory: "@
        }) + e@),
{
    match outcome {
        Ok(_) => Ok(String::from_str("Successfully deleted: ").concat(target_path)),
        Err(e) => match kind {
            RemovalKind::File => Err(String::from_str("Failed to delete file: ").concat(e.as_str())),
            RemovalKind::Directory => Err(
                String::from_str("Failed to delete directory: ").concat(e.as_str()),
            ),
        },
    }
}

} // verus!
