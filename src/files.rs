//! What the filesystem commands decide and answer. The operating-system
//! calls themselves are made by the caller, which hands their outcomes here:
//! `Ok` with what the call produced, or `Err` with the system's error text.

use vstd::prelude::*;

verus! {

/// `prefix` followed by `detail`.
pub fn prefixed(prefix: &str, detail: &str) -> (r: String)
    ensures
        r@ == prefix@ + detail@,
{
    let mut r = String::from_str(prefix);
    r.append(detail);
    r
}

/// The reply to a read: the file's text as it was read, or the error.
pub fn read_file_outcome(read: Result<String, String>) -> (r: Result<String, String>)
    ensures
        read is Ok ==> r is Ok && r->Ok_0@ == read->Ok_0@,
        read is Err ==> r is Err && r->Err_0@ == "Failed to read file: "@ + read->Err_0@,
{
    match read {
        Ok(content) => Ok(content),
        Err(e) => Err(prefixed("Failed to read file: ", e.as_str())),
    }
}

/// The reply to a write of a file's contents.
pub fn write_file_outcome(written: Result<(), String>) -> (r: Result<String, String>)
    ensures
        written is Ok ==> r is Ok && r->Ok_0@ == "File written successfully"@,
        written is Err ==> r is Err && r->Err_0@ == "Failed to write file: "@
            + written->Err_0@,
{
    match written {
        Ok(()) => Ok(String::from_str("File written successfully")),
        Err(e) => Err(prefixed("Failed to write file: ", e.as_str())),
    }
}

/// The reply to the creation of a directory and its missing parents.
pub fn create_dir_outcome(created: Result<(), String>) -> (r: Result<String, String>)
    ensures
        created is Ok ==> r is Ok && r->Ok_0@ == "Directory created successfully"@,
        created is Err ==> r is Err && r->Err_0@ == "Failed to create directory: "@
            + created->Err_0@,
{
    match created {
        Ok(()) => Ok(String::from_str("Directory created successfully")),
        Err(e) => Err(prefixed("Failed to create directory: ", e.as_str())),
    }
}

/// How a path is removed.
#[derive(Clone, Copy, Debug, PartialEq, Eq, Structural)]
pub enum DeleteKind {
    /// The directory and everything below it.
    Directory,
    /// A single file; also what is tried on a path that does not exist.
    File,
}

/// A directory is removed with all its descendants, anything else as a
/// single file.
pub fn delete_kind(is_dir: bool) -> (r: DeleteKind)
    ensures
        r == (if is_dir { DeleteKind::Directory } else { DeleteKind::File }),
{
    if is_dir {
        DeleteKind::Directory
    } else {
        DeleteKind::File
    }
}

/// The reply to a removal of the kind `kind`. A failed removal, such as one
/// of a path that does not exist, is always an error.
pub fn delete_outcome(kind: DeleteKind, removed: Result<(), String>) -> (r: Result<String, String>)
    ensures
        removed is Ok <==> r is Ok,
        removed is Ok && kind == DeleteKind::Directory ==> r->Ok_0@
            == "Directory deleted successfully"@,
        removed is Ok && kind == DeleteKind::File ==> r->Ok_0@ == "File deleted successfully"@,
        removed is Err && kind == DeleteKind::Directory ==> r->Err_0@
            == "Failed to delete directory: "@ + removed->Err_0@,
        removed is Err && kind == DeleteKind::File ==> r->Err_0@ == "Failed to delete file: "@
            + removed->Err_0@,
{
    match (kind, removed) {
        (DeleteKind::Directory, Ok(())) => Ok(String::from_str("Directory deleted successfully")),
        (DeleteKind::Directory, Err(e)) => Err(
            prefixed("Failed to delete directory: ", e.as_str()),
        ),
        (DeleteKind::File, Ok(())) => Ok(String::from_str("File deleted successfully")),
        (DeleteKind::File, Err(e)) => Err(prefixed("Failed to delete file: ", e.as_str())),
    }
}

/// The reply to a save through the save prompt: `None` when the user
/// cancelled it, else the chosen path as displayed and the outcome of the
/// write there.
pub fn save_file_outcome(saved: Option<(String, Result<(), String>)>) -> (r: Result<
    String,
    String,
>)
    ensures
        saved is None ==> r is Err && r->Err_0@ == "Save cancelled by user"@,
        saved is Some && saved->Some_0.1 is Ok ==> r is Ok && r->Ok_0@
            == "File saved successfully to: "@ + saved->Some_0.0@,
        saved is Some && saved->Some_0.1 is Err ==> r is Err && r->Err_0@
            == "Failed to save file: "@ + saved->Some_0.1->Err_0@,
{
    match saved {
        None => Err(String::from_str("Save cancelled by user")),
        Some((path, Ok(()))) => Ok(prefixed("File saved successfully to: ", path.as_str())),
        Some((_, Err(e))) => Err(prefixed("Failed to save file: ", e.as_str())),
    }
}

} // verus!
