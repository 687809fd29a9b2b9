//! What persistence decides, apart from the reading and writing itself:
//! the name of the temporary file of a save, the list that a failed load
//! gives, and when a local todo file moves to the per-user location.

use vstd::prelude::*;

use crate::model::TodoList;

verus! {

/// The name of the temporary file that a save writes beside the todo file
/// before renaming it into place: a dot, the file's name, `.tmp`.
pub open spec fn temp_name_text(file_name: Seq<char>) -> Seq<char> {
    "."@ + file_name + ".tmp"@
}

/// The name of the temporary file for a save to `file_name`.
pub fn temp_file_name(file_name: &str) -> (r: String)
    ensures
        r@ == temp_name_text(file_name@),
{
    let mut r = String::from_str(".");
    r.append(file_name);
    r.append(".tmp");
    r
}

impl TodoList {
    /// The list that a load gives: the loaded one, or the empty list where
    /// the file could not be read or parsed.
    pub fn or_empty(loaded: Option<TodoList>) -> (r: TodoList)
        ensures
            loaded matches Some(l) ==> r == l,
            loaded is None ==> r.items@.len() == 0,
    {
        match loaded {
            Some(l) => l,
            None => TodoList { items: Vec::new() },
        }
    }
}

/// Whether a local todo file moves to the per-user location: only where
/// there is a local file and no per-user file yet.
pub fn should_migrate(local_exists: bool, target_exists: bool) -> (r: bool)
    ensures
        r == (local_exists && !target_exists),
{
    local_exists && !target_exists
}

} // verus!
