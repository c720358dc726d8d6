//! Project names and the file that holds a project's tasks.

use vstd::prelude::*;
use vstd::string::*;

verus! {

/// A project name serves as a folder name and as the stem of a file name:
/// it is not empty and holds no path separator.
pub open spec fn valid_project_name(name: Seq<char>) -> bool {
    name.len() > 0 && forall|i: int| 0 <= i < name.len() ==> !is_separator(#[trigger] name[i])
}

/// The characters that part the components of a path.
pub open spec fn is_separator(c: char) -> bool {
    c == '/' || c == '\\'
}

/// The path of the database of the project `name`: the file `name.sqlite`
/// inside the folder `name`.
pub open spec fn database_path_of(name: Seq<char>) -> Seq<char> {
    name + "/"@ + name + ".sqlite"@
}

/// Tells whether `name` can be a project name.
pub fn is_valid_project_name(name: &str) -> (valid: bool)
    ensures
        valid == valid_project_name(name@),
{
    let len: usize = name.unicode_len();
    if len == 0 {
        return false;
    }
    let mut i: usize = 0;
    while i < len
        invariant
            len == name@.len(),
            i <= len,
            forall|j: int| 0 <= j < i ==> !is_separator(#[trigger] name@[j]),
        decreases len - i,
    {
        let c: char = name.get_char(i);
        if c == '/' || c == '\\' {
            return false;
        }
        i += 1;
    }
    true
}

/// Builds the path of a project's database.
pub fn database_path(name: &str) -> (path: String)
    ensures
        path@ == database_path_of(name@),
{
    let mut path: String = name.to_owned();
    path.append("/");
    path.append(name);
    path.append(".sqlite");
    path
}

} // verus!
