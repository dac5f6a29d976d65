//! Directory helpers: resolving the per-user data directory and turning a
//! directory listing into the cached license identifiers.

use vstd::prelude::*;
use crate::LicenseError;

verus! {

/// Relies on `directories::ProjectDirs::from` and `ProjectDirs::data_dir`:
/// the per-user data directory for the application named "license", following
/// the operating system's conventions. `None` when no valid home directory
/// can be retrieved from the operating system. The result depends on the
/// host's environment, so nothing is assumed of it.
#[verifier::external_body]
fn platform_data_dir() -> (r: Option<String>) {
    directories::ProjectDirs::from("", "", "license")
        .map(|d| d.data_dir().to_string_lossy().into_owned())
}

/// Directory for license files, derived from the operating system's per-user
/// data-directory convention. Fails only when the host offers no such
/// directory.
pub fn data_dir() -> (r: Result<String, LicenseError>)
    ensures
        r matches Err(e) ==> e == LicenseError::Environment,
{
    match platform_data_dir() {
        Some(d) => Ok(d),
        None => Err(LicenseError::Environment),
    }
}

/// One entry of a directory listing: the entry's file name and whether it is
/// a regular file.
pub struct DirEntry {
    pub name: String,
    pub is_file: bool,
}

/// The names of the regular-file entries of a listing, in listing order.
pub open spec fn spec_file_names(entries: Seq<DirEntry>) -> Seq<Seq<char>>
    decreases entries.len(),
{
    if entries.len() == 0 {
        Seq::empty()
    } else {
        let rest = spec_file_names(entries.drop_last());
        if entries.last().is_file {
            rest.push(entries.last().name@)
        } else {
            rest
        }
    }
}

/// Returns the names of all regular files within a directory listing,
/// keeping the listing's order and skipping subdirectories.
pub fn filenames(entries: &Vec<DirEntry>) -> (r: Vec<String>)
    ensures
        r@.len() == spec_file_names(entries@).len(),
        forall|j: int| 0 <= j < r@.len() ==> r@[j]@ == spec_file_names(entries@)[j],
{
    let mut r: Vec<String> = Vec::new();
    let mut i: usize = 0;
    while i < entries.len()
        invariant
            i <= entries@.len(),
            r@.len() == spec_file_names(entries@.take(i as int)).len(),
            forall|j: int|
                0 <= j < r@.len() ==> r@[j]@ == spec_file_names(entries@.take(i as int))[j],
        decreases entries@.len() - i,
    {
        proof {
            assert(entries@.take(i + 1).drop_last() =~= entries@.take(i as int));
            assert(entries@.take(i + 1).last() == entries@[i as int]);
        }
        if entries[i].is_file {
            r.push(entries[i].name.clone());
        }
        i += 1;
    }
    proof {
        assert(entries@.take(entries@.len() as int) =~= entries@);
    }
    r
}

/// The index of the last '.' of `name` that lies strictly before `upto` and
/// not at the start, or 0 when there is none. Index 0 never counts: a name
/// that is nothing but a leading dot and what follows it has no extension.
pub open spec fn spec_last_dot(name: Seq<char>, upto: int) -> int
    decreases upto,
{
    if upto <= 1 {
        0
    } else if name[upto - 1] == '.' {
        upto - 1
    } else {
        spec_last_dot(name, upto - 1)
    }
}

/// The file stem of `name`: everything before the last '.', or the whole
/// name when there is no '.' past the first character.
pub open spec fn spec_stem(name: Seq<char>) -> Seq<char> {
    let d = spec_last_dot(name, name.len() as int);
    if d == 0 {
        name
    } else {
        name.take(d)
    }
}

/// Strips the extension from a file name, as `spec_stem` describes.
pub fn stem_of(name: &str) -> (r: String)
    ensures
        r@ == spec_stem(name@),
{
    let len = name.unicode_len();
    let mut i: usize = 1;
    let mut d: usize = 0;
    while i < len
        invariant
            1 <= i,
            i <= len || len <= 1,
            len <= 1 ==> i == 1,
            len == name@.len(),
            d == spec_last_dot(name@, i as int),
            d < i,
        decreases len - i,
    {
        if name.get_char(i) == '.' {
            d = i;
        }
        i += 1;
    }
    proof {
        if len <= 1 {
            assert(spec_last_dot(name@, len as int) == 0);
        }
        assert(d == spec_last_dot(name@, len as int));
    }
    if d == 0 {
        name.to_owned()
    } else {
        name.substring_char(0, d).to_owned()
    }
}

} // verus!
