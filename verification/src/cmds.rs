//! Decision logic of the three commands. The surrounding tool performs the
//! file, network and console I/O these decisions call for.

use vstd::prelude::*;
use crate::LicenseError;
use crate::dirs::DirEntry;
use crate::dirs::filenames;
use crate::dirs::spec_file_names;
use crate::dirs::spec_stem;
use crate::dirs::stem_of;

verus! {

/// The destination `apply` copies the license text to: `LICENSE.txt` in the
/// working directory.
pub open spec fn spec_apply_destination(cwd: Seq<char>) -> Seq<char> {
    cwd + "/"@ + "LICENSE.txt"@
}

/// Builds the path of `apply`'s destination file within the working
/// directory.
pub fn apply_destination(cwd: &str) -> (r: String)
    ensures
        r@ == spec_apply_destination(cwd@),
{
    let mut dst = cwd.to_owned();
    dst.append("/");
    dst.append("LICENSE.txt");
    dst
}

/// Decides whether `apply` may copy to its destination: it may exactly when
/// the destination does not exist yet, so an existing file is never touched.
pub fn apply_check(dest_exists: bool) -> (r: Result<(), LicenseError>)
    ensures
        r is Ok <==> !dest_exists,
        r matches Err(e) ==> e == LicenseError::DestinationExists,
{
    if dest_exists {
        Err(LicenseError::DestinationExists)
    } else {
        Ok(())
    }
}

/// The identifiers `list` prints for a directory listing: the stem of each
/// regular file's name, in listing order; subdirectories are skipped.
pub open spec fn spec_identifiers(entries: Seq<DirEntry>) -> Seq<Seq<char>> {
    spec_file_names(entries).map_values(|n: Seq<char>| spec_stem(n))
}

/// Returns the license identifiers a directory listing holds, one per cached
/// regular file, extension stripped, in listing order.
pub fn list_identifiers(entries: &Vec<DirEntry>) -> (r: Vec<String>)
    ensures
        r@.len() == spec_identifiers(entries@).len(),
        forall|j: int| 0 <= j < r@.len() ==> r@[j]@ == spec_identifiers(entries@)[j],
{
    let names = filenames(entries);
    let mut r: Vec<String> = Vec::new();
    let mut i: usize = 0;
    while i < names.len()
        invariant
            i <= names@.len(),
            r@.len() == i,
            names@.len() == spec_file_names(entries@).len(),
            forall|j: int| 0 <= j < names@.len() ==> names@[j]@ == spec_file_names(entries@)[j],
            forall|j: int| 0 <= j < i ==> r@[j]@ == spec_stem(spec_file_names(entries@)[j]),
        decreases names@.len() - i,
    {
        r.push(stem_of(names[i].as_str()));
        i += 1;
    }
    r
}

} // verus!
