//! Resolves an SPDX license identifier to a `License` record: a long display
//! name, the URL of the canonical license text, and the local path where the
//! text is cached. Pure decision logic for the surrounding command-line tool
//! (fetch-on-miss planning, destination checks, listing cached identifiers)
//! lives here as well; the tool itself performs the I/O those decisions call
//! for.

use vstd::prelude::*;

pub mod cache;
pub mod cmds;
pub mod dirs;

verus! {

/// The failures the library distinguishes: the per-user data directory could
/// not be resolved, a download failed, or `apply`'s destination already
/// exists.
#[derive(Clone, Copy, PartialEq, Eq, Structural, Debug)]
pub enum LicenseError {
    Environment,
    Download,
    DestinationExists,
}

impl LicenseError {
    /// The message printed for this error.
    pub open spec fn spec_message(self) -> Seq<char> {
        match self {
            LicenseError::Environment => "could not find project directories"@,
            LicenseError::Download => "failed to download file"@,
            LicenseError::DestinationExists => "file LICENSE.txt already exists"@,
        }
    }

    /// Returns the human-readable message for this error.
    pub fn message(&self) -> (r: String)
        ensures
            r@ == self.spec_message(),
    {
        match self {
            LicenseError::Environment => "could not find project directories".to_owned(),
            LicenseError::Download => "failed to download file".to_owned(),
            LicenseError::DestinationExists => "file LICENSE.txt already exists".to_owned(),
        }
    }
}

/// Information on a license: the SPDX identifier, a longer display name, the
/// URL of the canonical text, and the local path where the text is cached.
pub struct License {
    short: String,
    long: String,
    url: String,
    path: String,
}

/// The mathematical value of a `License`: its four fields as sequences of
/// characters.
pub struct LicenseView {
    pub short: Seq<char>,
    pub long: Seq<char>,
    pub url: Seq<char>,
    pub path: Seq<char>,
}

impl View for License {
    type V = LicenseView;

    closed spec fn view(&self) -> LicenseView {
        LicenseView {
            short: self.short@,
            long: self.long@,
            url: self.url@,
            path: self.path@,
        }
    }
}

/// The URL obtained by substituting the identifier into the fixed template:
/// the raw SPDX license-list-data text file named after the identifier.
pub open spec fn spec_template_url(spdx: Seq<char>) -> Seq<char> {
    "https://raw.githubusercontent.com/spdx/license-list-data/master/text/"@ + spdx + ".txt"@
}

/// The local cache path for an identifier: `<data_dir>/<spdx>.txt`.
pub open spec fn spec_cache_path(data_dir: Seq<char>, spdx: Seq<char>) -> Seq<char> {
    data_dir + "/"@ + spdx + ".txt"@
}

/// The display name of an identifier: a known override for "MIT" and
/// "Apache-2.0", the identifier itself otherwise.
pub open spec fn spec_long_name(spdx: Seq<char>) -> Seq<char> {
    if spdx == "MIT"@ {
        "MIT License"@
    } else if spdx == "Apache-2.0"@ {
        "Apache License 2.0"@
    } else {
        spdx
    }
}

/// The source URL of an identifier: a fixed override for "Apache-2.0" (the
/// templated copy has different formatting upstream), the template otherwise.
pub open spec fn spec_url(spdx: Seq<char>) -> Seq<char> {
    if spdx == "Apache-2.0"@ {
        "https://www.apache.org/licenses/LICENSE-2.0.txt"@
    } else {
        spec_template_url(spdx)
    }
}

/// The `License` record an identifier resolves to, given the data directory.
pub open spec fn spec_resolve(spdx: Seq<char>, data_dir: Seq<char>) -> LicenseView {
    LicenseView {
        short: spdx,
        long: spec_long_name(spdx),
        url: spec_url(spdx),
        path: spec_cache_path(data_dir, spdx),
    }
}

impl License {
    /// Returns a default URL that will probably have the license file.
    pub fn default_url(spdx: &str) -> (r: String)
        ensures
            r@ == spec_template_url(spdx@),
    {
        let mut url =
            "https://raw.githubusercontent.com/spdx/license-list-data/master/text/".to_owned();
        url.append(spdx);
        url.append(".txt");
        url
    }

    /// Builds the path to a license file within the data directory. Does not
    /// guarantee that the file exists.
    pub fn build_path(spdx: &str, data_dir: &str) -> (r: String)
        ensures
            r@ == spec_cache_path(data_dir@, spdx@),
    {
        let mut path = data_dir.to_owned();
        path.append("/");
        path.append(spdx);
        path.append(".txt");
        path
    }

    /// Returns default license values for any SPDX identifier: the identifier
    /// serves as both names and fills the URL template.
    pub fn default(spdx: &str, data_dir: &str) -> (l: License)
        ensures
            l@ == (LicenseView {
                short: spdx@,
                long: spdx@,
                url: spec_template_url(spdx@),
                path: spec_cache_path(data_dir@, spdx@),
            }),
    {
        License {
            short: spdx.to_owned(),
            long: spdx.to_owned(),
            url: License::default_url(spdx),
            path: License::build_path(spdx, data_dir),
        }
    }

    /// Resolves an SPDX identifier against the given data directory. Never
    /// fails: an unknown identifier produces the default record.
    pub fn resolve(spdx: &str, data_dir: &str) -> (l: License)
        ensures
            l@ == spec_resolve(spdx@, data_dir@),
    {
        proof {
            reveal_strlit("MIT");
            reveal_strlit("Apache-2.0");
        }
        let def = License::default(spdx, data_dir);
        if str_eq(spdx, "MIT") {
            License { long: "MIT License".to_owned(), ..def }
        } else if str_eq(spdx, "Apache-2.0") {
            License {
                long: "Apache License 2.0".to_owned(),
                url: "https://www.apache.org/licenses/LICENSE-2.0.txt".to_owned(),
                ..def
            }
        } else {
            def
        }
    }

    /// Gets license information from the SPDX identifier, resolving the
    /// per-user data directory on the host. Forwards the error from that
    /// resolution; any identifier itself is accepted.
    pub fn from(spdx: &str) -> (r: Result<License, LicenseError>)
        ensures
            r matches Ok(l) ==> exists|d: Seq<char>| l@ == #[trigger] spec_resolve(spdx@, d),
            r matches Err(e) ==> e == LicenseError::Environment,
    {
        match dirs::data_dir() {
            Ok(d) => {
                let l = License::resolve(spdx, d.as_str());
                proof {
                    assert(l@ == spec_resolve(spdx@, d@));
                }
                Ok(l)
            },
            Err(e) => Err(e),
        }
    }

    /// Returns short name of the license.
    pub fn short(&self) -> (r: &str)
        ensures
            r@ == self@.short,
    {
        self.short.as_str()
    }

    /// Returns long name of the license.
    pub fn long(&self) -> (r: &str)
        ensures
            r@ == self@.long,
    {
        self.long.as_str()
    }

    /// Returns a URL to the license text.
    pub fn url(&self) -> (r: &str)
        ensures
            r@ == self@.url,
    {
        self.url.as_str()
    }

    /// Returns path to the license file.
    pub fn path(&self) -> (r: &str)
        ensures
            r@ == self@.path,
    {
        self.path.as_str()
    }
}

/// For every identifier and every data directory, the resolved record keeps
/// the identifier as its short name and caches at `<data_dir>/<spdx>.txt` —
/// whether or not the identifier is a known license.
pub proof fn lemma_resolve_path_uniform(spdx: Seq<char>, data_dir: Seq<char>)
    ensures
        spec_resolve(spdx, data_dir).path == spec_cache_path(data_dir, spdx),
        spec_resolve(spdx, data_dir).short == spdx,
{
}

/// Every identifier other than "MIT" and "Apache-2.0" resolves to the
/// defaults: the identifier itself as display name and the templated URL.
pub proof fn lemma_resolve_unknown_defaults(spdx: Seq<char>, data_dir: Seq<char>)
    requires
        spdx != "MIT"@,
        spdx != "Apache-2.0"@,
    ensures
        spec_resolve(spdx, data_dir).long == spdx,
        spec_resolve(spdx, data_dir).url == spec_template_url(spdx),
{
}

/// Compares two string slices character by character.
pub fn str_eq(a: &str, b: &str) -> (r: bool)
    ensures
        r == (a@ == b@),
{
    let a_len = a.unicode_len();
    let b_len = b.unicode_len();
    if a_len != b_len {
        return false;
    }
    let mut i: usize = 0;
    while i < a_len
        invariant
            i <= a_len,
            a_len == a@.len(),
            a_len == b@.len(),
            forall|j: int| 0 <= j < i ==> a@[j] == b@[j],
        decreases a_len - i,
    {
        if a.get_char(i) != b.get_char(i) {
            assert(a@ != b@);
            return false;
        }
        i += 1;
    }
    assert(a@ =~= b@);
    true
}


} // verus!
