//! Binary locator: given a summary of the staged artifact's directory
//! layout, pick the candidate binary — a root-level file named after the
//! binary wins over one a single level down, and among subdirectories the
//! first in directory-listing order wins.

use vstd::prelude::*;
use vstd::string::*;
use crate::text::{contains_str, has_substr};

verus! {

/// What the driver observed about one immediate child of the staging root.
#[derive(Clone, Copy, PartialEq, Eq, Structural, Debug)]
pub struct SubdirEntry {
    /// The child is itself a directory.
    pub is_dir: bool,
    /// A file with the expected binary name exists directly inside it.
    pub has_file: bool,
}

/// What the driver observed about the staging root, in directory-listing
/// order.
#[derive(Debug)]
pub struct StagingView {
    /// A file with the expected binary name exists directly at the root.
    pub root_has_file: bool,
    /// The immediate children of the root, in listing order.
    pub subdirs: Vec<SubdirEntry>,
}

/// Where the candidate binary was found.
#[derive(Clone, Copy, PartialEq, Eq, Structural, Debug)]
pub enum BinLocation {
    /// Directly at the staging root.
    AtRoot,
    /// Inside the subdirectory at this index of the root listing.
    InSubdir(usize),
}

/// The first directory entry, at or after `i`, that is a directory holding
/// the expected file.
pub open spec fn first_subdir_hit(entries: Seq<SubdirEntry>, i: int) -> Option<int>
    decreases entries.len() - i,
{
    if i < 0 || i >= entries.len() {
        None
    } else if entries[i].is_dir && entries[i].has_file {
        Some(i)
    } else {
        first_subdir_hit(entries, i + 1)
    }
}

/// Where the locator finds the candidate: the root-level file if present,
/// otherwise the first subdirectory in listing order that holds the file.
pub open spec fn locate_spec(root_has_file: bool, entries: Seq<SubdirEntry>) -> Option<
    BinLocation,
> {
    if root_has_file {
        Some(BinLocation::AtRoot)
    } else {
        match first_subdir_hit(entries, 0) {
            Some(i) => Some(BinLocation::InSubdir(i as usize)),
            None => None,
        }
    }
}

/// Finds the candidate binary in a staged artifact: the root-level file
/// wins; otherwise the first subdirectory in listing order that holds the
/// file; `None` means this target yielded no candidate and the next target
/// should be tried.
pub fn locate_candidate(sv: &StagingView) -> (r: Option<BinLocation>)
    ensures
        r == locate_spec(sv.root_has_file, sv.subdirs@),
{
    if sv.root_has_file {
        return Some(BinLocation::AtRoot);
    }
    let n = sv.subdirs.len();
    let mut i: usize = 0;
    loop
        invariant
            !sv.root_has_file,
            i <= n,
            n == sv.subdirs@.len(),
            first_subdir_hit(sv.subdirs@, 0) == first_subdir_hit(sv.subdirs@, i as int),
        ensures
            locate_spec(sv.root_has_file, sv.subdirs@) == if i < n {
                Some(BinLocation::InSubdir(i))
            } else {
                None::<BinLocation>
            },
        decreases n - i,
    {
        if i < n {
            let e = sv.subdirs[i];
            if e.is_dir && e.has_file {
                proof {
                    assert(first_subdir_hit(sv.subdirs@, i as int) == Some(i as int));
                }
                break ;
            }
            i = i + 1;
        } else {
            proof {
                assert(first_subdir_hit(sv.subdirs@, i as int) is None);
            }
            break ;
        }
    }
    if i < n {
        Some(BinLocation::InSubdir(i))
    } else {
        None
    }
}

/// The file name the locator searches for: the binary name, with `.exe`
/// appended when the target identifier names a Windows-like platform.
pub open spec fn expected_name_spec(bin: Seq<char>, target: Seq<char>) -> Seq<char> {
    if has_substr(target, "windows"@) {
        bin + ".exe"@
    } else {
        bin
    }
}

/// Builds the file name to search for: `bin_name`, with `.exe` appended when
/// the target identifier contains `windows`.
pub fn expected_bin_name(bin: &String, target: &str) -> (r: String)
    ensures
        r@ == expected_name_spec(bin@, target@),
{
    if contains_str(target, "windows") {
        bin.clone().concat(".exe")
    } else {
        bin.clone()
    }
}

} // verus!
