//! The search for another build of the proxy beside the one in use.

use crate::error::CommandError;
use crate::listing::DirEntry;
use crate::names::{
    has_plus_marker, is_plus_lowered, is_sibling_lowered, is_sibling_name, Platform,
};
use crate::paths::{parent_of, parent_text, paths_agree, same_path};
use crate::text::{chars_of, equals, lowercase, lowered_chars};
use vstd::prelude::*;

verus! {

/// Whether a variant tag asks for the plus build.
pub open spec fn wants_plus(target_version: Seq<char>) -> bool {
    target_version == "plus"@
}

/// Whether an entry is another build of the wanted variant: a file named
/// like the proxy's binary, at another path than the current executable,
/// that carries the plus marker exactly when the plus build is wanted.
pub open spec fn is_alternate(
    entry: DirEntry,
    current_exe_path: Seq<char>,
    target_version: Seq<char>,
    platform: Platform,
) -> bool {
    &&& entry.is_file
    &&& is_sibling_name(lowercase(entry.name@), platform)
    &&& !same_path(entry.path@, current_exe_path)
    &&& has_plus_marker(lowercase(entry.name@)) == wants_plus(target_version)
}

/// Whether the entry at `i` is the first of the listing that is another
/// build of the wanted variant.
pub open spec fn is_first_alternate(
    entries: Seq<DirEntry>,
    i: int,
    current_exe_path: Seq<char>,
    target_version: Seq<char>,
    platform: Platform,
) -> bool {
    &&& 0 <= i < entries.len()
    &&& is_alternate(entries[i], current_exe_path, target_version, platform)
    &&& forall|j: int|
        0 <= j < i ==> !is_alternate(
            #[trigger] entries[j],
            current_exe_path,
            target_version,
            platform,
        )
}

/// The directory to search for another build: the parent of the current
/// executable's path. A path without a parent is refused as `InvalidPath`.
pub fn alternate_search_dir(current_exe_path: &str) -> (dir: Result<String, CommandError>)
    ensures
        match parent_text(current_exe_path@) {
            Some(parent) => dir matches Ok(found) && found@ == parent,
            None => dir matches Err(CommandError::InvalidPath),
        },
{
    match parent_of(current_exe_path) {
        Some(parent) => Ok(parent),
        None => Err(CommandError::InvalidPath),
    }
}

/// Looks among the files beside the current executable for another build of
/// the wanted variant and returns the path of the first one listed, or
/// `None` where there is none. `siblings` is the listing of the executable's
/// directory, subdirectories not entered; `None` says that the directory
/// could not be read, which is refused as `InvalidPath`, as is a path
/// without a parent.
pub fn find_alternate_proxy_exe(
    current_exe_path: &str,
    target_version: &str,
    siblings: Option<&Vec<DirEntry>>,
    platform: Platform,
) -> (found: Result<Option<String>, CommandError>)
    ensures
        parent_text(current_exe_path@) is None || siblings is None ==> found matches Err(
            CommandError::InvalidPath,
        ),
        parent_text(current_exe_path@) is Some && siblings is Some ==> match found {
            Ok(Some(path)) => exists|i: int|
                #[trigger] is_first_alternate(
                    siblings->0@,
                    i,
                    current_exe_path@,
                    target_version@,
                    platform,
                ) && path@ == siblings->0@[i].path@,
            Ok(None) => forall|j: int|
                0 <= j < siblings->0@.len() ==> !is_alternate(
                    #[trigger] siblings->0@[j],
                    current_exe_path@,
                    target_version@,
                    platform,
                ),
            Err(_) => false,
        },
{
    if parent_of(current_exe_path).is_none() {
        return Err(CommandError::InvalidPath);
    }
    let entries = match siblings {
        Some(entries) => entries,
        None => {
            return Err(CommandError::InvalidPath);
        },
    };
    let target = chars_of(target_version);
    let plus_wanted = equals(&target, "plus");
    let mut i: usize = 0;
    while i < entries.len()
        invariant
            i <= entries.len(),
            parent_text(current_exe_path@) is Some,
            siblings == Some(entries),
            plus_wanted == wants_plus(target_version@),
            forall|j: int|
                0 <= j < i ==> !is_alternate(
                    #[trigger] entries@[j],
                    current_exe_path@,
                    target_version@,
                    platform,
                ),
        decreases entries.len() - i,
    {
        let entry = &entries[i];
        if entry.is_file {
            let lower = lowered_chars(entry.name.as_str());
            if is_sibling_lowered(&lower, platform) && !paths_agree(
                entry.path.as_str(),
                current_exe_path,
            ) && is_plus_lowered(&lower) == plus_wanted {
                let path = entry.path.clone();
                proof {
                    assert(is_first_alternate(
                        entries@,
                        i as int,
                        current_exe_path@,
                        target_version@,
                        platform,
                    ));
                    assert(path@ == entries@[i as int].path@);
                    assert(siblings->0@ == entries@);
                }
                return Ok(Some(path));
            }
        }
        i += 1;
    }
    Ok(None)
}

} // verus!
