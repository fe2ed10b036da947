//! Directory listings and what an installation reads from them: the stale
//! artifacts to remove, the shipped example configuration to put in place,
//! and the executable that was installed.

use crate::names::{
    is_executable_lowered, is_executable_name, is_managed, is_managed_file, Platform,
};
use crate::text::{chars_of, equals, lowercase, lowered_chars};
use vstd::prelude::*;

verus! {

/// One entry of a directory listing.
#[derive(Clone, Debug, PartialEq, Eq)]
pub struct DirEntry {
    /// The directory that holds the entry, as path text.
    pub dir: String,
    /// The entry's file name.
    pub name: String,
    /// The entry's full path, as path text.
    pub path: String,
    /// Whether the entry is a regular file.
    pub is_file: bool,
    /// Whether the entry is a directory.
    pub is_dir: bool,
    /// How many directories lie between the listed directory and the entry:
    /// 0 for an entry directly in it.
    pub depth: usize,
    /// Whether the file system has something under the name `config.yaml`
    /// in the directory that holds the entry, as it answers for that name:
    /// on a file system that ignores case, a `Config.yaml` counts.
    pub config_beside: bool,
}

/// Whether `picked` holds positions in ascending order, each once.
pub open spec fn is_ascending(picked: Seq<usize>) -> bool {
    forall|a: int, b: int| 0 <= a < b < picked.len() ==> picked[a] < picked[b]
}

/// Whether an entry is a stale artifact: a file that an installation
/// replaces.
pub open spec fn is_stale(entry: DirEntry) -> bool {
    entry.is_file && is_managed(entry.name@)
}

/// Whether an entry is a shipped example configuration.
pub open spec fn is_example(entry: DirEntry) -> bool {
    entry.is_file && lowercase(entry.name@) == "config.example.yaml"@
}

/// Whether the listing shows an active configuration in the directory.
pub open spec fn has_active_config(tree: Seq<DirEntry>, dir: Seq<char>) -> bool {
    exists|k: int|
        0 <= k < tree.len() && (#[trigger] tree[k]).dir@ == dir && tree[k].name@
            == "config.yaml"@
}

/// Whether an earlier entry of the listing is an example configuration in
/// the same directory as the entry at `i`.
pub open spec fn has_earlier_example(tree: Seq<DirEntry>, i: int) -> bool {
    exists|j: int| 0 <= j < i && is_example(#[trigger] tree[j]) && tree[j].dir@ == tree[i].dir@
}

/// Whether the entry at `i` is renamed to the active configuration: it is
/// the first example configuration of a directory that has no active one,
/// neither by what the file system answered nor by what the listing shows.
pub open spec fn becomes_config(tree: Seq<DirEntry>, i: int) -> bool {
    &&& is_example(tree[i])
    &&& !tree[i].config_beside
    &&& !has_active_config(tree, tree[i].dir@)
    &&& !has_earlier_example(tree, i)
}

/// Whether an entry is an installed executable on the platform.
pub open spec fn is_executable_entry(entry: DirEntry, platform: Platform) -> bool {
    entry.is_file && is_executable_name(lowercase(entry.name@), platform)
}

/// Whether the entry at `i` comes before the entry at `j` in a search that
/// takes the entries nearest to the listed directory first, and among those
/// equally near the one listed first.
pub open spec fn comes_before(tree: Seq<DirEntry>, i: int, j: int) -> bool {
    tree[i].depth < tree[j].depth || (tree[i].depth == tree[j].depth && i <= j)
}

/// Whether the entry at `i` is the executable that the search finds: no
/// other executable comes before it.
pub open spec fn is_found_executable(tree: Seq<DirEntry>, platform: Platform, i: int) -> bool {
    &&& 0 <= i < tree.len()
    &&& is_executable_entry(tree[i], platform)
    &&& forall|j: int|
        0 <= j < tree.len() && is_executable_entry(#[trigger] tree[j], platform) ==> comes_before(
            tree,
            i,
            j,
        )
}

/// Whether `picked` lists, in ascending order, exactly the positions below
/// `upto` of the listing's stale artifacts.
pub open spec fn lists_stale(listing: Seq<DirEntry>, upto: int, picked: Seq<usize>) -> bool {
    &&& is_ascending(picked)
    &&& forall|a: int|
        0 <= a < picked.len() ==> (#[trigger] picked[a]) < upto && is_stale(
            listing[picked[a] as int],
        )
    &&& forall|i: int|
        0 <= i < upto && is_stale(#[trigger] listing[i]) ==> picked.contains(i as usize)
}

/// Whether `picked` lists, in ascending order, exactly the positions below
/// `upto` of the entries that are renamed to the active configuration.
pub open spec fn lists_renames(tree: Seq<DirEntry>, upto: int, picked: Seq<usize>) -> bool {
    &&& is_ascending(picked)
    &&& forall|a: int|
        0 <= a < picked.len() ==> (#[trigger] picked[a]) < upto && becomes_config(
            tree,
            picked[a] as int,
        )
    &&& forall|i: int|
        0 <= i < upto && is_example(#[trigger] tree[i]) && becomes_config(tree, i)
            ==> picked.contains(i as usize)
}

/// The stale artifacts of a listing: the positions of the files that an
/// installation removes before it unpacks. No protected file is among them,
/// and nothing else is removed: the directory is never emptied as a whole,
/// whether it was asked for by name or is the default one.
pub fn stale_artifacts(listing: &Vec<DirEntry>) -> (stale: Vec<usize>)
    ensures
        lists_stale(listing@, listing@.len() as int, stale@),
{
    let mut stale: Vec<usize> = Vec::new();
    let mut i: usize = 0;
    while i < listing.len()
        invariant
            i <= listing.len(),
            lists_stale(listing@, i as int, stale@),
        decreases listing.len() - i,
    {
        let ghost before = stale@;
        if listing[i].is_file && is_managed_file(listing[i].name.as_str()) {
            stale.push(i);
            proof {
                assert forall|k: int| 0 <= k < i + 1 && is_stale(#[trigger] listing@[k]) implies stale@.contains(
                    k as usize,
                ) by {
                    if k < i {
                        let at = choose|at: int| 0 <= at < before.len() && before[at] == k as usize;
                        assert(stale@[at] == k as usize);
                    } else {
                        assert(stale@[before.len() as int] == k as usize);
                    }
                }
            }
        }
        i += 1;
    }
    stale
}

/// Whether the listing shows an active configuration in the directory.
fn active_config_in(tree: &Vec<DirEntry>, dir: &String) -> (found: bool)
    ensures
        found == has_active_config(tree@, dir@),
{
    let mut k: usize = 0;
    while k < tree.len()
        invariant
            k <= tree.len(),
            forall|n: int|
                0 <= n < k ==> !((#[trigger] tree@[n]).dir@ == dir@ && tree@[n].name@
                    == "config.yaml"@),
        decreases tree.len() - k,
    {
        if tree[k].dir == *dir {
            let name = chars_of(tree[k].name.as_str());
            if equals(&name, "config.yaml") {
                return true;
            }
        }
        k += 1;
    }
    false
}

/// Whether the entry is a shipped example configuration.
fn example_entry(entry: &DirEntry) -> (example: bool)
    ensures
        example == is_example(*entry),
{
    if !entry.is_file {
        return false;
    }
    let lower = lowered_chars(entry.name.as_str());
    equals(&lower, "config.example.yaml")
}

/// Whether an earlier entry is an example configuration in the directory of
/// the entry at `i`.
fn earlier_example(tree: &Vec<DirEntry>, i: usize) -> (found: bool)
    requires
        i < tree.len(),
    ensures
        found == has_earlier_example(tree@, i as int),
{
    let mut j: usize = 0;
    while j < i
        invariant
            j <= i,
            i < tree.len(),
            forall|n: int|
                0 <= n < j ==> !(is_example(#[trigger] tree@[n]) && tree@[n].dir@ == tree@[i as int].dir@),
        decreases i - j,
    {
        if tree[j].dir == tree[i].dir && example_entry(&tree[j]) {
            return true;
        }
        j += 1;
    }
    false
}

/// The example configurations to rename to `config.yaml`, each in its own
/// directory: the positions of the first example of every directory that
/// shows no active configuration. Where a directory has an active
/// configuration its example stays, and nothing is overwritten.
pub fn config_renames(tree: &Vec<DirEntry>) -> (renames: Vec<usize>)
    ensures
        lists_renames(tree@, tree@.len() as int, renames@),
{
    let mut renames: Vec<usize> = Vec::new();
    let mut i: usize = 0;
    while i < tree.len()
        invariant
            i <= tree.len(),
            lists_renames(tree@, i as int, renames@),
        decreases tree.len() - i,
    {
        let ghost before = renames@;
        if example_entry(&tree[i]) && !tree[i].config_beside && !active_config_in(
            tree,
            &tree[i].dir,
        ) && !earlier_example(tree, i) {
            renames.push(i);
            proof {
                assert forall|k: int|
                    0 <= k < i + 1 && is_example(#[trigger] tree@[k]) && becomes_config(
                        tree@,
                        k,
                    ) implies renames@.contains(k as usize) by {
                    if k < i {
                        let at = choose|at: int| 0 <= at < before.len() && before[at] == k as usize;
                        assert(renames@[at] == k as usize);
                    } else {
                        assert(renames@[before.len() as int] == k as usize);
                    }
                }
            }
        }
        i += 1;
    }
    renames
}

/// Searches the listing for the installed executable: entries directly in
/// the listed directory first, then those one directory down, and so on;
/// among entries equally deep the one listed first. Returns its position,
/// or `None` where the listing holds no executable.
pub fn locate_executable(tree: &Vec<DirEntry>, platform: Platform) -> (found: Option<usize>)
    ensures
        match found {
            Some(i) => is_found_executable(tree@, platform, i as int),
            None => forall|j: int|
                0 <= j < tree@.len() ==> !is_executable_entry(#[trigger] tree@[j], platform),
        },
{
    let mut best: Option<usize> = None;
    let mut i: usize = 0;
    while i < tree.len()
        invariant
            i <= tree.len(),
            match best {
                Some(b) => {
                    &&& b < i
                    &&& is_executable_entry(tree@[b as int], platform)
                    &&& forall|j: int|
                        0 <= j < i && is_executable_entry(#[trigger] tree@[j], platform)
                            ==> comes_before(tree@, b as int, j)
                },
                None => forall|j: int|
                    0 <= j < i ==> !is_executable_entry(#[trigger] tree@[j], platform),
            },
        decreases tree.len() - i,
    {
        let entry = &tree[i];
        if entry.is_file {
            let lower = lowered_chars(entry.name.as_str());
            if is_executable_lowered(&lower, platform) {
                match best {
                    Some(b) => {
                        if entry.depth < tree[b].depth {
                            best = Some(i);
                        }
                    },
                    None => {
                        best = Some(i);
                    },
                }
            }
        }
        i += 1;
    }
    best
}

/// Two ascending lists that hold the same positions are the same list.
pub proof fn lemma_ascending_lists_agree(first: Seq<usize>, second: Seq<usize>)
    requires
        is_ascending(first),
        is_ascending(second),
        forall|x: usize| first.contains(x) <==> second.contains(x),
    ensures
        first == second,
    decreases first.len(),
{
    if first.len() == 0 {
        if second.len() > 0 {
            assert(second.contains(second[0]));
            assert(first.contains(second[0]));
        }
        assert(first =~= second);
    } else {
        let top = first.last();
        assert(first.contains(top));
        assert(second.contains(top));
        let at = choose|at: int| 0 <= at < second.len() && second[at] == top;
        if at < second.len() - 1 {
            let above = second.last();
            assert(second.contains(above));
            assert(first.contains(above));
            let k = choose|k: int| 0 <= k < first.len() && first[k] == above;
            assert(first[k] <= top) by {
                if k < first.len() - 1 {
                    assert(first[k] < first[first.len() - 1]);
                }
            }
            assert(second[at] < second[second.len() - 1]);
        }
        let front = first.drop_last();
        let back = second.drop_last();
        assert forall|x: usize| front.contains(x) <==> back.contains(x) by {
            if front.contains(x) {
                let k = choose|k: int| 0 <= k < front.len() && front[k] == x;
                assert(first[k] == x);
                assert(first[k] < first[first.len() - 1]);
                assert(first.contains(x));
                let n = choose|n: int| 0 <= n < second.len() && second[n] == x;
                assert(n < second.len() - 1);
                assert(back[n] == x);
            }
            if back.contains(x) {
                let n = choose|n: int| 0 <= n < back.len() && back[n] == x;
                assert(second[n] == x);
                assert(second[n] < second[second.len() - 1]);
                assert(second.contains(x));
                let k = choose|k: int| 0 <= k < first.len() && first[k] == x;
                assert(k < first.len() - 1);
                assert(front[k] == x);
            }
        }
        lemma_ascending_lists_agree(front, back);
        assert(first =~= front.push(top));
        assert(second =~= back.push(top));
    }
}

/// A listing has one list of stale artifacts, and one list of renames: the
/// contracts of `stale_artifacts` and `config_renames` each leave room for a
/// single answer.
pub proof fn lemma_lists_are_unique(
    tree: Seq<DirEntry>,
    first: Seq<usize>,
    second: Seq<usize>,
)
    requires
        tree.len() <= usize::MAX,
    ensures
        lists_stale(tree, tree.len() as int, first) && lists_stale(
            tree,
            tree.len() as int,
            second,
        ) ==> first == second,
        lists_renames(tree, tree.len() as int, first) && lists_renames(
            tree,
            tree.len() as int,
            second,
        ) ==> first == second,
{
    if lists_stale(tree, tree.len() as int, first) && lists_stale(
        tree,
        tree.len() as int,
        second,
    ) {
        assert forall|x: usize| first.contains(x) <==> second.contains(x) by {
            if first.contains(x) {
                let k = choose|k: int| 0 <= k < first.len() && first[k] == x;
                assert(first[k] < tree.len() && is_stale(tree[first[k] as int]));
                assert(is_stale(tree[x as int]));
            }
            if second.contains(x) {
                let k = choose|k: int| 0 <= k < second.len() && second[k] == x;
                assert(second[k] < tree.len() && is_stale(tree[second[k] as int]));
                assert(is_stale(tree[x as int]));
            }
        }
        lemma_ascending_lists_agree(first, second);
    }
    if lists_renames(tree, tree.len() as int, first) && lists_renames(
        tree,
        tree.len() as int,
        second,
    ) {
        assert forall|x: usize| first.contains(x) <==> second.contains(x) by {
            if first.contains(x) {
                let k = choose|k: int| 0 <= k < first.len() && first[k] == x;
                assert(first[k] < tree.len() && becomes_config(tree, first[k] as int));
                assert(is_example(tree[x as int]));
            }
            if second.contains(x) {
                let k = choose|k: int| 0 <= k < second.len() && second[k] == x;
                assert(second[k] < tree.len() && becomes_config(tree, second[k] as int));
                assert(is_example(tree[x as int]));
            }
        }
        lemma_ascending_lists_agree(first, second);
    }
}

/// The search finds one executable at most: two entries that both are the
/// executable that the search finds are the same entry.
pub proof fn lemma_found_executable_is_unique(
    tree: Seq<DirEntry>,
    platform: Platform,
    i: int,
    j: int,
)
    requires
        is_found_executable(tree, platform, i),
        is_found_executable(tree, platform, j),
    ensures
        i == j,
{
    assert(comes_before(tree, i, j));
    assert(comes_before(tree, j, i));
}

/// Removing stale artifacts spares every protected file.
pub proof fn lemma_stale_is_not_protected(entry: DirEntry)
    requires
        is_stale(entry),
    ensures
        !crate::names::is_protected(entry.name@),
{
}

/// A rename never lands on a configuration that the listing shows.
pub proof fn lemma_rename_overwrites_nothing(tree: Seq<DirEntry>, i: int, k: int)
    requires
        0 <= i < tree.len(),
        0 <= k < tree.len(),
        becomes_config(tree, i),
        tree[k].dir@ == tree[i].dir@,
    ensures
        tree[k].name@ != "config.yaml"@,
{
}

/// The files of a tree after the first `upto` of the renames were carried
/// out: each file's content by its directory and its name. A rename moves
/// the content of the entry it names to `config.yaml` in the same directory;
/// it does nothing where the entry is no longer there.
pub open spec fn renamed(
    files: Map<(Seq<char>, Seq<char>), Seq<u8>>,
    tree: Seq<DirEntry>,
    renames: Seq<usize>,
    upto: int,
) -> Map<(Seq<char>, Seq<char>), Seq<u8>>
    decreases upto,
{
    if upto <= 0 {
        files
    } else {
        let before = renamed(files, tree, renames, upto - 1);
        let entry = tree[renames[upto - 1] as int];
        let from = (entry.dir@, entry.name@);
        if before.contains_key(from) {
            before.remove(from).insert((entry.dir@, "config.yaml"@), before[from])
        } else {
            before
        }
    }
}

/// Whether a listing names no file twice.
pub open spec fn names_each_once(tree: Seq<DirEntry>) -> bool {
    forall|a: int, b: int|
        0 <= a < b < tree.len() ==> !((#[trigger] tree[a]).dir@ == (#[trigger] tree[b]).dir@
            && tree[a].name@ == tree[b].name@)
}

/// Where the example of `i` stands after the first `upto` renames: under its
/// own name until its rename is carried out, under `config.yaml` from then
/// on, with the content it had.
proof fn lemma_example_moves(
    files: Map<(Seq<char>, Seq<char>), Seq<u8>>,
    tree: Seq<DirEntry>,
    renames: Seq<usize>,
    i: int,
    at: int,
    upto: int,
)
    requires
        lists_renames(tree, tree.len() as int, renames),
        names_each_once(tree),
        0 <= i < tree.len(),
        becomes_config(tree, i),
        0 <= at < renames.len(),
        renames[at] == i,
        0 <= upto <= renames.len(),
        files.contains_key((tree[i].dir@, tree[i].name@)),
    ensures
        ({
            let after = renamed(files, tree, renames, upto);
            let own = (tree[i].dir@, tree[i].name@);
            let active = (tree[i].dir@, "config.yaml"@);
            if upto <= at {
                after.contains_key(own) && after[own] == files[own]
            } else {
                after.contains_key(active) && after[active] == files[own] && !after.contains_key(
                    own,
                )
            }
        }),
    decreases upto,
{
    if upto > 0 {
        lemma_example_moves(files, tree, renames, i, at, upto - 1);
        let j = renames[upto - 1] as int;
        assert(becomes_config(tree, j));
        assert(tree[i].name@ != "config.yaml"@) by {
            if tree[i].name@ == "config.yaml"@ {
                assert(has_active_config(tree, tree[i].dir@));
            }
        }
        if upto - 1 != at {
            assert(j != i);
            assert(!(tree[j].dir@ == tree[i].dir@ && tree[j].name@ == tree[i].name@)) by {
                if j < i {
                    assert(tree[j].dir@ == tree[j].dir@ && tree[i].dir@ == tree[i].dir@);
                } else {
                    assert(tree[i].dir@ == tree[i].dir@ && tree[j].dir@ == tree[j].dir@);
                }
            }
            assert(tree[j].dir@ != tree[i].dir@) by {
                if tree[j].dir@ == tree[i].dir@ {
                    if j < i {
                        assert(is_example(tree[j]));
                        assert(has_earlier_example(tree, i));
                    } else {
                        assert(is_example(tree[i]));
                        assert(has_earlier_example(tree, j));
                    }
                }
            }
        }
    }
}

/// The first time, the shipped example becomes the configuration. Where a
/// directory shows an example configuration and no active one, carrying out
/// the renames leaves the example's content under the name `config.yaml` in
/// that directory, and nothing under the example's own name.
pub proof fn lemma_example_becomes_config(
    files: Map<(Seq<char>, Seq<char>), Seq<u8>>,
    tree: Seq<DirEntry>,
    renames: Seq<usize>,
    i: int,
)
    requires
        tree.len() <= usize::MAX,
        lists_renames(tree, tree.len() as int, renames),
        names_each_once(tree),
        0 <= i < tree.len(),
        becomes_config(tree, i),
        files.contains_key((tree[i].dir@, tree[i].name@)),
    ensures
        ({
            let after = renamed(files, tree, renames, renames.len() as int);
            let own = (tree[i].dir@, tree[i].name@);
            let active = (tree[i].dir@, "config.yaml"@);
            &&& after.contains_key(active)
            &&& after[active] == files[own]
            &&& !after.contains_key(own)
        }),
{
    assert(is_example(tree[i]));
    assert(renames.contains(i as usize));
    let at = choose|at: int| 0 <= at < renames.len() && renames[at] == i as usize;
    lemma_example_moves(files, tree, renames, i, at, renames.len() as int);
}

} // verus!
