//! Relative paths inside an archive, taken apart into components and
//! resolved so that they cannot leave the directory they are joined to.

use crate::names::Platform;
use crate::text::{chars_of, equals, string_of};
use vstd::prelude::*;

verus! {

/// The views of a vector of strings.
pub open spec fn texts(strings: Seq<String>) -> Seq<Seq<char>> {
    strings.map_values(|s: String| s@)
}

/// Whether a character separates the components of a path on the platform.
pub open spec fn is_separator(c: char, platform: Platform) -> bool {
    c == '/' || (platform == Platform::Windows && c == '\\')
}

/// The pieces of `text` between separators, empty pieces included; there is
/// always at least one.
pub open spec fn pieces(text: Seq<char>, platform: Platform) -> Seq<Seq<char>>
    decreases text.len(),
{
    if text.len() == 0 {
        seq![Seq::<char>::empty()]
    } else {
        let before = pieces(text.drop_last(), platform);
        if is_separator(text.last(), platform) {
            before.push(Seq::<char>::empty())
        } else {
            before.drop_last().push(before.last().push(text.last()))
        }
    }
}

/// Whether a character cannot stand in a component of a path on the
/// platform: a separator, and on Windows the colon, which marks a drive.
pub open spec fn is_reserved(c: char, platform: Platform) -> bool {
    is_separator(c, platform) || (platform == Platform::Windows && c == ':')
}

/// Whether a text is a plain component: not empty, neither `.` nor `..`, and
/// free of reserved characters.
pub open spec fn is_plain(part: Seq<char>, platform: Platform) -> bool {
    &&& part.len() > 0
    &&& part != "."@
    &&& part != ".."@
    &&& forall|k: int| 0 <= k < part.len() ==> !is_reserved(#[trigger] part[k], platform)
}

/// Whether every component is plain.
pub open spec fn are_plain(parts: Seq<Seq<char>>, platform: Platform) -> bool {
    forall|n: int| 0 <= n < parts.len() ==> is_plain(#[trigger] parts[n], platform)
}

/// One piece added to the components resolved so far: an empty piece and
/// `.` change nothing, `..` removes the last component and fails where there
/// is none, a plain piece is a further component, and any other piece
/// fails.
pub open spec fn settle_piece(
    so_far: Option<Seq<Seq<char>>>,
    piece: Seq<char>,
    platform: Platform,
) -> Option<Seq<Seq<char>>> {
    match so_far {
        None => None,
        Some(parts) => if piece.len() == 0 || piece == "."@ {
            Some(parts)
        } else if piece == ".."@ {
            if parts.len() == 0 {
                None
            } else {
                Some(parts.drop_last())
            }
        } else if is_plain(piece, platform) {
            Some(parts.push(piece))
        } else {
            None
        },
    }
}

/// The components that a list of pieces resolves to, or `None` where a `..`
/// would climb above the starting directory or a piece is not plain.
pub open spec fn settle(list: Seq<Seq<char>>, platform: Platform) -> Option<Seq<Seq<char>>>
    decreases list.len(),
{
    if list.len() == 0 {
        Some(Seq::<Seq<char>>::empty())
    } else {
        settle_piece(settle(list.drop_last(), platform), list.last(), platform)
    }
}

/// The components of a relative path after resolution, or `None` where the
/// path would leave the directory it is joined to.
pub open spec fn resolve(text: Seq<char>, platform: Platform) -> Option<Seq<Seq<char>>> {
    settle(pieces(text, platform), platform)
}

/// Whether `shorter` is an initial part of `longer`, component by component.
pub open spec fn is_leading_part(shorter: Seq<Seq<char>>, longer: Seq<Seq<char>>) -> bool {
    shorter.is_prefix_of(longer)
}

/// The file name of a resolved path: its last component, or the empty text
/// where it has none.
pub open spec fn file_name_of(parts: Seq<Seq<char>>) -> Seq<char> {
    if parts.len() == 0 {
        Seq::<char>::empty()
    } else {
        parts.last()
    }
}

/// Resolution keeps only plain components.
pub proof fn lemma_settle_keeps_plain(list: Seq<Seq<char>>, platform: Platform)
    ensures
        settle(list, platform) matches Some(parts) ==> are_plain(parts, platform),
    decreases list.len(),
{
    if list.len() > 0 {
        lemma_settle_keeps_plain(list.drop_last(), platform);
    }
}

/// A resolved path stays inside the directory it is joined to: each of its
/// components is plain.
pub proof fn lemma_resolved_is_confined(text: Seq<char>, platform: Platform)
    ensures
        resolve(text, platform) matches Some(parts) ==> are_plain(parts, platform),
{
    lemma_settle_keeps_plain(pieces(text, platform), platform);
}

/// The parent of a path as the platform's path rules give it: the path
/// without its final component, or `None` where it has none to remove.
pub uninterp spec fn parent_text(path: Seq<char>) -> Option<Seq<char>>;

/// The final component of a path as the platform's path rules give it, or
/// `None` where the path ends in `..` or has no component.
pub uninterp spec fn final_component(path: Seq<char>) -> Option<Seq<char>>;

/// `std::path::Path::parent` on the path that the text denotes. The result
/// depends on the text alone; it is known here only by name.
#[verifier::external_body]
pub(crate) fn parent_of(path: &str) -> (parent: Option<String>)
    ensures
        match parent {
            Some(dir) => parent_text(path@) == Some(dir@),
            None => parent_text(path@) is None,
        },
{
    std::path::Path::new(path).parent().map(|dir| dir.to_string_lossy().into_owned())
}

/// `std::path::Path::file_name` on the path that the text denotes. The
/// result depends on the text alone; it is known here only by name.
#[verifier::external_body]
pub(crate) fn file_name_in(path: &str) -> (name: Option<String>)
    ensures
        match name {
            Some(last) => final_component(path@) == Some(last@),
            None => final_component(path@) is None,
        },
{
    std::path::Path::new(path).file_name().map(|last| last.to_string_lossy().into_owned())
}

/// Whether two texts denote the same path by the platform's path rules:
/// they have the same components, however the separators are written.
pub uninterp spec fn same_path(first: Seq<char>, second: Seq<char>) -> bool;

/// `==` on `std::path::Path` for the paths that the texts denote, which
/// compares them component by component. The result depends on the texts
/// alone; it is known here only by name.
#[verifier::external_body]
pub(crate) fn paths_agree(first: &str, second: &str) -> (same: bool)
    ensures
        same == same_path(first@, second@),
{
    std::path::Path::new(first) == std::path::Path::new(second)
}

/// Whether the characters make a plain component on the platform.
fn plain_chars(part: &Vec<char>, platform: Platform) -> (plain: bool)
    ensures
        plain == is_plain(part@, platform),
{
    if part.len() == 0 || equals(part, ".") || equals(part, "..") {
        return false;
    }
    let mut k: usize = 0;
    while k < part.len()
        invariant
            k <= part.len(),
            forall|j: int| 0 <= j < k ==> !is_reserved(#[trigger] part@[j], platform),
        decreases part.len() - k,
    {
        let c = part[k];
        if c == '/' || (matches!(platform, Platform::Windows) && (c == '\\' || c == ':')) {
            return false;
        }
        k += 1;
    }
    true
}

/// Whether the text is a plain component on the platform.
pub fn is_plain_part(part: &str, platform: Platform) -> (plain: bool)
    ensures
        plain == is_plain(part@, platform),
{
    let chars = chars_of(part);
    plain_chars(&chars, platform)
}

/// Whether every component is plain on the platform.
pub fn all_plain(parts: &Vec<String>, platform: Platform) -> (plain: bool)
    ensures
        plain == are_plain(texts(parts@), platform),
{
    let mut n: usize = 0;
    while n < parts.len()
        invariant
            n <= parts.len(),
            forall|j: int| 0 <= j < n ==> is_plain(#[trigger] texts(parts@)[j], platform),
        decreases parts.len() - n,
    {
        if !is_plain_part(parts[n].as_str(), platform) {
            proof {
                assert(texts(parts@)[n as int] == parts@[n as int]@);
            }
            return false;
        }
        proof {
            assert(texts(parts@)[n as int] == parts@[n as int]@);
        }
        n += 1;
    }
    true
}

/// Adds one piece to the components resolved so far. Returns whether the
/// path is still inside its directory.
fn absorb(parts: &mut Vec<String>, piece: &Vec<char>, platform: Platform) -> (inside: bool)
    ensures
        match settle_piece(Some(texts(old(parts)@)), piece@, platform) {
            Some(next) => inside && texts(final(parts)@) == next,
            None => !inside,
        },
{
    if piece.len() == 0 || equals(piece, ".") {
        true
    } else if equals(piece, "..") {
        if parts.len() == 0 {
            false
        } else {
            let ghost before = parts@;
            parts.pop();
            proof {
                assert(texts(parts@) =~= texts(before).drop_last());
            }
            true
        }
    } else if plain_chars(piece, platform) {
        let ghost before = parts@;
        parts.push(string_of(piece));
        proof {
            assert(texts(parts@) =~= texts(before).push(piece@));
        }
        true
    } else {
        false
    }
}

/// Resolves a relative path into its components, or returns `None` where it
/// would leave the directory it is joined to or holds a component that is
/// not plain on the platform, such as a drive on Windows.
pub fn resolve_path(path: &str, platform: Platform) -> (resolved: Option<Vec<String>>)
    ensures
        match resolved {
            Some(parts) => resolve(path@, platform) == Some(texts(parts@)),
            None => resolve(path@, platform) is None,
        },
{
    let chars = chars_of(path);
    let mut parts: Vec<String> = Vec::new();
    let mut current: Vec<char> = Vec::new();
    let mut inside = true;
    let mut i: usize = 0;
    proof {
        assert(chars@.take(0) =~= Seq::<char>::empty());
        assert(pieces(chars@.take(0), platform).drop_last() =~= Seq::<Seq<char>>::empty());
        assert(texts(parts@) =~= Seq::<Seq<char>>::empty());
    }
    while i < chars.len()
        invariant
            i <= chars.len(),
            pieces(chars@.take(i as int), platform).len() >= 1,
            current@ == pieces(chars@.take(i as int), platform).last(),
            inside ==> settle(pieces(chars@.take(i as int), platform).drop_last(), platform)
                == Some(texts(parts@)),
            !inside ==> settle(pieces(chars@.take(i as int), platform).drop_last(), platform)
                is None,
        decreases chars.len() - i,
    {
        let c = chars[i];
        let ghost before = pieces(chars@.take(i as int), platform);
        proof {
            assert(chars@.take(i + 1).drop_last() =~= chars@.take(i as int));
            assert(chars@.take(i + 1).last() == c);
            assert(before =~= before.drop_last().push(before.last()));
        }
        if c == '/' || (c == '\\' && matches!(platform, Platform::Windows)) {
            proof {
                assert(before.push(Seq::<char>::empty()).drop_last() =~= before);
            }
            if inside {
                inside = absorb(&mut parts, &current, platform);
            }
            current = Vec::new();
        } else {
            current.push(c);
            proof {
                let after = before.drop_last().push(before.last().push(c));
                assert(after.drop_last() =~= before.drop_last());
            }
        }
        i += 1;
    }
    proof {
        assert(chars@.take(chars@.len() as int) =~= chars@);
        let all = pieces(chars@, platform);
        assert(all =~= all.drop_last().push(all.last()));
    }
    if inside {
        inside = absorb(&mut parts, &current, platform);
    }
    if inside {
        Some(parts)
    } else {
        None
    }
}

/// Whether `shorter` is an initial part of `longer`.
pub fn leads(shorter: &Vec<String>, longer: &Vec<String>) -> (leading: bool)
    ensures
        leading == is_leading_part(texts(shorter@), texts(longer@)),
{
    if shorter.len() > longer.len() {
        return false;
    }
    let mut k: usize = 0;
    while k < shorter.len()
        invariant
            k <= shorter.len(),
            shorter.len() <= longer.len(),
            forall|j: int| 0 <= j < k ==> shorter@[j]@ == longer@[j]@,
        decreases shorter.len() - k,
    {
        if shorter[k] != longer[k] {
            proof {
                let head = texts(longer@).subrange(0, shorter@.len() as int);
                assert(head[k as int] == longer@[k as int]@);
                assert(texts(shorter@)[k as int] == shorter@[k as int]@);
            }
            return false;
        }
        k += 1;
    }
    proof {
        assert(texts(shorter@) =~= texts(longer@).subrange(0, shorter@.len() as int));
    }
    true
}

} // verus!
