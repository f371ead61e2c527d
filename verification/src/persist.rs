//! A model of the atomic write-then-rename persistence sequence. The
//! caller performs the three filesystem steps in order — write the
//! temporary file, remove any pre-existing target, rename the temporary
//! file onto the target — and these laws say what any interruption of
//! that sequence can leave behind.

use vstd::prelude::*;

use crate::jsondoc::{lemma_config_round_trip, parse_config_spec, render_config_spec};

verus! {

/// The visible files after the first `k` steps of the save sequence
/// have run against a directory modeled as a map from path to contents:
/// one step writes the temporary file, the next removes the target, the
/// last renames the temporary file onto the target.
pub open spec fn fs_after_steps(
    fs: Map<Seq<char>, Seq<char>>,
    tmp: Seq<char>,
    target: Seq<char>,
    contents: Seq<char>,
    k: int,
) -> Map<Seq<char>, Seq<char>> {
    if k <= 0 {
        fs
    } else if k == 1 {
        fs.insert(tmp, contents)
    } else if k == 2 {
        fs.insert(tmp, contents).remove(target)
    } else {
        fs.insert(tmp, contents).remove(target).remove(tmp).insert(target, contents)
    }
}

/// Interruption law: stopping the save sequence anywhere before the
/// rename leaves the target holding exactly its previous contents — or
/// nothing, once the removal step has run — and never a partially or
/// freshly written document. Before the removal step, and always when
/// no target existed, the target is exactly unchanged. (The one
/// exception to "unchanged": an interruption between removal and
/// rename of a pre-existing target leaves it absent.)
pub proof fn lemma_interrupted_save(
    fs: Map<Seq<char>, Seq<char>>,
    tmp: Seq<char>,
    target: Seq<char>,
    contents: Seq<char>,
    k: int,
)
    requires
        tmp != target,
        0 <= k < 3,
    ensures
        k < 2 ==> fs_after_steps(fs, tmp, target, contents, k).contains_key(target)
            == fs.contains_key(target),
        !fs.contains_key(target) ==> !fs_after_steps(fs, tmp, target, contents, k).contains_key(
            target,
        ),
        fs_after_steps(fs, tmp, target, contents, k).contains_key(target) ==> (fs.contains_key(
            target,
        ) && fs_after_steps(fs, tmp, target, contents, k)[target] == fs[target]),
{
}

/// Completion law: once the rename has run, the target holds exactly
/// the new document and the temporary file is gone.
pub proof fn lemma_completed_save(
    fs: Map<Seq<char>, Seq<char>>,
    tmp: Seq<char>,
    target: Seq<char>,
    contents: Seq<char>,
)
    requires
        tmp != target,
    ensures
        fs_after_steps(fs, tmp, target, contents, 3).contains_key(target),
        fs_after_steps(fs, tmp, target, contents, 3)[target] == contents,
        !fs_after_steps(fs, tmp, target, contents, 3).contains_key(tmp),
{
}

/// Save-then-load law: after the completed save of the document
/// rendered for a value, the target file parses back to exactly that
/// value.
pub proof fn lemma_save_then_load(
    fs: Map<Seq<char>, Seq<char>>,
    tmp: Seq<char>,
    target: Seq<char>,
    u: Seq<char>,
)
    requires
        tmp != target,
    ensures
        fs_after_steps(fs, tmp, target, render_config_spec(u), 3).contains_key(target),
        parse_config_spec(fs_after_steps(fs, tmp, target, render_config_spec(u), 3)[target])
            == Some(u),
{
    lemma_completed_save(fs, tmp, target, render_config_spec(u));
    lemma_config_round_trip(u);
}

} // verus!
