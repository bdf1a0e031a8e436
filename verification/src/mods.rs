//! Decisions about the mods directory: whether the resolved release is
//! already installed, and which files a fresh install moves aside.

use vstd::prelude::*;
use crate::text::str_eq;

verus! {

/// Name of the companion plugin file that an install step leaves in place.
pub open spec fn companion_file_name() -> Seq<char> {
    "OptiFine_1.19.4_HD_U_I4.jar"@
}

/// Returns the companion plugin's file name.
pub fn companion_file() -> (r: String)
    ensures
        r@ == companion_file_name(),
{
    "OptiFine_1.19.4_HD_U_I4.jar".to_owned()
}

/// True when some file in the listing has the name `name`.
pub open spec fn contains_name(files: Seq<Seq<char>>, name: Seq<char>) -> bool {
    exists|i: int| 0 <= i < files.len() && files[i] == name
}

/// Decides whether a file named `target` stands in the directory listing
/// `files`: the "already installed" check.
#[verifier::loop_isolation(false)]
pub fn is_installed(files: &Vec<String>, target: &str) -> (r: bool)
    ensures
        r == contains_name(files.deep_view(), target@),
{
    let mut i: usize = 0;
    while i < files.len()
        invariant
            i <= files.len(),
            forall|j: int| 0 <= j < i ==> files.deep_view()[j] != target@,
        decreases files.len() - i,
    {
        if str_eq(files[i].as_str(), target) {
            assert(files.deep_view()[i as int] == target@);
            return true;
        }
        i = i + 1;
    }
    false
}

/// Keeps every file name but the companion plugin's.
pub open spec fn keep_pred() -> spec_fn(Seq<char>) -> bool {
    |n: Seq<char>| n != companion_file_name()
}

/// The relocation plan for an install step: every file of the listing except
/// the fixed companion plugin file, in the order given.
pub open spec fn relocation_plan(files: Seq<Seq<char>>) -> Seq<Seq<char>> {
    files.filter(keep_pred())
}

/// Lists the files that an install step moves aside into the unused-mods
/// directory.
#[verifier::loop_isolation(false)]
pub fn files_to_relocate(files: &Vec<String>) -> (moved: Vec<String>)
    ensures
        moved.deep_view() == relocation_plan(files.deep_view()),
{
    let mut moved: Vec<String> = Vec::new();
    proof {
        assert(moved.deep_view() =~= files.deep_view().subrange(0, 0).filter(keep_pred()));
    }
    let mut i: usize = 0;
    while i < files.len()
        invariant
            i <= files.len(),
            moved.deep_view() == files.deep_view().subrange(0, i as int).filter(keep_pred()),
        decreases files.len() - i,
    {
        let ghost pre = moved.deep_view();
        let ghost seen = files.deep_view().subrange(0, i as int);
        let ghost elem = files.deep_view()[i as int];
        if !str_eq(files[i].as_str(), "OptiFine_1.19.4_HD_U_I4.jar") {
            moved.push(files[i].clone());
            proof {
                assert(moved.deep_view() =~= pre.push(elem));
            }
        }
        proof {
            seen.lemma_filter_push(elem, keep_pred());
            assert(files.deep_view().subrange(0, i + 1) =~= seen.push(elem));
        }
        i = i + 1;
    }
    proof {
        assert(files.deep_view().subrange(0, files.len() as int) =~= files.deep_view());
    }
    moved
}

/// After the move-aside step nothing but the companion plugin file can stay
/// behind: the plan never names the companion file, and every other file of
/// the listing is in the plan.
pub proof fn lemma_relocation_plan_complete(files: Seq<Seq<char>>)
    ensures
        forall|i: int|
            0 <= i < relocation_plan(files).len() ==> #[trigger] relocation_plan(
                files,
            )[i] != companion_file_name(),
        forall|i: int|
            0 <= i < files.len() ==> files[i] == companion_file_name() || relocation_plan(
                files,
            ).contains(#[trigger] files[i]),
{
    assert forall|i: int| 0 <= i < relocation_plan(files).len() implies #[trigger] relocation_plan(
        files,
    )[i] != companion_file_name() by {
        files.lemma_filter_pred(keep_pred(), i);
    }
    assert forall|i: int|
        0 <= i < files.len() && files[i] != companion_file_name() implies relocation_plan(
        files,
    ).contains(#[trigger] files[i]) by {
        files.lemma_filter_contains(keep_pred(), i);
    }
}

} // verus!
