//! Which repositories of the organisation are taken as contests.
use vstd::prelude::*;
use crate::text::{contains_part, has_part, texts_of};

verus! {

/// The marker that a contest repository's name carries.
pub const CONTEST_YEAR: &'static str = "2023";

/// A repository is looked at only when its name mentions the contest year.
pub open spec fn is_contest_repo_name(name: Seq<char>) -> bool {
    has_part(name, CONTEST_YEAR@)
}

/// The names among `names` that are looked at as contests, in order.
pub open spec fn contest_names_of(names: Seq<Seq<char>>) -> Seq<Seq<char>>
    decreases names.len(),
{
    if names.len() == 0 {
        Seq::empty()
    } else {
        let before = contest_names_of(names.drop_last());
        if is_contest_repo_name(names.last()) {
            before.push(names.last())
        } else {
            before
        }
    }
}

/// Whether a repository is looked at as a contest.
pub fn is_contest_repo(name: &str) -> (r: bool)
    ensures
        r == is_contest_repo_name(name@),
{
    contains_part(name, CONTEST_YEAR)
}

/// The repositories looked at as contests, in the given order.
pub fn contest_repos(names: &Vec<String>) -> (r: Vec<String>)
    ensures
        texts_of(r@) == contest_names_of(texts_of(names@)),
{
    let mut out: Vec<String> = Vec::new();
    let mut i: usize = 0;
    while i < names.len()
        invariant
            i <= names@.len(),
            texts_of(out@) == contest_names_of(texts_of(names@).subrange(0, i as int)),
        decreases names@.len() - i,
    {
        let ghost all = texts_of(names@);
        assert(all.subrange(0, i + 1).drop_last() =~= all.subrange(0, i as int));
        assert(all.subrange(0, i + 1).last() == names@[i as int]@);
        if is_contest_repo(names[i].as_str()) {
            out.push(names[i].clone());
        }
        assert(texts_of(out@) =~= contest_names_of(all.subrange(0, i + 1)));
        i += 1;
    }
    assert(texts_of(names@).subrange(0, names@.len() as int) =~= texts_of(names@));
    out
}

} // verus!
