//! Deriving the stage order of one pipeline from its job list.
//!
//! The stage order is inferred empirically: stages appear in the order of
//! their first occurrence in the job list, each stage once.  No declared
//! pipeline definition is consulted.

use crate::model::{names_contain, text_eq, Job, JobView};
use vstd::prelude::*;

verus! {

/// The stage names of a job list, in job order.
pub open spec fn stage_names(jobs: Seq<JobView>) -> Seq<Seq<char>> {
    jobs.map_values(|j: JobView| j.stage)
}

/// First-occurrence deduplication: keeps each name at the position of its
/// first appearance and drops every later repetition.
pub open spec fn dedup_first(names: Seq<Seq<char>>) -> Seq<Seq<char>>
    decreases names.len(),
{
    if names.len() == 0 {
        Seq::empty()
    } else {
        let rest = dedup_first(names.drop_last());
        if rest.contains(names.last()) {
            rest
        } else {
            rest.push(names.last())
        }
    }
}

/// The position of the first element equal to `target`, if any.
pub open spec fn find_first(names: Seq<Seq<char>>, target: Seq<char>) -> Option<int>
    decreases names.len(),
{
    if names.len() == 0 {
        None
    } else if names[0] == target {
        Some(0)
    } else {
        match find_first(names.drop_first(), target) {
            Some(i) => Some(i + 1),
            None => None,
        }
    }
}

/// `find_first` returns exactly the least matching position: a `Some(i)` is a
/// match with no earlier match, a `None` means no match at all.
pub proof fn lemma_find_first_characterizes(names: Seq<Seq<char>>, target: Seq<char>)
    ensures
        match find_first(names, target) {
            Some(i) => 0 <= i < names.len() && names[i] == target && (forall|k: int|
                0 <= k < i ==> names[k] != target),
            None => forall|k: int| 0 <= k < names.len() ==> names[k] != target,
        },
    decreases names.len(),
{
    if names.len() == 0 {
    } else if names[0] == target {
    } else {
        lemma_find_first_characterizes(names.drop_first(), target);
        let rest = find_first(names.drop_first(), target);
        if rest is Some {
            let i = rest->0;
            assert(names.drop_first()[i] == names[i + 1]);
            assert forall|k: int| 0 <= k < i + 1 implies names[k] != target by {
                if k > 0 {
                    assert(names.drop_first()[k - 1] == names[k]);
                }
            }
        } else {
            assert forall|k: int| 0 <= k < names.len() implies names[k] != target by {
                if k > 0 {
                    assert(names.drop_first()[k - 1] == names[k]);
                }
            }
        }
    }
}

/// Appending an element does not move the first occurrence of a name that is
/// already present.
proof fn lemma_find_first_extend(names: Seq<Seq<char>>, extra: Seq<char>, target: Seq<char>)
    requires
        names.contains(target),
    ensures
        find_first(names.push(extra), target) == find_first(names, target),
    decreases names.len(),
{
    if names.len() == 0 {
    } else if names[0] == target {
        assert(names.push(extra)[0] == target);
    } else {
        let i = choose|i: int| 0 <= i < names.len() && names[i] == target;
        assert(names.drop_first()[i - 1] == target);
        lemma_find_first_extend(names.drop_first(), extra, target);
        assert(names.push(extra).drop_first() =~= names.drop_first().push(extra));
    }
}

/// A name that was absent first occurs at the position where it is appended.
proof fn lemma_find_first_push_new(names: Seq<Seq<char>>, extra: Seq<char>)
    requires
        !names.contains(extra),
    ensures
        find_first(names.push(extra), extra) == Some(names.len() as int),
    decreases names.len(),
{
    if names.len() == 0 {
        assert(names.push(extra)[0] == extra);
    } else {
        assert(names[0] != extra);
        assert(!names.drop_first().contains(extra)) by {
            if names.drop_first().contains(extra) {
                let i = choose|i: int|
                    0 <= i < names.drop_first().len() && names.drop_first()[i] == extra;
                assert(names[i + 1] == extra);
            }
        }
        lemma_find_first_push_new(names.drop_first(), extra);
        assert(names.push(extra).drop_first() =~= names.drop_first().push(extra));
        assert(names.push(extra)[0] == names[0]);
    }
}

/// First-occurrence deduplication keeps exactly the names of its input, and
/// never grows it.
pub proof fn lemma_dedup_first_membership(names: Seq<Seq<char>>)
    ensures
        forall|x: Seq<char>| #[trigger] dedup_first(names).contains(x) <==> names.contains(x),
        dedup_first(names).len() <= names.len(),
    decreases names.len(),
{
    if names.len() == 0 {
    } else {
        let prefix = names.drop_last();
        lemma_dedup_first_membership(prefix);
        let rest = dedup_first(prefix);
        assert(forall|x: Seq<char>| #[trigger] prefix.contains(x) ==> names.contains(x)) by {
            assert forall|x: Seq<char>| #[trigger] prefix.contains(x) implies names.contains(x) by {
                let i = choose|i: int| 0 <= i < prefix.len() && prefix[i] == x;
                assert(names[i] == x);
            }
        }
        assert forall|x: Seq<char>| #[trigger] names.contains(x) implies dedup_first(
            names,
        ).contains(x) by {
            let i = choose|i: int| 0 <= i < names.len() && names[i] == x;
            if i < prefix.len() {
                assert(prefix[i] == x);
                assert(rest.contains(x));
                if !rest.contains(names.last()) {
                    let j = choose|j: int| 0 <= j < rest.len() && rest[j] == x;
                    assert(rest.push(names.last())[j] == x);
                }
            } else {
                assert(x == names.last());
                if rest.contains(x) {
                    if !rest.contains(names.last()) {
                    }
                } else {
                    assert(rest.push(names.last()).last() == x);
                }
            }
        }
        assert forall|x: Seq<char>| #[trigger] dedup_first(names).contains(x) implies names.contains(
            x,
        ) by {
            let d = dedup_first(names);
            let j = choose|j: int| 0 <= j < d.len() && d[j] == x;
            if rest.contains(names.last()) {
                assert(rest[j] == x);
                assert(prefix.contains(x));
            } else {
                if j < rest.len() {
                    assert(rest[j] == x);
                    assert(rest.contains(x));
                    assert(prefix.contains(x));
                } else {
                    assert(x == names.last());
                    assert(names[names.len() - 1] == x);
                }
            }
        }
    }
}

/// The deduplicated sequence holds no name twice.
pub proof fn lemma_dedup_first_distinct(names: Seq<Seq<char>>)
    ensures
        forall|i: int, j: int|
            0 <= i < j < dedup_first(names).len() ==> #[trigger] dedup_first(names)[i]
                != #[trigger] dedup_first(names)[j],
    decreases names.len(),
{
    if names.len() == 0 {
    } else {
        let prefix = names.drop_last();
        lemma_dedup_first_distinct(prefix);
        let rest = dedup_first(prefix);
        let d = dedup_first(names);
        if rest.contains(names.last()) {
        } else {
            assert forall|i: int, j: int| 0 <= i < j < d.len() implies d[i] != d[j] by {
                if j < rest.len() {
                    assert(d[i] == rest[i] && d[j] == rest[j]);
                } else {
                    assert(j == rest.len());
                    assert(d[j] == names.last());
                    assert(d[i] == rest[i]);
                    if d[i] == d[j] {
                        assert(rest.contains(names.last()));
                    }
                }
            }
        }
    }
}

/// Deduplication preserves first-occurrence order: of two names in the
/// output, the one whose first occurrence in the input comes earlier stands
/// earlier in the output.
pub proof fn lemma_dedup_first_order(names: Seq<Seq<char>>)
    ensures
        forall|i: int, j: int|
            0 <= i < j < dedup_first(names).len() ==> {
                let fi = find_first(names, #[trigger] dedup_first(names)[i]);
                let fj = find_first(names, #[trigger] dedup_first(names)[j]);
                fi is Some && fj is Some && fi->0 < fj->0
            },
    decreases names.len(),
{
    if names.len() == 0 {
    } else {
        let prefix = names.drop_last();
        lemma_dedup_first_order(prefix);
        lemma_dedup_first_membership(prefix);
        lemma_dedup_first_distinct(prefix);
        let rest = dedup_first(prefix);
        let d = dedup_first(names);
        assert(names =~= prefix.push(names.last()));
        assert forall|i: int, j: int| #![trigger d[i], d[j]] 0 <= i < j < d.len() implies {
            let fi = find_first(names, d[i]);
            let fj = find_first(names, d[j]);
            fi is Some && fj is Some && fi->0 < fj->0
        } by {
            if rest.contains(names.last()) || j < rest.len() {
                assert(d[i] == rest[i] && d[j] == rest[j]);
                assert(rest.contains(rest[i]) && rest.contains(rest[j]));
                assert(prefix.contains(rest[i]) && prefix.contains(rest[j]));
                lemma_find_first_extend(prefix, names.last(), rest[i]);
                lemma_find_first_extend(prefix, names.last(), rest[j]);
            } else {
                assert(j == rest.len());
                assert(d[j] == names.last());
                assert(d[i] == rest[i]);
                assert(rest.contains(rest[i]));
                assert(prefix.contains(rest[i]));
                lemma_find_first_extend(prefix, names.last(), rest[i]);
                lemma_find_first_characterizes(prefix, rest[i]);
                lemma_find_first_push_new(prefix, names.last());
            }
        }
    }
}

/// A stage order is never longer than the job list it was derived from.
pub proof fn lemma_stage_order_bounded(jobs: Seq<JobView>)
    ensures
        dedup_first(stage_names(jobs)).len() <= jobs.len(),
{
    lemma_dedup_first_membership(stage_names(jobs));
}

/// Empty input yields an empty stage order.
pub proof fn lemma_dedup_first_empty(names: Seq<Seq<char>>)
    requires
        names.len() == 0,
    ensures
        dedup_first(names).len() == 0,
{
}

/// Derives the stage order of a job list: every stage name in first-occurrence
/// order, deduplicated.
pub fn derive_stage_order(jobs: &Vec<Job>) -> (stages: Vec<String>)
    ensures
        stages.deep_view() == dedup_first(stage_names(jobs.deep_view())),
{
    let ghost all = stage_names(jobs.deep_view());
    let mut stages: Vec<String> = Vec::new();
    let mut i: usize = 0;
    while i < jobs.len()
        invariant
            i <= jobs.len(),
            stages.deep_view() == dedup_first(stage_names(jobs.deep_view().take(i as int))),
        decreases jobs.len() - i,
    {
        let ghost prefix = stage_names(jobs.deep_view().take(i as int));
        let ghost next = stage_names(jobs.deep_view().take(i as int + 1));
        proof {
            assert(next =~= prefix.push(jobs.deep_view()[i as int].stage));
            assert(next.drop_last() =~= prefix);
        }
        if !names_contain(&stages, &jobs[i].stage) {
            let ghost old_stages = stages.deep_view();
            stages.push(jobs[i].stage.clone());
            proof {
                assert(stages.deep_view() =~= old_stages.push(
                    jobs.deep_view()[i as int].stage,
                ));
            }
        }
        i += 1;
    }
    proof {
        assert(jobs.deep_view().take(i as int) =~= jobs.deep_view());
    }
    stages
}

/// Finds the position of `target` in a stage order: the least index holding
/// it, or nothing when it is absent.
pub fn find_stage_index(stages: &Vec<String>, target: &String) -> (r: Option<usize>)
    ensures
        match find_first(stages.deep_view(), target@) {
            Some(i) => r is Some && r->0 as int == i,
            None => r is None,
        },
{
    proof {
        lemma_find_first_characterizes(stages.deep_view(), target@);
    }
    let mut i: usize = 0;
    while i < stages.len()
        invariant
            i <= stages.len(),
            forall|k: int| 0 <= k < i ==> stages.deep_view()[k] != target@,
        decreases stages.len() - i,
    {
        if text_eq(&stages[i], target.as_str()) {
            proof {
                assert(stages.deep_view()[i as int] == target@);
                lemma_find_first_characterizes(stages.deep_view(), target@);
            }
            return Some(i);
        }
        i += 1;
    }
    None
}

} // verus!
