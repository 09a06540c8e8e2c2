//! Flagging files whose byte length was seen before.
//!
//! The fingerprint of a file is its length alone, not a digest of its content:
//! two unrelated files of equal length are taken for duplicates of each other.

use vstd::prelude::*;
use std::collections::HashSet;
use crate::filter::Criterion;
use crate::model::{candidate_views, string_views, Candidate, CandidateView, RootListing};
use crate::scan::{collect_candidates, picked_from_roots};

verus! {

broadcast use vstd::std_specs::hash::group_hash_axioms;

/// An earlier candidate has the byte length of the one at place `i`.
pub open spec fn size_seen_before(c: Seq<CandidateView>, i: int) -> bool {
    exists|j: int| 0 <= j < i && (#[trigger] c[j]).size == c[i].size
}

/// The byte lengths that occur among `c`.
pub open spec fn sizes_of(c: Seq<CandidateView>) -> Set<u64> {
    Set::new(|s: u64| exists|j: int| 0 <= j < c.len() && (#[trigger] c[j]).size == s)
}

/// The places of `c` whose byte length occurred at an earlier place, ascending.
pub open spec fn flagged_places(c: Seq<CandidateView>) -> Seq<int>
    decreases c.len(),
{
    if c.len() == 0 {
        Seq::empty()
    } else {
        let rest = flagged_places(c.drop_last());
        if size_seen_before(c, c.len() - 1) {
            rest.push(c.len() - 1)
        } else {
            rest
        }
    }
}

/// The candidates of `c` whose byte length occurred earlier in `c`, in order.
pub open spec fn duplicates_in(c: Seq<CandidateView>) -> Seq<CandidateView>
    decreases c.len(),
{
    if c.len() == 0 {
        Seq::empty()
    } else {
        let rest = duplicates_in(c.drop_last());
        if size_seen_before(c, c.len() - 1) {
            rest.push(c.last())
        } else {
            rest
        }
    }
}

proof fn lemma_seen_before_in_prefix(c: Seq<CandidateView>, n: int, i: int)
    requires
        0 <= i < n <= c.len(),
    ensures
        size_seen_before(c.take(n), i) == size_seen_before(c, i),
{
    if size_seen_before(c, i) {
        let j = choose|j: int| 0 <= j < i && (#[trigger] c[j]).size == c[i].size;
        assert(c.take(n)[j].size == c.take(n)[i].size);
    }
    if size_seen_before(c.take(n), i) {
        let j = choose|j: int| 0 <= j < i && (#[trigger] c.take(n)[j]).size == c.take(n)[i].size;
        assert(c[j].size == c[i].size);
    }
}

/// In one forward pass, keeps every candidate whose byte length an earlier one had.
pub fn flag_duplicates(candidates: &Vec<Candidate>) -> (flagged: Vec<Candidate>)
    ensures
        candidate_views(flagged@) == duplicates_in(candidate_views(candidates@)),
{
    let ghost all = candidate_views(candidates@);
    let mut flagged: Vec<Candidate> = Vec::new();
    let mut seen: HashSet<u64> = HashSet::new();
    let mut i: usize = 0;
    assert(all.take(0) =~= Seq::<CandidateView>::empty());
    assert(candidate_views(flagged@) =~= Seq::<CandidateView>::empty());
    assert(seen@ =~= sizes_of(all.take(0)));
    while i < candidates.len()
        invariant
            i <= candidates.len(),
            all == candidate_views(candidates@),
            seen@ == sizes_of(all.take(i as int)),
            candidate_views(flagged@) == duplicates_in(all.take(i as int)),
        decreases candidates.len() - i,
    {
        let c = &candidates[i];
        let ghost prefix = all.take(i as int);
        let ghost next = all.take(i + 1);
        assert(next.drop_last() =~= prefix);
        assert(next.last() == c@);
        proof {
            if size_seen_before(next, i as int) {
                let j = choose|j: int| 0 <= j < i && (#[trigger] next[j]).size == next[i as int].size;
                assert(prefix[j].size == c.size);
            }
            if sizes_of(prefix).contains(c.size) {
                let j = choose|j: int| 0 <= j < prefix.len() && (#[trigger] prefix[j]).size == c.size;
                assert(next[j].size == next[i as int].size);
            }
        }
        if seen.contains(&c.size) {
            let ghost old_flagged = flagged@;
            let copy = Candidate { path: c.path.clone(), size: c.size, modified: c.modified };
            flagged.push(copy);
            assert(candidate_views(flagged@) =~= candidate_views(old_flagged).push(c@));
            assert(seen@ =~= sizes_of(next)) by {
                assert forall|s: u64| sizes_of(next).contains(s) implies sizes_of(prefix).contains(s) by {
                    let j = choose|j: int| 0 <= j < next.len() && (#[trigger] next[j]).size == s;
                    if j < i {
                        assert(prefix[j].size == s);
                    }
                }
                assert forall|s: u64| sizes_of(prefix).contains(s) implies sizes_of(next).contains(s) by {
                    let j = choose|j: int| 0 <= j < prefix.len() && (#[trigger] prefix[j]).size == s;
                    assert(next[j].size == s);
                }
            }
        } else {
            seen.insert(c.size);
            assert(seen@ =~= sizes_of(next)) by {
                assert forall|s: u64| sizes_of(next).contains(s) implies sizes_of(prefix).insert(
                    c.size,
                ).contains(s) by {
                    let j = choose|j: int| 0 <= j < next.len() && (#[trigger] next[j]).size == s;
                    if j < i {
                        assert(prefix[j].size == s);
                    }
                }
                assert forall|s: u64| sizes_of(prefix).insert(c.size).contains(s) implies sizes_of(
                    next,
                ).contains(s) by {
                    if s == c.size {
                        assert(next[i as int].size == s);
                    } else {
                        let j = choose|j: int| 0 <= j < prefix.len() && (#[trigger] prefix[j]).size == s;
                        assert(next[j].size == s);
                    }
                }
            }
        }
        i = i + 1;
    }
    assert(all.take(candidates.len() as int) =~= all);
    flagged
}

/// The files of every readable, not excluded root whose extension is not
/// excluded and whose byte length an earlier such file had, in walk order.
pub fn find_duplicate_files(
    dirs_to_scan: &Vec<RootListing>,
    exclude_dirs: &Vec<String>,
    exclude_types: &Vec<String>,
) -> (files_to_clean: Vec<Candidate>)
    ensures
        candidate_views(files_to_clean@) == duplicates_in(
            picked_from_roots(
                dirs_to_scan@,
                Criterion::AnyFile,
                string_views(exclude_dirs@),
                string_views(exclude_types@),
            ),
        ),
{
    let eligible = collect_candidates(dirs_to_scan, Criterion::AnyFile, exclude_dirs, exclude_types);
    flag_duplicates(&eligible)
}

/// The flagged candidates are those at the flagged places, which ascend and
/// are exactly the places whose byte length occurred earlier.
pub proof fn lemma_duplicates_are_at_flagged_places(c: Seq<CandidateView>)
    ensures
        duplicates_in(c).len() == flagged_places(c).len(),
        forall|k: int|
            0 <= k < flagged_places(c).len() ==> 0 <= #[trigger] flagged_places(c)[k] < c.len()
                && duplicates_in(c)[k] == c[flagged_places(c)[k]],
        forall|k: int, l: int|
            0 <= k < l < flagged_places(c).len() ==> flagged_places(c)[k] < flagged_places(c)[l],
        forall|i: int|
            flagged_places(c).contains(i) <==> 0 <= i < c.len() && size_seen_before(c, i),
    decreases c.len(),
{
    let places = flagged_places(c);
    if c.len() > 0 {
        let shorter = c.drop_last();
        let rest = flagged_places(shorter);
        let last = c.len() - 1;
        lemma_duplicates_are_at_flagged_places(shorter);
        assert(shorter =~= c.take(last));
        assert forall|i: int| 0 <= i < last implies size_seen_before(shorter, i) == size_seen_before(
            c,
            i,
        ) by {
            lemma_seen_before_in_prefix(c, last, i);
        }
        assert forall|k: int| 0 <= k < places.len() implies 0 <= #[trigger] places[k] < c.len()
            && duplicates_in(c)[k] == c[places[k]] by {
            if k < rest.len() {
                assert(places[k] == rest[k]);
                assert(shorter[rest[k]] == c[rest[k]]);
            }
        }
        assert forall|k: int, l: int| 0 <= k < l < places.len() implies places[k] < places[l] by {
            assert(places[k] == rest[k]);
            if l < rest.len() {
                assert(places[l] == rest[l]);
            }
        }
        assert forall|i: int| places.contains(i) <==> 0 <= i < c.len() && size_seen_before(c, i) by {
            if places.contains(i) {
                let k = choose|k: int| 0 <= k < places.len() && places[k] == i;
                if k < rest.len() {
                    assert(rest[k] == i);
                    assert(rest.contains(i));
                }
            }
            if 0 <= i < c.len() && size_seen_before(c, i) {
                if i < last {
                    assert(rest.contains(i));
                    let k = choose|k: int| 0 <= k < rest.len() && rest[k] == i;
                    assert(places[k] == i);
                } else {
                    assert(places[places.len() - 1] == i);
                }
            }
        }
    }
}

/// Where `first` is the earliest place of its byte length, it is not flagged,
/// and every later place of that byte length is.
pub proof fn lemma_flags_all_but_first(c: Seq<CandidateView>, first: int, later: int)
    requires
        0 <= first < later < c.len(),
        c[first].size == c[later].size,
        forall|j: int| 0 <= j < first ==> (#[trigger] c[j]).size != c[first].size,
    ensures
        !flagged_places(c).contains(first),
        flagged_places(c).contains(later),
{
    lemma_duplicates_are_at_flagged_places(c);
    assert(size_seen_before(c, later)) by {
        assert(c[first].size == c[later].size);
    }
    assert(!size_seen_before(c, first));
}

/// A candidate whose byte length no other candidate shares is never flagged.
pub proof fn lemma_unique_size_is_not_flagged(c: Seq<CandidateView>, i: int)
    requires
        0 <= i < c.len(),
        forall|j: int| 0 <= j < c.len() && j != i ==> (#[trigger] c[j]).size != c[i].size,
    ensures
        !flagged_places(c).contains(i),
{
    lemma_duplicates_are_at_flagged_places(c);
    assert(!size_seen_before(c, i));
}

} // verus!
