//! Picking candidates out of directory listings.

use vstd::prelude::*;
use crate::filter::{
    entry_qualifies, is_permission_denied, is_reported, qualifies, root_is_walked, should_walk_root, Criterion,
};
use crate::model::{
    candidate_views, string_views, Candidate, CandidateView, IoErrorKind, RootListing, Timestamp, WalkItem,
};

verus! {

/// The candidates among `items`, in walk order.
pub open spec fn picked_from_items(
    items: Seq<WalkItem>,
    criterion: Criterion,
    excluded_types: Seq<Seq<char>>,
) -> Seq<CandidateView>
    decreases items.len(),
{
    if items.len() == 0 {
        Seq::empty()
    } else {
        let rest = picked_from_items(items.drop_last(), criterion, excluded_types);
        match items.last() {
            WalkItem::Entry(e) => if qualifies(e, criterion, excluded_types) {
                rest.push(e.candidate())
            } else {
                rest
            },
            WalkItem::Failed(_) => rest,
        }
    }
}

/// The candidates among the items of the walked roots, root by root.
pub open spec fn picked_from_roots(
    roots: Seq<RootListing>,
    criterion: Criterion,
    excluded_dirs: Seq<Seq<char>>,
    excluded_types: Seq<Seq<char>>,
) -> Seq<CandidateView>
    decreases roots.len(),
{
    if roots.len() == 0 {
        Seq::empty()
    } else {
        let rest = picked_from_roots(roots.drop_last(), criterion, excluded_dirs, excluded_types);
        let root = roots.last();
        if root_is_walked(root.path@, root.readable, criterion, excluded_dirs) {
            rest + picked_from_items(root.items@, criterion, excluded_types)
        } else {
            rest
        }
    }
}

/// Walks the listings and collects what qualifies, in order.
pub fn collect_candidates(
    roots: &Vec<RootListing>,
    criterion: Criterion,
    excluded_dirs: &Vec<String>,
    excluded_types: &Vec<String>,
) -> (found: Vec<Candidate>)
    ensures
        candidate_views(found@) == picked_from_roots(
            roots@,
            criterion,
            string_views(excluded_dirs@),
            string_views(excluded_types@),
        ),
{
    let ghost dirs = string_views(excluded_dirs@);
    let ghost types = string_views(excluded_types@);
    let mut found: Vec<Candidate> = Vec::new();
    let mut r: usize = 0;
    assert(roots@.take(0) =~= Seq::<RootListing>::empty());
    assert(candidate_views(found@) =~= Seq::<CandidateView>::empty());
    while r < roots.len()
        invariant
            r <= roots.len(),
            dirs == string_views(excluded_dirs@),
            types == string_views(excluded_types@),
            candidate_views(found@) == picked_from_roots(roots@.take(r as int), criterion, dirs, types),
        decreases roots.len() - r,
    {
        let root = &roots[r];
        let ghost before = candidate_views(found@);
        assert(roots@.take(r + 1).drop_last() =~= roots@.take(r as int));
        assert(roots@.take(r + 1).last() == roots@[r as int]);
        if should_walk_root(root, criterion, excluded_dirs) {
            let mut i: usize = 0;
            assert(root.items@.take(0) =~= Seq::<WalkItem>::empty());
            assert(before + Seq::<CandidateView>::empty() =~= before);
            while i < root.items.len()
                invariant
                    i <= root.items.len(),
                    types == string_views(excluded_types@),
                    candidate_views(found@) == before + picked_from_items(
                        root.items@.take(i as int),
                        criterion,
                        types,
                    ),
                decreases root.items.len() - i,
            {
                let ghost so_far = picked_from_items(root.items@.take(i as int), criterion, types);
                assert(root.items@.take(i + 1).drop_last() =~= root.items@.take(i as int));
                assert(root.items@.take(i + 1).last() == root.items@[i as int]);
                match &root.items[i] {
                    WalkItem::Entry(e) => {
                        if entry_qualifies(e, criterion, excluded_types) {
                            let c = e.to_candidate();
                            let ghost old_found = found@;
                            found.push(c);
                            assert(candidate_views(found@) =~= candidate_views(old_found).push(c@));
                            assert((before + so_far).push(c@) =~= before + so_far.push(c@));
                        }
                    },
                    WalkItem::Failed(_) => {},
                }
                i = i + 1;
            }
            assert(root.items@.take(root.items.len() as int) =~= root.items@);
        }
        r = r + 1;
    }
    assert(roots@.take(roots.len() as int) =~= roots@);
    found
}

/// The files whose path matches the disposable pattern and whose extension is
/// not excluded, from every root that is readable or names the downloads
/// directory. The excluded directories play no part in this scan.
pub fn scan_files(
    dirs_to_scan: &Vec<RootListing>,
    _exclude_dirs: &Vec<String>,
    exclude_types: &Vec<String>,
) -> (files_to_clean: Vec<Candidate>)
    ensures
        candidate_views(files_to_clean@) == picked_from_roots(
            dirs_to_scan@,
            Criterion::Pattern,
            Seq::empty(),
            string_views(exclude_types@),
        ),
{
    let no_dirs: Vec<String> = Vec::new();
    assert(string_views(no_dirs@) =~= Seq::<Seq<char>>::empty());
    collect_candidates(dirs_to_scan, Criterion::Pattern, &no_dirs, exclude_types)
}

/// The files last modified more than `age_in_days` days before `now`, from
/// every readable root that is not excluded. Neither the pattern nor any
/// extension plays a part in this scan.
pub fn scan_files_for_age(
    dirs_to_scan: &Vec<RootListing>,
    exclude_dirs: &Vec<String>,
    age_in_days: i64,
    now: Timestamp,
) -> (files_to_clean: Vec<Candidate>)
    ensures
        candidate_views(files_to_clean@) == picked_from_roots(
            dirs_to_scan@,
            Criterion::OlderThan { now, days: age_in_days },
            string_views(exclude_dirs@),
            Seq::empty(),
        ),
{
    let no_types: Vec<String> = Vec::new();
    assert(string_views(no_types@) =~= Seq::<Seq<char>>::empty());
    collect_candidates(
        dirs_to_scan,
        Criterion::OlderThan { now, days: age_in_days },
        exclude_dirs,
        &no_types,
    )
}

/// `item` is a qualifying file entry and `c` is the candidate that stands for it.
pub open spec fn item_yields(
    item: WalkItem,
    criterion: Criterion,
    excluded_types: Seq<Seq<char>>,
    c: CandidateView,
) -> bool {
    item matches WalkItem::Entry(e) && qualifies(e, criterion, excluded_types) && e.candidate() == c
}

/// `c` stands for the qualifying file entry at place `i` of the walked root at place `r`.
pub open spec fn root_yields(
    roots: Seq<RootListing>,
    criterion: Criterion,
    excluded_dirs: Seq<Seq<char>>,
    excluded_types: Seq<Seq<char>>,
    r: int,
    i: int,
    c: CandidateView,
) -> bool {
    0 <= r < roots.len() && 0 <= i < roots[r].items@.len() && root_is_walked(
        roots[r].path@,
        roots[r].readable,
        criterion,
        excluded_dirs,
    ) && item_yields(roots[r].items@[i], criterion, excluded_types, c)
}

/// Every candidate picked from a walk stands for one of its qualifying file entries.
pub proof fn lemma_picked_item_has_source(
    items: Seq<WalkItem>,
    criterion: Criterion,
    excluded_types: Seq<Seq<char>>,
    k: int,
)
    requires
        0 <= k < picked_from_items(items, criterion, excluded_types).len(),
    ensures
        exists|i: int|
            0 <= i < items.len() && #[trigger] item_yields(
                items[i],
                criterion,
                excluded_types,
                picked_from_items(items, criterion, excluded_types)[k],
            ),
    decreases items.len(),
{
    let rest = picked_from_items(items.drop_last(), criterion, excluded_types);
    let c = picked_from_items(items, criterion, excluded_types)[k];
    if k < rest.len() {
        lemma_picked_item_has_source(items.drop_last(), criterion, excluded_types, k);
        let i = choose|i: int|
            0 <= i < items.drop_last().len() && #[trigger] item_yields(
                items.drop_last()[i],
                criterion,
                excluded_types,
                rest[k],
            );
        assert(items.drop_last()[i] == items[i]);
        assert(item_yields(items[i], criterion, excluded_types, c));
    } else {
        assert(item_yields(items[items.len() - 1], criterion, excluded_types, c));
    }
}

/// Every qualifying file entry of a walk is picked.
pub proof fn lemma_qualifying_item_is_picked(
    items: Seq<WalkItem>,
    criterion: Criterion,
    excluded_types: Seq<Seq<char>>,
    i: int,
    c: CandidateView,
)
    requires
        0 <= i < items.len(),
        item_yields(items[i], criterion, excluded_types, c),
    ensures
        picked_from_items(items, criterion, excluded_types).contains(c),
    decreases items.len(),
{
    let rest = picked_from_items(items.drop_last(), criterion, excluded_types);
    let all = picked_from_items(items, criterion, excluded_types);
    if i < items.len() - 1 {
        assert(items.drop_last()[i] == items[i]);
        lemma_qualifying_item_is_picked(items.drop_last(), criterion, excluded_types, i, c);
        let k = choose|k: int| 0 <= k < rest.len() && rest[k] == c;
        assert(all[k] == c);
    } else {
        assert(all[all.len() - 1] == c);
    }
}

/// A scan returns only files, none with an excluded extension: every candidate
/// it returns stands for an entry of a walked root that is a file, has no
/// excluded extension and meets the criterion.
pub proof fn lemma_scan_returns_only_qualifying_files(
    roots: Seq<RootListing>,
    criterion: Criterion,
    excluded_dirs: Seq<Seq<char>>,
    excluded_types: Seq<Seq<char>>,
    k: int,
)
    requires
        0 <= k < picked_from_roots(roots, criterion, excluded_dirs, excluded_types).len(),
    ensures
        exists|r: int, i: int| #[trigger]
            root_yields(
                roots,
                criterion,
                excluded_dirs,
                excluded_types,
                r,
                i,
                picked_from_roots(roots, criterion, excluded_dirs, excluded_types)[k],
            ),
        forall|r: int, i: int, c: CandidateView| #[trigger]
            root_yields(roots, criterion, excluded_dirs, excluded_types, r, i, c) ==> {
                let e = roots[r].items@[i]->Entry_0;
                e.is_file && !excluded_types.contains(e.extension@) && c == e.candidate()
            },
    decreases roots.len(),
{
    let rest = picked_from_roots(roots.drop_last(), criterion, excluded_dirs, excluded_types);
    let c = picked_from_roots(roots, criterion, excluded_dirs, excluded_types)[k];
    let last = roots.len() - 1;
    if k < rest.len() {
        lemma_scan_returns_only_qualifying_files(
            roots.drop_last(),
            criterion,
            excluded_dirs,
            excluded_types,
            k,
        );
        let (r, i) = choose|r: int, i: int| #[trigger]
            root_yields(roots.drop_last(), criterion, excluded_dirs, excluded_types, r, i, rest[k]);
        assert(roots.drop_last()[r] == roots[r]);
        assert(root_yields(roots, criterion, excluded_dirs, excluded_types, r, i, c));
    } else {
        let items = roots[last].items@;
        let from_last = picked_from_items(items, criterion, excluded_types);
        assert(c == from_last[k - rest.len()]);
        lemma_picked_item_has_source(items, criterion, excluded_types, k - rest.len());
        let i = choose|i: int|
            0 <= i < items.len() && #[trigger] item_yields(items[i], criterion, excluded_types, c);
        assert(root_yields(roots, criterion, excluded_dirs, excluded_types, last, i, c));
    }
}

/// A scan omits nothing: every qualifying file entry of a walked root is among
/// the candidates it returns.
pub proof fn lemma_scan_returns_every_qualifying_file(
    roots: Seq<RootListing>,
    criterion: Criterion,
    excluded_dirs: Seq<Seq<char>>,
    excluded_types: Seq<Seq<char>>,
    r: int,
    i: int,
    c: CandidateView,
)
    requires
        root_yields(roots, criterion, excluded_dirs, excluded_types, r, i, c),
    ensures
        picked_from_roots(roots, criterion, excluded_dirs, excluded_types).contains(c),
    decreases roots.len(),
{
    let rest = picked_from_roots(roots.drop_last(), criterion, excluded_dirs, excluded_types);
    let all = picked_from_roots(roots, criterion, excluded_dirs, excluded_types);
    if r < roots.len() - 1 {
        assert(roots.drop_last()[r] == roots[r]);
        lemma_scan_returns_every_qualifying_file(
            roots.drop_last(),
            criterion,
            excluded_dirs,
            excluded_types,
            r,
            i,
            c,
        );
        let k = choose|k: int| 0 <= k < rest.len() && rest[k] == c;
        assert(all[k] == c);
    } else {
        let from_last = picked_from_items(roots[r].items@, criterion, excluded_types);
        lemma_qualifying_item_is_picked(roots[r].items@, criterion, excluded_types, i, c);
        let k = choose|k: int| 0 <= k < from_last.len() && from_last[k] == c;
        assert(all[rest.len() + k] == c);
    }
}

/// Something to tell the user about a scan that did not stop it.
#[derive(Clone, Debug, PartialEq, Eq)]
pub enum ScanNotice {
    /// The root was not walked.
    RootSkipped(String),
    /// An entry could not be read, for another reason than a denied permission.
    EntryFailed(String),
}

/// The mathematical value of a [`ScanNotice`].
pub enum ScanNoticeView {
    RootSkipped(Seq<char>),
    EntryFailed(Seq<char>),
}

impl View for ScanNotice {
    type V = ScanNoticeView;

    open spec fn view(&self) -> ScanNoticeView {
        match *self {
            ScanNotice::RootSkipped(path) => ScanNoticeView::RootSkipped(path@),
            ScanNotice::EntryFailed(message) => ScanNoticeView::EntryFailed(message@),
        }
    }
}

/// The views of a sequence of notices, in order.
pub open spec fn notice_views(s: Seq<ScanNotice>) -> Seq<ScanNoticeView> {
    s.map_values(|n: ScanNotice| n@)
}

/// The notices for the entries of one walk: one for each entry that could
/// not be read, but for those refused for want of permission, which pass in silence.
pub open spec fn notices_from_items(items: Seq<WalkItem>) -> Seq<ScanNoticeView>
    decreases items.len(),
{
    if items.len() == 0 {
        Seq::empty()
    } else {
        let rest = notices_from_items(items.drop_last());
        match items.last() {
            WalkItem::Failed(e) => if is_reported(e) {
                rest.push(ScanNoticeView::EntryFailed(e.message@))
            } else {
                rest
            },
            WalkItem::Entry(_) => rest,
        }
    }
}

/// The notices of a scan: for each root that is not walked a warning, for
/// each walked root the notices of its entries.
pub open spec fn notices_from_roots(
    roots: Seq<RootListing>,
    criterion: Criterion,
    excluded_dirs: Seq<Seq<char>>,
) -> Seq<ScanNoticeView>
    decreases roots.len(),
{
    if roots.len() == 0 {
        Seq::empty()
    } else {
        let rest = notices_from_roots(roots.drop_last(), criterion, excluded_dirs);
        let root = roots.last();
        if root_is_walked(root.path@, root.readable, criterion, excluded_dirs) {
            rest + notices_from_items(root.items@)
        } else {
            rest.push(ScanNoticeView::RootSkipped(root.path@))
        }
    }
}

/// What a scan under `criterion` has to tell the user. No failure ends the
/// scan: each is either passed over or listed here.
pub fn scan_notices(roots: &Vec<RootListing>, criterion: Criterion, excluded_dirs: &Vec<String>) -> (notices: Vec<
    ScanNotice,
>)
    ensures
        notice_views(notices@) == notices_from_roots(roots@, criterion, string_views(excluded_dirs@)),
{
    let ghost dirs = string_views(excluded_dirs@);
    let mut notices: Vec<ScanNotice> = Vec::new();
    let mut r: usize = 0;
    assert(roots@.take(0) =~= Seq::<RootListing>::empty());
    assert(notice_views(notices@) =~= Seq::<ScanNoticeView>::empty());
    while r < roots.len()
        invariant
            r <= roots.len(),
            dirs == string_views(excluded_dirs@),
            notice_views(notices@) == notices_from_roots(roots@.take(r as int), criterion, dirs),
        decreases roots.len() - r,
    {
        let root = &roots[r];
        let ghost before = notice_views(notices@);
        assert(roots@.take(r + 1).drop_last() =~= roots@.take(r as int));
        assert(roots@.take(r + 1).last() == roots@[r as int]);
        if should_walk_root(root, criterion, excluded_dirs) {
            let mut i: usize = 0;
            assert(root.items@.take(0) =~= Seq::<WalkItem>::empty());
            assert(before + Seq::<ScanNoticeView>::empty() =~= before);
            while i < root.items.len()
                invariant
                    i <= root.items.len(),
                    notice_views(notices@) == before + notices_from_items(root.items@.take(i as int)),
                decreases root.items.len() - i,
            {
                let ghost so_far = notices_from_items(root.items@.take(i as int));
                assert(root.items@.take(i + 1).drop_last() =~= root.items@.take(i as int));
                assert(root.items@.take(i + 1).last() == root.items@[i as int]);
                match &root.items[i] {
                    WalkItem::Failed(e) => {
                        if !is_permission_denied(e) {
                            let notice = ScanNotice::EntryFailed(e.message.clone());
                            let ghost old_notices = notices@;
                            notices.push(notice);
                            assert(notice_views(notices@) =~= notice_views(old_notices).push(notice@));
                            assert((before + so_far).push(notice@) =~= before + so_far.push(notice@));
                        }
                    },
                    WalkItem::Entry(_) => {},
                }
                i = i + 1;
            }
            assert(root.items@.take(root.items.len() as int) =~= root.items@);
        } else {
            let notice = ScanNotice::RootSkipped(root.path.clone());
            let ghost old_notices = notices@;
            notices.push(notice);
            assert(notice_views(notices@) =~= notice_views(old_notices).push(notice@));
        }
        r = r + 1;
    }
    assert(roots@.take(roots.len() as int) =~= roots@);
    notices
}

/// `item` is an entry that failed for another reason than a denied
/// permission, and `notice` carries its message.
pub open spec fn item_reports(item: WalkItem, notice: ScanNoticeView) -> bool {
    item matches WalkItem::Failed(e) && e.io_kind != Some(IoErrorKind::PermissionDenied) && notice
        == ScanNoticeView::EntryFailed(e.message@)
}

/// Entries refused for want of permission pass in silence: every notice for
/// an entry stems from a failure of another kind, and carries its message.
pub proof fn lemma_denied_entries_are_silent(items: Seq<WalkItem>, k: int)
    requires
        0 <= k < notices_from_items(items).len(),
    ensures
        exists|i: int|
            0 <= i < items.len() && #[trigger] item_reports(items[i], notices_from_items(items)[k]),
    decreases items.len(),
{
    let rest = notices_from_items(items.drop_last());
    let notice = notices_from_items(items)[k];
    if k < rest.len() {
        lemma_denied_entries_are_silent(items.drop_last(), k);
        let i = choose|i: int|
            0 <= i < items.drop_last().len() && #[trigger] item_reports(items.drop_last()[i], rest[k]);
        assert(items.drop_last()[i] == items[i]);
        assert(item_reports(items[i], notice));
    } else {
        assert(item_reports(items[items.len() - 1], notice));
    }
}

} // verus!
