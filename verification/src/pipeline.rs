use crate::credit::{Cast, Credit, Crew, IsCredit};
use crate::date::Date;
use crate::feed_item::{feed_item, item_of, FeedItem, FeedItemView};
use crate::query_args::QueryArgs;
use crate::release_status::ReleaseStatus;
use crate::size::{Size, MAX_SIZE};
use crate::sort_order::{release_day, SortReleaseDates};
use itertools::Itertools;
use vstd::prelude::*;

verus! {

/// The cast credits as credits, in order.
pub open spec fn cast_credits(cast: Seq<Cast>) -> Seq<Credit> {
    Seq::new(cast.len(), |i: int| Credit::Cast(cast[i]))
}

/// The crew credits as credits, in order.
pub open spec fn crew_credits(crew: Seq<Crew>) -> Seq<Credit> {
    Seq::new(crew.len(), |i: int| Credit::Crew(crew[i]))
}

/// Whether, of two credits that are next in their lists, the one of the
/// first list goes first. It always does: the lists are not sorted here,
/// so the first list comes out whole before the second.
pub open spec fn spec_first_goes_first(a: &Credit, b: &Credit) -> bool {
    true
}

/// Ties between the two lists go to the first list.
pub fn first_goes_first(a: &Credit, b: &Credit) -> (first: bool)
    ensures
        first == spec_first_goes_first(a, b),
{
    true
}

/// Two sequences taken together item by item: as long as both have an
/// item left, the next item comes from `a` if `spec_first_goes_first`
/// says so of the two next items, else from `b`; then the rest follows.
pub open spec fn interleaved(a: Seq<Credit>, b: Seq<Credit>) -> Seq<Credit>
    decreases a.len() + b.len(),
{
    if a.len() == 0 {
        b
    } else if b.len() == 0 {
        a
    } else if spec_first_goes_first(&a.first(), &b.first()) {
        seq![a.first()] + interleaved(a.drop_first(), b)
    } else {
        seq![b.first()] + interleaved(a, b.drop_first())
    }
}

/// Taken together, the first list comes first and the second follows.
pub proof fn lemma_interleaved_is_concat(a: Seq<Credit>, b: Seq<Credit>)
    ensures
        interleaved(a, b) == a + b,
    decreases a.len() + b.len(),
{
    if a.len() == 0 {
        assert(a + b =~= b);
    } else if b.len() == 0 {
        assert(a + b =~= a);
    } else {
        lemma_interleaved_is_concat(a.drop_first(), b);
        assert(seq![a.first()] + (a.drop_first() + b) =~= a + b);
    }
}

/// `itertools::Itertools::merge_by` on the two lists, each credit tagged
/// with the list it comes from, and `collect_vec`. The adaptor hands out
/// the next item of the first list whenever the closure says so of the
/// two next items, else the next of the second; when one list is used
/// up, the rest of the other follows.
#[verifier::external_body]
fn itertools_merge_by(cast: Vec<Cast>, crew: Vec<Crew>) -> (merged: Vec<Credit>)
    ensures
        merged@ == interleaved(cast_credits(cast@), crew_credits(crew@)),
{
    cast.into_iter().map(Credit::Cast).merge_by(
        crew.into_iter().map(Credit::Crew),
        |a, b| first_goes_first(a, b),
    ).collect_vec()
}

/// The credits of both lists in one: the cast credits in their order,
/// then the crew credits in theirs.
pub fn merge_credits(cast: Vec<Cast>, crew: Vec<Crew>) -> (merged: Vec<Credit>)
    ensures
        merged@ == cast_credits(cast@) + crew_credits(crew@),
{
    proof {
        lemma_interleaved_is_concat(cast_credits(cast@), crew_credits(crew@));
    }
    itertools_merge_by(cast, crew)
}

/// The test of whether `status` admits a credit on the day `now`.
pub open spec fn admitted(status: ReleaseStatus, now: int) -> spec_fn(Credit) -> bool {
    |credit: Credit| status.admits(now, credit@.release_date)
}

/// The credits that `status` admits on the day `now`, in their order.
pub fn filter_credits(credits: Vec<Credit>, status: &ReleaseStatus, now: &Date) -> (kept: Vec<Credit>)
    ensures
        kept@ == credits@.filter(admitted(*status, now@)),
{
    let ghost all = credits@;
    let mut kept: Vec<Credit> = Vec::new();
    assert(all.take(0) =~= Seq::<Credit>::empty());
    for credit in iter: credits
        invariant
            iter.seq() == all,
            kept@ == all.take(iter.index() as int).filter(admitted(*status, now@)),
    {
        proof {
            reveal(Seq::filter);
            let next = all.take(iter.index() + 1);
            assert(next.drop_last() =~= all.take(iter.index() as int));
            assert(next.last() == credit);
        }
        if status.check(now, credit.release_date()) {
            kept.push(credit);
        }
    }
    assert(all.take(all.len() as int) =~= all);
    kept
}

/// The smaller of two numbers.
pub open spec fn smaller(a: int, b: int) -> int {
    if a <= b {
        a
    } else {
        b
    }
}

/// The first `size` of `credits`, or all of them if there are fewer.
pub open spec fn truncated(credits: Seq<Credit>, size: nat) -> Seq<Credit> {
    credits.take(smaller(size as int, credits.len() as int))
}

/// The first credits, as many as `size` allows.
pub fn truncate_credits(credits: Vec<Credit>, size: &Size) -> (first: Vec<Credit>)
    ensures
        first@ == truncated(credits@, size@),
{
    let mut first = credits;
    first.truncate(size.get());
    assert(first@ =~= truncated(credits@, size@));
    first
}

/// The feed items of `credits`, in order.
pub open spec fn items_of(credits: Seq<Credit>) -> Seq<FeedItemView> {
    Seq::new(credits.len(), |i: int| item_of(credits[i]@))
}

/// What each of `items` holds, in order.
pub open spec fn views_of(items: Seq<FeedItem>) -> Seq<FeedItemView> {
    Seq::new(items.len(), |i: int| items[i]@)
}

/// The feed items of `credits`, in order.
pub fn render_items(credits: &Vec<Credit>) -> (items: Vec<FeedItem>)
    ensures
        views_of(items@) == items_of(credits@),
{
    let mut items: Vec<FeedItem> = Vec::with_capacity(credits.len());
    let mut i: usize = 0;
    while i < credits.len()
        invariant
            i <= credits.len(),
            items.len() == i,
            forall|j: int| 0 <= j < i ==> items@[j]@ == item_of(credits@[j]@),
        decreases credits.len() - i,
    {
        items.push(feed_item(&credits[i]));
        i += 1;
    }
    assert(views_of(items@) =~= items_of(credits@));
    items
}

/// The credits that a feed shows: those of both lists that `status`
/// admits on the day `now`, in the order `order`, as many as `size` allows.
pub open spec fn selected(
    cast: Seq<Cast>,
    crew: Seq<Crew>,
    status: ReleaseStatus,
    order: SortReleaseDates,
    size: nat,
    now: int,
) -> Seq<Credit> {
    truncated(
        order.stably_sorted(
            release_day(),
            (cast_credits(cast) + crew_credits(crew)).filter(admitted(status, now)),
        ),
        size,
    )
}

/// The credits of both lists that `status` admits on the day `now`.
pub open spec fn eligible(cast: Seq<Cast>, crew: Seq<Crew>, status: ReleaseStatus, now: int) -> Seq<
    Credit,
> {
    (cast_credits(cast) + crew_credits(crew)).filter(admitted(status, now))
}

/// A feed holds as many credits as are eligible, but no more than its size.
pub proof fn lemma_selected_len(
    cast: Seq<Cast>,
    crew: Seq<Crew>,
    status: ReleaseStatus,
    order: SortReleaseDates,
    size: nat,
    now: int,
)
    ensures
        selected(cast, crew, status, order, size, now).len() == smaller(
            size as int,
            eligible(cast, crew, status, now).len() as int,
        ),
        selected(cast, crew, status, order, size, now).len() <= size,
{
    order.lemma_sorted_is_permutation(release_day(), eligible(cast, crew, status, now));
}

/// Every credit that a feed shows is eligible: none is made up, and none
/// that the release status refuses gets in.
pub proof fn lemma_selected_are_eligible(
    cast: Seq<Cast>,
    crew: Seq<Crew>,
    status: ReleaseStatus,
    order: SortReleaseDates,
    size: nat,
    now: int,
)
    ensures
        forall|i: int|
            0 <= i < selected(cast, crew, status, order, size, now).len() ==> {
                let credit = #[trigger] selected(cast, crew, status, order, size, now)[i];
                &&& status.admits(now, credit@.release_date)
                &&& (cast_credits(cast) + crew_credits(crew)).contains(credit)
            },
{
    broadcast use vstd::seq_lib::group_to_multiset_ensures;

    let merged = cast_credits(cast) + crew_credits(crew);
    let kept = eligible(cast, crew, status, now);
    let sorted = order.stably_sorted(release_day(), kept);
    let shown = selected(cast, crew, status, order, size, now);
    order.lemma_sorted_is_permutation(release_day(), kept);
    assert forall|i: int| 0 <= i < shown.len() implies {
        let credit = #[trigger] shown[i];
        &&& status.admits(now, credit@.release_date)
        &&& merged.contains(credit)
    } by {
        let credit = shown[i];
        assert(credit == sorted[i]);
        assert(sorted.contains(credit));
        assert(sorted.to_multiset().count(credit) > 0);
        assert(kept.to_multiset().count(credit) > 0);
        assert(kept.contains(credit));
        let k = choose|k: int| 0 <= k < kept.len() && kept[k] == credit;
        merged.lemma_filter_pred(admitted(status, now), k);
        merged.lemma_filter_contains_rev(admitted(status, now), credit);
    }
}

/// In a feed no credit without a release date stands before one with a
/// release date, whatever the direction of the order.
pub proof fn lemma_selected_undated_last(
    cast: Seq<Cast>,
    crew: Seq<Crew>,
    status: ReleaseStatus,
    order: SortReleaseDates,
    size: nat,
    now: int,
)
    ensures
        forall|i: int, j: int|
            #![trigger selected(cast, crew, status, order, size, now)[i], selected(cast, crew, status, order, size, now)[j]]
            0 <= i < j < selected(cast, crew, status, order, size, now).len() && selected(
                cast,
                crew,
                status,
                order,
                size,
                now,
            )[i]@.release_date is None ==> selected(
                cast,
                crew,
                status,
                order,
                size,
                now,
            )[j]@.release_date is None,
{
    let kept = eligible(cast, crew, status, now);
    let sorted = order.stably_sorted(release_day(), kept);
    let shown = selected(cast, crew, status, order, size, now);
    order.lemma_undated_last(release_day(), kept);
    order.lemma_sorted_is_permutation(release_day(), kept);
    assert forall|i: int, j: int|
        #![trigger shown[i], shown[j]]
        0 <= i < j < shown.len() && shown[i]@.release_date is None implies shown[j]@.release_date is None by {
        assert(shown[i] == sorted[i] && shown[j] == sorted[j]);
        assert(release_day()(sorted[i]) is None);
        assert(release_day()(sorted[j]) is None);
    }
}

/// The items of the feed of a person's credits.
pub fn combined_credits_items(cast: Vec<Cast>, crew: Vec<Crew>, query: &QueryArgs, now: &Date) -> (items:
    Vec<FeedItem>)
    ensures
        views_of(items@) == items_of(
            selected(cast@, crew@, query.release_status, query.sort_order, query.size@, now@),
        ),
        items.len() == smaller(
            query.size@ as int,
            eligible(cast@, crew@, query.release_status, now@).len() as int,
        ),
        items.len() <= MAX_SIZE,
{
    let merged = merge_credits(cast, crew);
    let kept = filter_credits(merged, &query.release_status, now);
    let sorted = query.sort_order.sort_credits(kept);
    let shown = truncate_credits(sorted, &query.size);
    proof {
        lemma_selected_len(cast@, crew@, query.release_status, query.sort_order, query.size@, now@);
        use_type_invariant(&query.size);
        query.size.lemma_bounds();
    }
    let items = render_items(&shown);
    assert(items.len() == views_of(items@).len());
    items
}

} // verus!
