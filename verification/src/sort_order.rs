use crate::credit::{opt_days_ref, Credit, IsCredit};
use crate::date::Date;
use std::cmp::Ordering;
use vstd::prelude::*;

verus! {

/// The direction in which credits are ordered by release date. Credits
/// without a release date come last in either direction.
#[derive(Debug, Copy, Clone, Eq, PartialEq, Structural)]
pub enum SortReleaseDates {
    /// Latest release first.
    Descending,
    /// Earliest release first.
    Ascending,
}

impl Default for SortReleaseDates {
    fn default() -> (order: SortReleaseDates)
        ensures
            order == SortReleaseDates::Descending,
    {
        SortReleaseDates::Descending
    }
}

/// The release day of a credit, as the key by which credits are ordered.
pub open spec fn release_day() -> spec_fn(Credit) -> Option<int> {
    |credit: Credit| credit@.release_date
}

impl SortReleaseDates {
    /// Whether a release on day `a` is placed strictly before one on day
    /// `b`; `None` stands for a missing release date.
    pub open spec fn before(self, a: Option<int>, b: Option<int>) -> bool {
        match (a, b) {
            (Some(x), Some(y)) => match self {
                SortReleaseDates::Descending => x > y,
                SortReleaseDates::Ascending => x < y,
            },
            (Some(_), None) => true,
            _ => false,
        }
    }

    /// `sorted` with `x` placed behind every item that `x` is not strictly
    /// before, as far back as that allows.
    pub open spec fn inserted<T>(self, key: spec_fn(T) -> Option<int>, sorted: Seq<T>, x: T) -> Seq<T>
        decreases sorted.len(),
    {
        if sorted.len() == 0 {
            seq![x]
        } else if self.before(key(x), key(sorted.last())) {
            self.inserted(key, sorted.drop_last(), x).push(sorted.last())
        } else {
            sorted.push(x)
        }
    }

    /// `items` in the order of their keys, items with equal keys in the
    /// order in which they stand in `items`.
    pub open spec fn stably_sorted<T>(self, key: spec_fn(T) -> Option<int>, items: Seq<T>) -> Seq<T>
        decreases items.len(),
    {
        if items.len() == 0 {
            items
        } else {
            self.inserted(key, self.stably_sorted(key, items.drop_last()), items.last())
        }
    }

    /// The items of `a` and `b` in one sequence that keeps the order within
    /// each, taking from `b` only what is strictly before the rest of `a`.
    pub open spec fn merged<T>(self, key: spec_fn(T) -> Option<int>, a: Seq<T>, b: Seq<T>) -> Seq<T>
        decreases a.len() + b.len(),
    {
        if a.len() == 0 {
            b
        } else if b.len() == 0 {
            a
        } else if self.before(key(b.last()), key(a.last())) {
            self.merged(key, a.drop_last(), b).push(a.last())
        } else {
            self.merged(key, a, b.drop_last()).push(b.last())
        }
    }

    /// Whether no item of `items` stands behind one that it is strictly before.
    pub open spec fn ordered<T>(self, key: spec_fn(T) -> Option<int>, items: Seq<T>) -> bool {
        forall|i: int, j: int|
            0 <= i < j < items.len() ==> !self.before(#[trigger] key(items[j]), #[trigger] key(items[i]))
    }

    /// Compares two release dates for sorting: `Less` places `a` first.
    pub fn sort_release_date(&self, a: Option<&Date>, b: Option<&Date>) -> (ordering: Ordering)
        ensures
            (ordering == Ordering::Less) == self.before(opt_days_ref(a), opt_days_ref(b)),
            (ordering == Ordering::Greater) == self.before(opt_days_ref(b), opt_days_ref(a)),
    {
        match (a, b) {
            (None, None) => Ordering::Equal,
            (None, Some(_)) => Ordering::Greater,
            (Some(_), None) => Ordering::Less,
            (Some(x), Some(y)) => {
                let (first, second) = match self {
                    SortReleaseDates::Descending => (y, x),
                    SortReleaseDates::Ascending => (x, y),
                };
                if first.is_before(second) {
                    Ordering::Less
                } else if second.is_before(first) {
                    Ordering::Greater
                } else {
                    Ordering::Equal
                }
            },
        }
    }

    /// The comparison orders release dates totally: nothing comes before
    /// itself, what comes before is not also behind, and both coming
    /// before and not coming before carry over a third date.
    pub proof fn lemma_before_is_an_order(self, a: Option<int>, b: Option<int>, c: Option<int>)
        ensures
            !self.before(a, a),
            self.before(a, b) ==> !self.before(b, a),
            self.before(a, b) && self.before(b, c) ==> self.before(a, c),
            !self.before(a, b) && !self.before(b, c) ==> !self.before(a, c),
            !self.before(a, b) && !self.before(b, a) ==> a == b,
    {
    }

    /// The direction turns the order of dated credits around and leaves
    /// the place of undated credits alone.
    pub proof fn lemma_direction(a: Option<int>, b: Option<int>)
        ensures
            a is Some && b is Some ==> (SortReleaseDates::Descending.before(a, b)
                <==> SortReleaseDates::Ascending.before(b, a)),
            a is None || b is None ==> (SortReleaseDates::Descending.before(a, b)
                <==> SortReleaseDates::Ascending.before(a, b)),
    {
    }

    /// Inserting keeps what is there and adds one item.
    pub proof fn lemma_inserted_len<T>(self, key: spec_fn(T) -> Option<int>, sorted: Seq<T>, x: T)
        ensures
            self.inserted(key, sorted, x).len() == sorted.len() + 1,
            self.inserted(key, sorted, x).to_multiset() == sorted.to_multiset().insert(x),
        decreases sorted.len(),
    {
        broadcast use vstd::seq_lib::group_to_multiset_ensures;

        if sorted.len() == 0 {
            assert(seq![x] =~= Seq::<T>::empty().push(x));
            assert(sorted =~= Seq::<T>::empty());
        } else if self.before(key(x), key(sorted.last())) {
            self.lemma_inserted_len(key, sorted.drop_last(), x);
            assert(sorted =~= sorted.drop_last().push(sorted.last()));
            assert(sorted.drop_last().to_multiset().insert(x).insert(sorted.last())
                =~= sorted.drop_last().to_multiset().insert(sorted.last()).insert(x));
        } else {
        }
    }

    /// Inserting into an ordered sequence gives an ordered sequence.
    pub proof fn lemma_inserted_ordered<T>(self, key: spec_fn(T) -> Option<int>, sorted: Seq<T>, x: T)
        requires
            self.ordered(key, sorted),
        ensures
            self.ordered(key, self.inserted(key, sorted, x)),
        decreases sorted.len(),
    {
        let out = self.inserted(key, sorted, x);
        self.lemma_inserted_len(key, sorted, x);
        if sorted.len() == 0 {
        } else if self.before(key(x), key(sorted.last())) {
            let rest = sorted.drop_last();
            assert forall|i: int, j: int| 0 <= i < j < rest.len() implies !self.before(
                #[trigger] key(rest[j]),
                #[trigger] key(rest[i]),
            ) by {
                assert(rest[i] == sorted[i] && rest[j] == sorted[j]);
            }
            self.lemma_inserted_ordered(key, rest, x);
            self.lemma_inserted_bounded(key, rest, x, sorted.last());
            let inner = self.inserted(key, rest, x);
            self.lemma_inserted_len(key, rest, x);
            assert forall|i: int, j: int| 0 <= i < j < out.len() implies !self.before(
                #[trigger] key(out[j]),
                #[trigger] key(out[i]),
            ) by {
                if j < inner.len() {
                    assert(out[i] == inner[i] && out[j] == inner[j]);
                } else {
                    assert(out[j] == sorted.last());
                    assert(out[i] == inner[i]);
                }
            }
        } else {
            assert forall|i: int, j: int| 0 <= i < j < out.len() implies !self.before(
                #[trigger] key(out[j]),
                #[trigger] key(out[i]),
            ) by {
                if j < sorted.len() {
                    assert(out[i] == sorted[i] && out[j] == sorted[j]);
                } else {
                    assert(out[j] == x);
                    assert(out[i] == sorted[i]);
                    if i < sorted.len() - 1 {
                        assert(!self.before(key(sorted[sorted.len() - 1]), key(sorted[i])));
                    }
                }
            }
        }
    }

    /// An item that is strictly before none of `sorted` and not before `x`
    /// is strictly before none of `sorted` with `x` inserted.
    proof fn lemma_inserted_bounded<T>(
        self,
        key: spec_fn(T) -> Option<int>,
        sorted: Seq<T>,
        x: T,
        top: T,
    )
        requires
            forall|i: int| 0 <= i < sorted.len() ==> !self.before(key(top), #[trigger] key(sorted[i])),
            !self.before(key(top), key(x)),
        ensures
            forall|i: int|
                0 <= i < self.inserted(key, sorted, x).len() ==> !self.before(
                    key(top),
                    #[trigger] key(self.inserted(key, sorted, x)[i]),
                ),
        decreases sorted.len(),
    {
        let out = self.inserted(key, sorted, x);
        self.lemma_inserted_len(key, sorted, x);
        if sorted.len() == 0 {
        } else if self.before(key(x), key(sorted.last())) {
            let rest = sorted.drop_last();
            assert forall|i: int| 0 <= i < rest.len() implies !self.before(
                key(top),
                #[trigger] key(rest[i]),
            ) by {
                assert(rest[i] == sorted[i]);
            }
            self.lemma_inserted_bounded(key, rest, x, top);
            self.lemma_inserted_len(key, rest, x);
            let inner = self.inserted(key, rest, x);
            assert forall|i: int| 0 <= i < out.len() implies !self.before(
                key(top),
                #[trigger] key(out[i]),
            ) by {
                if i < inner.len() {
                    assert(out[i] == inner[i]);
                } else {
                    assert(out[i] == sorted[sorted.len() - 1]);
                }
            }
        } else {
            assert forall|i: int| 0 <= i < out.len() implies !self.before(
                key(top),
                #[trigger] key(out[i]),
            ) by {
                if i < sorted.len() {
                    assert(out[i] == sorted[i]);
                }
            }
        }
    }
}

impl SortReleaseDates {
    /// The sorted sequence is ordered: no item stands behind one that it
    /// is strictly before.
    pub proof fn lemma_sorted_is_ordered<T>(self, key: spec_fn(T) -> Option<int>, items: Seq<T>)
        ensures
            self.ordered(key, self.stably_sorted(key, items)),
        decreases items.len(),
    {
        if items.len() > 0 {
            self.lemma_sorted_is_ordered(key, items.drop_last());
            self.lemma_inserted_ordered(key, self.stably_sorted(key, items.drop_last()), items.last());
        }
    }

    /// Sorting neither adds nor drops an item.
    pub proof fn lemma_sorted_is_permutation<T>(self, key: spec_fn(T) -> Option<int>, items: Seq<T>)
        ensures
            self.stably_sorted(key, items).len() == items.len(),
            self.stably_sorted(key, items).to_multiset() == items.to_multiset(),
        decreases items.len(),
    {
        broadcast use vstd::seq_lib::group_to_multiset_ensures;

        if items.len() > 0 {
            self.lemma_sorted_is_permutation(key, items.drop_last());
            self.lemma_inserted_len(key, self.stably_sorted(key, items.drop_last()), items.last());
            assert(items =~= items.drop_last().push(items.last()));
        }
    }

    /// Inserting an item changes the items of one key only: those of the
    /// key of `x` gain `x` at their end.
    proof fn lemma_inserted_filter<T>(
        self,
        key: spec_fn(T) -> Option<int>,
        sorted: Seq<T>,
        x: T,
        k: Option<int>,
    )
        ensures
            self.inserted(key, sorted, x).filter(|item: T| key(item) == k) == if key(x) == k {
                sorted.filter(|item: T| key(item) == k).push(x)
            } else {
                sorted.filter(|item: T| key(item) == k)
            },
        decreases sorted.len(),
    {
        reveal(Seq::filter);
        let pred = |item: T| key(item) == k;
        if sorted.len() == 0 {
            assert(seq![x].drop_last() =~= Seq::<T>::empty());
            assert(sorted =~= Seq::<T>::empty());
        } else if self.before(key(x), key(sorted.last())) {
            let rest = sorted.drop_last();
            self.lemma_inserted_filter(key, rest, x, k);
            let inner = self.inserted(key, rest, x);
            assert(inner.push(sorted.last()).drop_last() =~= inner);
        } else {
            assert(sorted.push(x).drop_last() =~= sorted);
        }
    }

    /// Sorting is stable: the items of any one key stand in the sorted
    /// sequence as they stand in `items`, whatever the direction.
    pub proof fn lemma_sorted_is_stable<T>(
        self,
        key: spec_fn(T) -> Option<int>,
        items: Seq<T>,
        k: Option<int>,
    )
        ensures
            self.stably_sorted(key, items).filter(|item: T| key(item) == k) == items.filter(
                |item: T| key(item) == k,
            ),
        decreases items.len(),
    {
        reveal(Seq::filter);
        if items.len() > 0 {
            self.lemma_sorted_is_stable(key, items.drop_last(), k);
            self.lemma_inserted_filter(
                key,
                self.stably_sorted(key, items.drop_last()),
                items.last(),
                k,
            );
        }
    }

    /// Items that all have the same key stay as they are, whatever the
    /// direction.
    pub proof fn lemma_sorted_ties_keep_order<T>(
        self,
        key: spec_fn(T) -> Option<int>,
        items: Seq<T>,
        k: Option<int>,
    )
        requires
            forall|i: int| 0 <= i < items.len() ==> key(#[trigger] items[i]) == k,
        ensures
            self.stably_sorted(key, items) == items,
        decreases items.len(),
    {
        if items.len() > 0 {
            let rest = items.drop_last();
            assert forall|i: int| 0 <= i < rest.len() implies key(#[trigger] rest[i]) == k by {
                assert(rest[i] == items[i]);
            }
            self.lemma_sorted_ties_keep_order(key, rest, k);
            if rest.len() > 0 {
                assert(key(rest.last()) == key(rest[rest.len() - 1]));
            }
            assert(items =~= rest.push(items.last()));
        }
    }

    /// In either direction every item without a key stands behind every
    /// item with one.
    pub proof fn lemma_undated_last<T>(self, key: spec_fn(T) -> Option<int>, items: Seq<T>)
        ensures
            forall|i: int, j: int|
                #![trigger self.stably_sorted(key, items)[i], self.stably_sorted(key, items)[j]]
                0 <= i < j < items.len() && key(self.stably_sorted(key, items)[i]) is None ==> key(
                    self.stably_sorted(key, items)[j],
                ) is None,
    {
        self.lemma_sorted_is_ordered(key, items);
        self.lemma_sorted_is_permutation(key, items);
        let out = self.stably_sorted(key, items);
        assert forall|i: int, j: int|
            #![trigger out[i], out[j]]
            0 <= i < j < items.len() && key(out[i]) is None implies key(out[j]) is None by {
            assert(!self.before(key(out[j]), key(out[i])));
        }
    }

    /// Inserting after a merge is merging after an insertion into the second part.
    proof fn lemma_inserted_merged<T>(
        self,
        key: spec_fn(T) -> Option<int>,
        a: Seq<T>,
        b: Seq<T>,
        x: T,
    )
        ensures
            self.inserted(key, self.merged(key, a, b), x) == self.merged(
                key,
                a,
                self.inserted(key, b, x),
            ),
        decreases a.len() + b.len(),
    {
        let bx = self.inserted(key, b, x);
        self.lemma_inserted_len(key, b, x);
        if a.len() == 0 {
        } else if b.len() == 0 {
            assert(bx =~= seq![x]);
            assert(bx.last() == x);
            assert(bx.drop_last() =~= Seq::<T>::empty());
            assert(self.merged(key, a, b) == a);
            assert(self.merged(key, a.drop_last(), b) =~= a.drop_last());
            if self.before(key(x), key(a.last())) {
                self.lemma_inserted_merged(key, a.drop_last(), b, x);
                assert(self.merged(key, a, bx) == self.merged(key, a.drop_last(), bx).push(a.last()));
            } else {
                assert(self.merged(key, a, bx) == self.merged(key, a, bx.drop_last()).push(x));
                assert(self.merged(key, a, Seq::<T>::empty()) == a);
            }
            assert(self.inserted(key, self.merged(key, a, b), x) == self.merged(key, a, bx));
        } else if self.before(key(b.last()), key(a.last())) {
            if self.before(key(x), key(a.last())) {
                self.lemma_inserted_merged(key, a.drop_last(), b, x);
                let m = self.merged(key, a.drop_last(), b);
                assert(m.push(a.last()).last() == a.last());
                assert(m.push(a.last()).drop_last() =~= m);
                if self.before(key(x), key(b.last())) {
                    assert(bx.last() == b.last());
                } else {
                    assert(bx.last() == x);
                }
            } else {
                assert(bx == b.push(x));
                assert(bx.last() == x);
                assert(bx.drop_last() =~= b);
                let m = self.merged(key, a.drop_last(), b);
                assert(m.push(a.last()).last() == a.last());
            }
            assert(self.inserted(key, self.merged(key, a, b), x) == self.merged(key, a, bx));
        } else {
            let m = self.merged(key, a, b.drop_last());
            assert(m.push(b.last()).last() == b.last());
            assert(m.push(b.last()).drop_last() =~= m);
            if self.before(key(x), key(b.last())) {
                self.lemma_inserted_merged(key, a, b.drop_last(), x);
                let inner = self.inserted(key, b.drop_last(), x);
                assert(bx == inner.push(b.last()));
                assert(bx.last() == b.last());
                assert(bx.drop_last() =~= inner);
            } else {
                assert(bx == b.push(x));
                assert(bx.last() == x);
                assert(bx.drop_last() =~= b);
            }
        }
    }

    /// Sorting two parts and merging them sorts the whole.
    pub proof fn lemma_sorted_concat<T>(self, key: spec_fn(T) -> Option<int>, a: Seq<T>, b: Seq<T>)
        ensures
            self.stably_sorted(key, a + b) == self.merged(
                key,
                self.stably_sorted(key, a),
                self.stably_sorted(key, b),
            ),
        decreases b.len(),
    {
        if b.len() == 0 {
            assert(a + b =~= a);
            self.lemma_sorted_is_permutation(key, a);
        } else {
            self.lemma_sorted_concat(key, a, b.drop_last());
            assert((a + b).drop_last() =~= a + b.drop_last());
            assert((a + b).last() == b.last());
            self.lemma_inserted_merged(
                key,
                self.stably_sorted(key, a),
                self.stably_sorted(key, b.drop_last()),
                b.last(),
            );
        }
    }

    /// Merges two sequences of credits, each in the order of its keys,
    /// into one; where keys tie, the credits of `left` come first.
    fn merge_sorted(&self, left: Vec<Credit>, right: Vec<Credit>) -> (out: Vec<Credit>)
        ensures
            out@ == self.merged(release_day(), left@, right@),
    {
        let ghost total = self.merged(release_day(), left@, right@);
        let mut left = left;
        let mut right = right;
        let mut stack: Vec<Credit> = Vec::new();
        let ghost mut tail: Seq<Credit> = Seq::empty();
        while left.len() > 0 && right.len() > 0
            invariant
                total == self.merged(release_day(), left@, right@) + tail,
                stack.len() == tail.len(),
                forall|i: int| 0 <= i < tail.len() ==> stack@[i] == tail[tail.len() - 1 - i],
            decreases left.len() + right.len(),
        {
            let from_left = {
                let a = &left[left.len() - 1];
                let b = &right[right.len() - 1];
                match self.sort_release_date(b.release_date(), a.release_date()) {
                    Ordering::Less => true,
                    _ => false,
                }
            };
            let ghost before_left = left@;
            let ghost before_right = right@;
            let item = if from_left {
                left.pop().unwrap()
            } else {
                right.pop().unwrap()
            };
            proof {
                assert(self.merged(release_day(), before_left, before_right) == self.merged(
                    release_day(),
                    left@,
                    right@,
                ).push(item));
                assert(self.merged(release_day(), left@, right@).push(item) + tail
                    =~= self.merged(release_day(), left@, right@) + (seq![item] + tail));
                tail = seq![item] + tail;
            }
            stack.push(item);
        }
        let mut out = if left.len() > 0 {
            left
        } else {
            right
        };
        while stack.len() > 0
            invariant
                total == out@ + tail,
                stack.len() == tail.len(),
                forall|i: int| 0 <= i < tail.len() ==> stack@[i] == tail[tail.len() - 1 - i],
            decreases stack.len(),
        {
            let item = stack.pop().unwrap();
            proof {
                assert(item == tail[0]);
                assert(out@.push(item) + tail.drop_first() =~= out@ + tail);
                tail = tail.drop_first();
            }
            out.push(item);
        }
        assert(out@ + tail =~= out@);
        out
    }

    /// The credits in the order of their release dates: in the direction
    /// of `self` among the dated ones, the undated ones behind them, and
    /// credits of one date in the order in which they came.
    pub fn sort_credits(&self, credits: Vec<Credit>) -> (sorted: Vec<Credit>)
        ensures
            sorted@ == self.stably_sorted(release_day(), credits@),
        decreases credits.len(),
    {
        if credits.len() <= 1 {
            proof {
                if credits.len() == 1 {
                    let rest = credits@.drop_last();
                    assert(self.stably_sorted(release_day(), rest) == rest);
                    assert(self.inserted(release_day(), rest, credits@.last()) =~= credits@);
                }
            }
            return credits;
        }
        let ghost whole = credits@;
        let mut left = credits;
        let middle = left.len() / 2;
        let right = left.split_off(middle);
        proof {
            assert(whole =~= left@ + right@);
            self.lemma_sorted_concat(release_day(), left@, right@);
        }
        let left = self.sort_credits(left);
        let right = self.sort_credits(right);
        self.merge_sorted(left, right)
    }
}

} // verus!
