//! Charts: snaps ranked by their raw rating.
use vstd::prelude::*;
use vstd::set_lib::{lemma_int_range, lemma_subset_equality, set_int_range};
use crate::features::common::entities::{band_to_pb, Rating};
use crate::features::pb::chart as pb;
use crate::features::pb::chart::{RawRating, Timeframe};
use crate::features::pb::common::band_number;

verus! {

/// How many entries a chart holds at most.
pub const CHART_LENGTH: usize = 20;

/// One entry of a chart: a snap's rating and the raw rating it is ranked by.
#[derive(Clone, Debug)]
pub struct ChartData {
    pub raw_rating: RawRating,
    pub rating: Rating,
}

/// The snaps with the highest raw ratings over a timeframe, best first.
pub struct Chart {
    pub timeframe: Timeframe,
    pub chart_data: Vec<ChartData>,
}

/// The rank key of a chart entry.
pub open spec fn rank_key(d: ChartData) -> u32 {
    d.raw_rating.order_key
}

/// `ranked` is `data` reordered by `order` (its positions in `data`) so that raw ratings
/// never increase, entries with equal raw ratings keeping their relative order.
pub open spec fn is_stable_ranking(data: Seq<ChartData>, ranked: Seq<ChartData>, order: Seq<int>) -> bool {
    &&& ranked.len() == data.len()
    &&& order.len() == data.len()
    &&& forall|i: int| 0 <= i < order.len() ==> 0 <= #[trigger] order[i] < data.len()
    &&& forall|i: int| 0 <= i < order.len() ==> #[trigger] ranked[i] == data[order[i]]
    &&& forall|i: int, j: int| 0 <= i < j < order.len() ==> order[i] != order[j]
    &&& forall|i: int, j: int|
        0 <= i < j < ranked.len() ==> rank_key(#[trigger] ranked[j]) <= rank_key(#[trigger] ranked[i])
    &&& forall|i: int, j: int|
        0 <= i < j < ranked.len() && rank_key(ranked[i]) == rank_key(ranked[j]) ==> #[trigger] order[i] < #[trigger] order[j]
}

/// The first `CHART_LENGTH` entries of a sequence, or all of them if there are fewer.
pub open spec fn chart_prefix(ranked: Seq<ChartData>) -> Seq<ChartData> {
    if ranked.len() <= CHART_LENGTH {
        ranked
    } else {
        ranked.take(CHART_LENGTH as int)
    }
}

/// Orders `data` by raw rating, highest first, keeping the input order between equal
/// raw ratings.
fn rank_stable(data: Vec<ChartData>) -> (r: Vec<ChartData>)
    ensures
        exists|order: Seq<int>| is_stable_ranking(data@, r@, order),
{
    let ghost original = data@;
    let mut rest = data;
    let mut ranked: Vec<ChartData> = Vec::new();
    let ghost mut order: Seq<int> = Seq::empty();
    while rest.len() > 0
        invariant
            rest@ == original.take(rest@.len() as int),
            rest@.len() <= original.len(),
            ranked@.len() == order.len(),
            ranked@.len() + rest@.len() == original.len(),
            forall|i: int| 0 <= i < order.len() ==> rest@.len() <= #[trigger] order[i] < original.len(),
            forall|i: int| 0 <= i < order.len() ==> #[trigger] ranked@[i] == original[order[i]],
            forall|i: int, j: int| 0 <= i < j < order.len() ==> order[i] != order[j],
            forall|i: int, j: int|
                0 <= i < j < ranked@.len() ==> rank_key(#[trigger] ranked@[j]) <= rank_key(#[trigger] ranked@[i]),
            forall|i: int, j: int|
                0 <= i < j < ranked@.len() && rank_key(ranked@[i]) == rank_key(ranked@[j])
                    ==> #[trigger] order[i] < #[trigger] order[j],
        decreases rest@.len(),
    {
        let item = rest.pop().unwrap();
        let ghost idx: int = rest@.len() as int;
        assert(item == original[idx]);
        assert(rest@ == original.take(idx));
        let key = item.raw_rating.order_key;
        let mut j: usize = 0;
        while j < ranked.len() && ranked[j].raw_rating.order_key > key
            invariant
                j <= ranked@.len(),
                forall|i: int| 0 <= i < j ==> rank_key(#[trigger] ranked@[i]) > key,
            decreases ranked@.len() - j,
        {
            j = j + 1;
        }
        proof {
            assert(j < ranked@.len() ==> rank_key(ranked@[j as int]) <= key);
        }
        let ghost old_ranked = ranked@;
        let ghost old_order = order;
        ranked.insert(j, item);
        proof {
            order = old_order.insert(j as int, idx);
            assert forall|i: int| 0 <= i < order.len() implies #[trigger] ranked@[i] == original[order[i]] by {
                if i < j {
                    assert(ranked@[i] == old_ranked[i]);
                } else if i > j {
                    assert(ranked@[i] == old_ranked[i - 1]);
                }
            }
            assert forall|i: int| 0 <= i < order.len() implies rest@.len() <= #[trigger] order[i] < original.len() by {
                if i < j {
                } else if i > j {
                    assert(order[i] == old_order[i - 1]);
                }
            }
            assert forall|a: int, b: int| 0 <= a < b < order.len() implies order[a] != order[b] by {
                if a < j && b < j {
                } else if a < j && b == j {
                } else if a < j && b > j {
                    assert(order[b] == old_order[b - 1]);
                } else if a == j {
                    assert(order[b] == old_order[b - 1]);
                } else {
                    assert(order[a] == old_order[a - 1]);
                    assert(order[b] == old_order[b - 1]);
                }
            }
            assert forall|a: int, b: int|
                0 <= a < b < ranked@.len() implies rank_key(#[trigger] ranked@[b]) <= rank_key(#[trigger] ranked@[a]) by {
                if a < j && b < j {
                    assert(ranked@[a] == old_ranked[a]);
                    assert(ranked@[b] == old_ranked[b]);
                } else if a < j && b == j {
                    assert(ranked@[a] == old_ranked[a]);
                } else if a < j && b > j {
                    assert(ranked@[a] == old_ranked[a]);
                    assert(ranked@[b] == old_ranked[b - 1]);
                    assert(rank_key(old_ranked[b - 1]) <= rank_key(old_ranked[j as int]));
                } else if a == j {
                    assert(ranked@[b] == old_ranked[b - 1]);
                    assert(rank_key(old_ranked[b - 1]) <= rank_key(old_ranked[j as int]));
                } else {
                    assert(ranked@[a] == old_ranked[a - 1]);
                    assert(ranked@[b] == old_ranked[b - 1]);
                }
            }
            assert forall|a: int, b: int|
                0 <= a < b < ranked@.len() && rank_key(ranked@[a]) == rank_key(ranked@[b])
                    implies #[trigger] order[a] < #[trigger] order[b] by {
                if a < j && b < j {
                    assert(ranked@[a] == old_ranked[a]);
                    assert(ranked@[b] == old_ranked[b]);
                } else if a < j && b == j {
                    assert(ranked@[a] == old_ranked[a]);
                } else if a < j && b > j {
                    assert(ranked@[a] == old_ranked[a]);
                    assert(ranked@[b] == old_ranked[b - 1]);
                    assert(order[b] == old_order[b - 1]);
                } else if a == j {
                    assert(order[b] == old_order[b - 1]);
                } else {
                    assert(ranked@[a] == old_ranked[a - 1]);
                    assert(ranked@[b] == old_ranked[b - 1]);
                    assert(order[a] == old_order[a - 1]);
                    assert(order[b] == old_order[b - 1]);
                }
            }
        }
    }
    assert(is_stable_ranking(original, ranked@, order));
    ranked
}

/// A chart holds the best entries: as many as the input has, up to [`CHART_LENGTH`], each
/// taken from the input, and none ranked below an entry left out.
pub proof fn lemma_chart_holds_the_best(data: Seq<ChartData>, ranked: Seq<ChartData>, order: Seq<int>)
    requires
        is_stable_ranking(data, ranked, order),
    ensures
        chart_prefix(ranked).len() == if data.len() <= CHART_LENGTH { data.len() } else { CHART_LENGTH as nat },
        forall|i: int| 0 <= i < chart_prefix(ranked).len() ==> #[trigger] chart_prefix(ranked)[i] == data[order[i]],
        forall|i: int, j: int|
            0 <= i < chart_prefix(ranked).len() <= j < data.len() ==>
                (#[trigger] ranked[j]).raw_rating.order_key <= (#[trigger] chart_prefix(ranked)[i]).raw_rating.order_key,
{
    assert forall|i: int, j: int|
        0 <= i < chart_prefix(ranked).len() <= j < data.len() implies
            (#[trigger] ranked[j]).raw_rating.order_key <= (#[trigger] chart_prefix(ranked)[i]).raw_rating.order_key by {
        assert(chart_prefix(ranked)[i] == ranked[i]);
        assert(rank_key(ranked[j]) <= rank_key(ranked[i]));
    }
}

/// Every entry of `data` appears in `ranked`.
pub open spec fn holds_every_entry(data: Seq<ChartData>, ranked: Seq<ChartData>) -> bool {
    forall|k: int| 0 <= k < data.len() ==> #[trigger] entry_held(data, ranked, k)
}

/// The entry at position `k` of `data` appears in `ranked`.
pub open spec fn entry_held(data: Seq<ChartData>, ranked: Seq<ChartData>, k: int) -> bool {
    exists|i: int| 0 <= i < ranked.len() && #[trigger] ranked[i] == data[k]
}

/// A stable ranking puts the entries in order of their raw ratings, highest first, and
/// keeps entries with equal raw ratings in the order the input gave them; it holds every
/// input entry exactly once.
pub proof fn lemma_ranked_by_raw_rating(data: Seq<ChartData>, ranked: Seq<ChartData>, order: Seq<int>)
    requires
        is_stable_ranking(data, ranked, order),
    ensures
        ranked.len() == data.len(),
        forall|i: int, j: int| 0 <= i < j < ranked.len() ==>
            (#[trigger] ranked[j]).raw_rating.order_key <= (#[trigger] ranked[i]).raw_rating.order_key,
        forall|i: int, j: int| 0 <= i < j < ranked.len()
            && ranked[i].raw_rating.order_key == ranked[j].raw_rating.order_key ==> #[trigger] order[i] < #[trigger] order[j],
        forall|i: int| 0 <= i < ranked.len() ==> 0 <= #[trigger] order[i] < data.len() && ranked[i] == data[order[i]],
        holds_every_entry(data, ranked),
{
    assert forall|i: int, j: int| 0 <= i < j < ranked.len() implies
        (#[trigger] ranked[j]).raw_rating.order_key <= (#[trigger] ranked[i]).raw_rating.order_key by {
        assert(rank_key(ranked[j]) <= rank_key(ranked[i]));
    }
    assert forall|i: int, j: int| 0 <= i < j < ranked.len()
        && ranked[i].raw_rating.order_key == ranked[j].raw_rating.order_key implies #[trigger] order[i] < #[trigger] order[j] by {
        assert(rank_key(ranked[i]) == rank_key(ranked[j]));
    }
    assert forall|k: int| 0 <= k < data.len() implies
        #[trigger] entry_held(data, ranked, k) by {
        lemma_order_covers(data, ranked, order, k);
        let i = choose|i: int| 0 <= i < order.len() && order[i] == k;
        assert(ranked[i] == data[order[i]]);
    }
}

/// Every position of `data` occurs in a ranking's order.
proof fn lemma_order_covers(data: Seq<ChartData>, ranked: Seq<ChartData>, order: Seq<int>, k: int)
    requires
        is_stable_ranking(data, ranked, order),
        0 <= k < data.len(),
    ensures
        exists|i: int| 0 <= i < order.len() && order[i] == k,
{
    broadcast use vstd::seq_lib::seq_to_set_is_finite;
    let range = set_int_range(0, data.len() as int);
    assert(order.no_duplicates());
    order.unique_seq_to_set();
    lemma_int_range(0, data.len() as int);
    assert forall|x: int| order.to_set().contains(x) implies range.contains(x) by {
        let i = choose|i: int| 0 <= i < order.len() && order[i] == x;
        assert(0 <= order[i] < data.len());
    }
    lemma_subset_equality(order.to_set(), range);
    assert(range.contains(k));
    assert(order.to_set().contains(k));
}

/// Two stable rankings that agree on their first `i` positions agree on position `i`.
proof fn lemma_orders_agree_at(
    data: Seq<ChartData>,
    ranked1: Seq<ChartData>,
    order1: Seq<int>,
    ranked2: Seq<ChartData>,
    order2: Seq<int>,
    i: int,
)
    requires
        is_stable_ranking(data, ranked1, order1),
        is_stable_ranking(data, ranked2, order2),
        0 <= i < data.len(),
        forall|k: int| 0 <= k < i ==> order1[k] == order2[k],
    ensures
        order1[i] == order2[i],
{
    let a = order1[i];
    let b = order2[i];
    if a != b {
        lemma_order_covers(data, ranked2, order2, a);
        let j = choose|j: int| 0 <= j < order2.len() && order2[j] == a;
        if j < i {
            assert(order1[j] == a);
            assert(false);
        }
        assert(ranked2[j] == data[a] && ranked2[i] == data[b]);
        assert(rank_key(ranked2[j]) <= rank_key(ranked2[i]));
        lemma_order_covers(data, ranked1, order1, b);
        let j1 = choose|j1: int| 0 <= j1 < order1.len() && order1[j1] == b;
        if j1 < i {
            assert(order2[j1] == b);
            assert(false);
        }
        assert(ranked1[j1] == data[b] && ranked1[i] == data[a]);
        assert(rank_key(ranked1[j1]) <= rank_key(ranked1[i]));
        assert(order2[i] < order2[j]);
        assert(order1[i] < order1[j1]);
    }
}

/// Two stable rankings of the same list agree on their first `i` positions.
proof fn lemma_orders_agree_upto(
    data: Seq<ChartData>,
    ranked1: Seq<ChartData>,
    order1: Seq<int>,
    ranked2: Seq<ChartData>,
    order2: Seq<int>,
    i: int,
)
    requires
        is_stable_ranking(data, ranked1, order1),
        is_stable_ranking(data, ranked2, order2),
        0 <= i <= data.len(),
    ensures
        forall|k: int| 0 <= k < i ==> order1[k] == order2[k],
    decreases i,
{
    if i > 0 {
        lemma_orders_agree_upto(data, ranked1, order1, ranked2, order2, i - 1);
        lemma_orders_agree_at(data, ranked1, order1, ranked2, order2, i - 1);
    }
}

/// The stable ranking of a list is unique: any two rankings that meet
/// [`is_stable_ranking`] order the entries alike, so [`Chart::new`] has one possible
/// result for each input.
pub proof fn lemma_stable_ranking_unique(
    data: Seq<ChartData>,
    ranked1: Seq<ChartData>,
    order1: Seq<int>,
    ranked2: Seq<ChartData>,
    order2: Seq<int>,
)
    requires
        is_stable_ranking(data, ranked1, order1),
        is_stable_ranking(data, ranked2, order2),
    ensures
        order1 == order2,
        ranked1 == ranked2,
{
    lemma_orders_agree_upto(data, ranked1, order1, ranked2, order2, data.len() as int);
    assert(order1 =~= order2);
    assert forall|k: int| 0 <= k < ranked1.len() implies ranked1[k] == ranked2[k] by {
        assert(ranked1[k] == data[order1[k]]);
        assert(ranked2[k] == data[order2[k]]);
    }
    assert(ranked1 =~= ranked2);
}

impl Chart {
    /// Ranks the entries by raw rating, highest first (entries with equal raw ratings
    /// keep their order), and keeps the first twenty.
    pub fn new(timeframe: Timeframe, data: Vec<ChartData>) -> (r: Self)
        ensures
            r.timeframe == timeframe,
            exists|ranked: Seq<ChartData>, order: Seq<int>|
                is_stable_ranking(data@, ranked, order) && r.chart_data@ == chart_prefix(ranked),
            r.chart_data@.len() == if data@.len() <= CHART_LENGTH { data@.len() } else { CHART_LENGTH as nat },
            forall|i: int, j: int| 0 <= i < j < r.chart_data@.len() ==>
                (#[trigger] r.chart_data@[j]).raw_rating.order_key <= (#[trigger] r.chart_data@[i]).raw_rating.order_key,
    {
        let ghost input = data@;
        let mut chart_data = rank_stable(data);
        let ghost ranked = chart_data@;
        proof {
            let order = choose|order: Seq<int>| is_stable_ranking(input, ranked, order);
            lemma_ranked_by_raw_rating(input, ranked, order);
        }
        if chart_data.len() > CHART_LENGTH {
            chart_data.truncate(CHART_LENGTH);
        }
        assert(chart_data@ == chart_prefix(ranked));
        assert forall|i: int, j: int| 0 <= i < j < chart_data@.len() implies
            (#[trigger] chart_data@[j]).raw_rating.order_key <= (#[trigger] chart_data@[i]).raw_rating.order_key by {
            assert(chart_data@[i] == ranked[i] && chart_data@[j] == ranked[j]);
        }
        Chart { timeframe, chart_data }
    }
}

/// `p` is the wire form of the chart entry `d`.
pub open spec fn is_dto_of(p: pb::ChartData, d: ChartData) -> bool {
    &&& p.raw_rating == d.raw_rating
    &&& p.rating matches Some(pr)
    &&& pr.snap_id@ == d.rating.snap_id@
    &&& pr.total_votes == d.rating.total_votes
    &&& pr.ratings_band == band_number(band_to_pb(d.rating.ratings_band))
}

/// A wire chart entry that is the wire form of an entry carries that entry's raw rating,
/// and its rating: the same snap id, the same vote count, and the protocol's number for
/// the same band.
pub proof fn lemma_dto_carries_entry(p: pb::ChartData, d: ChartData)
    requires
        is_dto_of(p, d),
    ensures
        p.raw_rating == d.raw_rating,
        p.rating is Some,
        p.rating->Some_0.snap_id@ == d.rating.snap_id@,
        p.rating->Some_0.total_votes == d.rating.total_votes,
        p.rating->Some_0.ratings_band == band_number(band_to_pb(d.rating.ratings_band)),
{
}

impl ChartData {
    /// Converts this into its protobuf version for wire transfer.
    pub fn into_dto(self) -> (r: pb::ChartData)
        ensures
            is_dto_of(r, self),
            r.raw_rating == self.raw_rating,
            r.rating matches Some(pr) && pr.snap_id@ == self.rating.snap_id@
                && pr.total_votes == self.rating.total_votes
                && pr.ratings_band == band_number(band_to_pb(self.rating.ratings_band)),
    {
        pb::ChartData { raw_rating: self.raw_rating, rating: Some(self.rating.into_protobuf_rating()) }
    }
}

} // verus!
