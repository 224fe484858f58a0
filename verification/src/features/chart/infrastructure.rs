//! The query that gathers the vote summaries a chart is built from.
use vstd::prelude::*;
use crate::features::pb::chart::Timeframe;

verus! {

/// The select list and source of the vote summary query.
pub const SUMMARY_SELECT: &'static str = "\n    SELECT\n        votes.snap_id,\n        COUNT(*) AS total_votes,\n        COUNT(*) FILTER (WHERE votes.vote_up) AS positive_votes\n    FROM\n        votes";
/// The restriction to the last week.
pub const WEEK_FILTER: &'static str = " WHERE votes.created >= NOW() - INTERVAL '1 week'";
/// The restriction to the last month.
pub const MONTH_FILTER: &'static str = " WHERE votes.created >= NOW() - INTERVAL '1 month'";
/// The keyword that opens the category restriction when no timeframe restriction precedes it.
pub const CATEGORY_ONLY: &'static str = " \n                WHERE";
/// The keyword that joins the category restriction to a timeframe restriction.
pub const CATEGORY_AND: &'static str = " \n                AND";
/// The restriction to the snaps of one category, up to its bound parameter.
pub const CATEGORY_FILTER: &'static str = " votes.snap_id IN (\n                    SELECT snap_categories.snap_id FROM snap_categories \n                    WHERE snap_categories.category = ";
/// The placeholder of the query's first bound parameter.
pub const FIRST_PARAMETER: &'static str = "$1";
/// The end of the category restriction.
pub const CATEGORY_FILTER_END: &'static str = ")";
/// The grouping into one row per snap.
pub const GROUP_BY_SNAP: &'static str = " GROUP BY votes.snap_id";

/// The vote summary query, ready to run: its text and the value bound to its parameter.
pub struct VotesSummaryQuery {
    pub sql: String,
    pub category: Option<String>,
}

/// The restriction of the query to a timeframe.
pub open spec fn timeframe_filter(timeframe: Timeframe) -> Seq<char> {
    match timeframe {
        Timeframe::Week => WEEK_FILTER@,
        Timeframe::Month => MONTH_FILTER@,
        Timeframe::Unspecified => Seq::empty(),
    }
}

/// The keyword before the category restriction: `WHERE` when it is the only restriction,
/// `AND` after a timeframe restriction, so that the query has a single `WHERE` clause.
pub open spec fn category_keyword(timeframe: Timeframe) -> Seq<char> {
    match timeframe {
        Timeframe::Unspecified => CATEGORY_ONLY@,
        _ => CATEGORY_AND@,
    }
}

/// The text of the vote summary query over `timeframe`, restricted to one category when
/// `by_category` holds; both restrictions hold together when both are asked for.
pub open spec fn votes_summary_sql(timeframe: Timeframe, by_category: bool) -> Seq<char> {
    SUMMARY_SELECT@ + timeframe_filter(timeframe) + (if by_category {
        category_keyword(timeframe) + CATEGORY_FILTER@ + FIRST_PARAMETER@ + CATEGORY_FILTER_END@
    } else {
        Seq::empty()
    }) + GROUP_BY_SNAP@
}

/// The query always restricts the votes to its timeframe, whether or not it is also
/// restricted to a category: over a week or a month it opens with the select list and
/// that timeframe's restriction, and over no particular timeframe it counts every vote
/// (and, with no category, is just the select list and the grouping). Either way it groups
/// by snap at the end.
pub proof fn lemma_summary_query_keeps_timeframe(timeframe: Timeframe, by_category: bool)
    ensures
        timeframe == Timeframe::Week ==> votes_summary_sql(timeframe, by_category).take(
            (SUMMARY_SELECT@.len() + WEEK_FILTER@.len()) as int) == SUMMARY_SELECT@ + WEEK_FILTER@,
        timeframe == Timeframe::Month ==> votes_summary_sql(timeframe, by_category).take(
            (SUMMARY_SELECT@.len() + MONTH_FILTER@.len()) as int) == SUMMARY_SELECT@ + MONTH_FILTER@,
        timeframe == Timeframe::Unspecified && !by_category ==> votes_summary_sql(timeframe, by_category)
            == SUMMARY_SELECT@ + GROUP_BY_SNAP@,
        votes_summary_sql(timeframe, by_category).take(votes_summary_sql(timeframe, false).len() - GROUP_BY_SNAP@.len())
            == votes_summary_sql(timeframe, false).take(votes_summary_sql(timeframe, false).len() - GROUP_BY_SNAP@.len()),
        votes_summary_sql(timeframe, by_category).skip(votes_summary_sql(timeframe, by_category).len() - GROUP_BY_SNAP@.len())
            == GROUP_BY_SNAP@,
{
    let head = SUMMARY_SELECT@ + timeframe_filter(timeframe);
    let cat: Seq<char> = if by_category {
        category_keyword(timeframe) + CATEGORY_FILTER@ + FIRST_PARAMETER@ + CATEGORY_FILTER_END@
    } else {
        Seq::empty()
    };
    let full = votes_summary_sql(timeframe, by_category);
    assert(full == head + cat + GROUP_BY_SNAP@);
    assert(votes_summary_sql(timeframe, false) =~= head + GROUP_BY_SNAP@);
    assert(full.take(head.len() as int) =~= head);
    assert(full.skip(full.len() - GROUP_BY_SNAP@.len()) =~= GROUP_BY_SNAP@);
    if timeframe == Timeframe::Unspecified && !by_category {
        assert(full =~= SUMMARY_SELECT@ + GROUP_BY_SNAP@);
    }
}

/// Builds the query that summarizes votes per snap over `timeframe`, restricted to the snaps
/// of `category` (by its kebab-case name) when one is given.
pub fn votes_summary_query(timeframe: Timeframe, category: Option<String>) -> (r: VotesSummaryQuery)
    ensures
        r.sql@ == votes_summary_sql(timeframe, category is Some),
        r.category == category,
{
    let mut sql = String::from_str(SUMMARY_SELECT);
    match timeframe {
        Timeframe::Week => sql.append(WEEK_FILTER),
        Timeframe::Month => sql.append(MONTH_FILTER),
        Timeframe::Unspecified => {},
    }
    assert(sql@ == SUMMARY_SELECT@ + timeframe_filter(timeframe));
    let ghost before = sql@;
    if category.is_some() {
        match timeframe {
            Timeframe::Unspecified => sql.append(CATEGORY_ONLY),
            _ => sql.append(CATEGORY_AND),
        }
        sql.append(CATEGORY_FILTER);
        sql.append(FIRST_PARAMETER);
        sql.append(CATEGORY_FILTER_END);
        assert(sql@ == before + (category_keyword(timeframe) + CATEGORY_FILTER@ + FIRST_PARAMETER@ + CATEGORY_FILTER_END@));
    } else {
        assert(sql@ == before + Seq::<char>::empty());
    }
    sql.append(GROUP_BY_SNAP);
    VotesSummaryQuery { sql, category }
}

} // verus!
