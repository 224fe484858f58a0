use ratings::features::chart::entities::{Chart, ChartData};
use ratings::features::chart::errors::ChartError;
use ratings::features::chart::infrastructure::votes_summary_query;
use ratings::features::chart::service::{build_service, ChartService};
use ratings::features::chart::use_cases::get_chart;
use ratings::features::common::entities::{Rating, RatingsBand};
use ratings::features::pb::chart::{RawRating, Timeframe};
use ratings::status::Code;

fn entry(name: &str, key: u32) -> ChartData {
    ChartData {
        raw_rating: RawRating { order_key: key },
        rating: Rating { snap_id: name.to_string(), total_votes: key as u64, ratings_band: RatingsBand::Good },
    }
}

fn names(chart: &Chart) -> Vec<String> {
    chart.chart_data.iter().map(|d| d.rating.snap_id.clone()).collect()
}

#[test]
fn chart_ranks_best_first_and_keeps_ties_in_order() {
    let data = vec![entry("a", 3), entry("b", 9), entry("c", 3), entry("d", 5), entry("e", 9)];
    let chart = Chart::new(Timeframe::Week, data);
    assert_eq!(chart.timeframe, Timeframe::Week);
    assert_eq!(names(&chart), vec!["b", "e", "d", "a", "c"]);
}

#[test]
fn chart_keeps_twenty() {
    let data: Vec<ChartData> = (0..30u32).map(|i| entry(&format!("s{i}"), i % 7)).collect();
    let chart = Chart::new(Timeframe::Month, data);
    assert_eq!(chart.chart_data.len(), 20);
    let keys: Vec<u32> = chart.chart_data.iter().map(|d| d.raw_rating.order_key).collect();
    let mut sorted = keys.clone();
    sorted.sort_by(|a, b| b.cmp(a));
    assert_eq!(keys, sorted);
    assert_eq!(names(&chart)[0..4], ["s6", "s13", "s20", "s27"]);
    let empty = Chart::new(Timeframe::Unspecified, Vec::new());
    assert!(empty.chart_data.is_empty());
}

#[test]
fn chart_timeframes_from_requests() {
    assert_eq!(ChartService::get_chart_timeframe(0), Timeframe::Unspecified);
    assert_eq!(ChartService::get_chart_timeframe(1), Timeframe::Week);
    assert_eq!(ChartService::get_chart_timeframe(2), Timeframe::Month);
    assert_eq!(ChartService::get_chart_timeframe(3), Timeframe::Unspecified);
    assert_eq!(ChartService::get_chart_timeframe(-1), Timeframe::Unspecified);
    assert_eq!(Timeframe::Month.to_i32(), 2);
}

#[test]
fn chart_replies() {
    let chart = Chart::new(Timeframe::Week, vec![entry("x", 1), entry("y", 2)]);
    let reply = ChartService::get_chart_reply(Timeframe::Week, Ok(chart)).ok().unwrap();
    assert_eq!(reply.timeframe, 1);
    let got: Vec<String> = reply.ordered_chart_data.iter().map(|d| d.rating.as_ref().unwrap().snap_id.clone()).collect();
    assert_eq!(got, vec!["y", "x"]);
    assert_eq!(reply.ordered_chart_data[0].raw_rating.order_key, 2);
    assert_eq!(reply.ordered_chart_data[0].rating.as_ref().unwrap().ratings_band, 1);
    let not_found = ChartService::get_chart_reply(Timeframe::Week, Err(ChartError::NotFound)).err().unwrap();
    assert_eq!(not_found.code, Code::NotFound);
    assert_eq!(not_found.message, "Cannot find data for given timeframe.");
    let other = ChartService::get_chart_reply(Timeframe::Week, Err(ChartError::FailedToGetChart)).err().unwrap();
    assert_eq!(other.code, Code::Unknown);
    assert_eq!(other.message, "Internal server error");
}

#[test]
fn votes_summary_query_text() {
    let base = "\n    SELECT\n        votes.snap_id,\n        COUNT(*) AS total_votes,\n        COUNT(*) FILTER (WHERE votes.vote_up) AS positive_votes\n    FROM\n        votes";
    let q = votes_summary_query(Timeframe::Unspecified, None);
    assert_eq!(q.sql, format!("{base} GROUP BY votes.snap_id"));
    assert_eq!(q.category, None);
    let q = votes_summary_query(Timeframe::Week, None);
    assert_eq!(q.sql, format!("{base} WHERE votes.created >= NOW() - INTERVAL '1 week' GROUP BY votes.snap_id"));
    let q = votes_summary_query(Timeframe::Month, Some("games".to_string()));
    assert_eq!(
        q.sql,
        format!("{base} WHERE votes.created >= NOW() - INTERVAL '1 month' \n                AND votes.snap_id IN (\n                    SELECT snap_categories.snap_id FROM snap_categories \n                    WHERE snap_categories.category = $1) GROUP BY votes.snap_id")
    );
    assert_eq!(q.category.as_deref(), Some("games"));
    assert_eq!(q.sql.matches(" \n                WHERE").count(), 0);
    let q = votes_summary_query(Timeframe::Unspecified, Some("games".to_string()));
    assert_eq!(
        q.sql,
        format!("{base} \n                WHERE votes.snap_id IN (\n                    SELECT snap_categories.snap_id FROM snap_categories \n                    WHERE snap_categories.category = $1) GROUP BY votes.snap_id")
    );
}

#[test]
fn chart_errors_and_servers() {
    assert_eq!(ChartError::FailedToGetChart.message(), "failed to get chart for timeframe");
    assert_eq!(ChartError::NotFound.message(), "could not find data for given timeframe");
    assert_eq!(ChartError::Unknown.message(), "unknown chart error");
    let server = ChartService.to_server();
    assert!(server.max_encoding_message_size.is_none());
    let built = build_service();
    assert!(built.max_decoding_message_size.is_none());
    assert!(ChartService::PUBLIC_PATHS.is_empty());
}

#[test]
fn charts_from_read_outcomes() {
    let chart = get_chart::<()>(Timeframe::Week, Ok(vec![entry("low", 1), entry("high", 9)])).ok().unwrap();
    assert_eq!(names(&chart), vec!["high".to_string(), "low".to_string()]);
    assert!(matches!(get_chart::<()>(Timeframe::Week, Ok(Vec::new())), Err(ChartError::NotFound)));
    assert!(matches!(get_chart(Timeframe::Month, Err(())), Err(ChartError::Unknown)));
    let reply = ChartService::get_chart_reply(Timeframe::Week, get_chart::<()>(Timeframe::Week, Ok(Vec::new())));
    let e = reply.err().unwrap();
    assert_eq!((e.code, e.message.as_str()), (Code::NotFound, "Cannot find data for given timeframe."));
}
