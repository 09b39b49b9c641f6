use illuvi_analytics::api_reader::api_utils::fetch_and_get_result;
use illuvi_analytics::api_reader::orders_reader::{order_url, orders_url, ORDERS_URL};
use illuvi_analytics::api_reader::utils::{execute_and_get_cursor, page_url};
use illuvi_analytics::model::shared::PaginatedApi;
use illuvi_analytics::model::trade::{Buyer, Seller, TheResult, Trade};

fn trade_page(n: usize, cursor: &str) -> Trade {
    let mut result = Vec::new();
    for i in 0..n {
        result.push(TheResult { buyer: Buyer { order_id: i as i32 }, seller: Seller { order_id: 100 + i as i32 } });
    }
    Trade { result, cursor: cursor.to_string() }
}

#[test]
fn trade_page_reports_cursor_and_results() {
    let page = trade_page(2, "abc");
    assert_eq!(page.get_cursor(), "abc");
    assert!(page.has_results());
    let empty = trade_page(0, "");
    assert_eq!(empty.get_cursor(), "");
    assert!(!empty.has_results());
}

#[test]
fn page_url_adds_the_cursor_parameter() {
    assert_eq!(page_url("https://x/v1/mints?a=1", &None), "https://x/v1/mints?a=1");
    assert_eq!(page_url("https://x/v1/mints?a=1", &Some("eyJ".to_string())), "https://x/v1/mints?a=1&cursor=eyJ");
}

#[test]
fn a_page_with_results_and_cursor_is_persisted_and_paging_goes_on() {
    let step = execute_and_get_cursor(&Some(trade_page(3, "next")));
    assert!(step.persist);
    assert_eq!(step.next_cursor, Some("next".to_string()));
}

#[test]
fn an_empty_cursor_ends_paging_after_persisting() {
    let step = execute_and_get_cursor(&Some(trade_page(1, "")));
    assert!(step.persist);
    assert_eq!(step.next_cursor, None);
}

#[test]
fn an_empty_page_is_not_persisted() {
    let step = execute_and_get_cursor(&Some(trade_page(0, "more")));
    assert!(!step.persist);
    assert_eq!(step.next_cursor, Some("more".to_string()));
}

#[test]
fn an_unreadable_response_ends_paging() {
    let step = execute_and_get_cursor::<Trade>(&None);
    assert!(!step.persist);
    assert_eq!(step.next_cursor, None);
}

#[test]
fn fetch_and_get_result_keeps_pages_with_a_cursor() {
    let kept = fetch_and_get_result(Some(trade_page(1, "c")));
    assert_eq!(kept.map(|p| p.cursor), Some("c".to_string()));
    assert!(fetch_and_get_result(Some(trade_page(1, ""))).is_none());
    assert!(fetch_and_get_result::<Trade>(None).is_none());
}

#[test]
fn orders_url_falls_back_to_the_fixed_time() {
    assert_eq!(orders_url(None), Some(format!("{}2000-01-12T02:00:00Z", ORDERS_URL)));
}

#[test]
fn orders_url_writes_the_last_update_time() {
    // 2021-12-01T10:00:00Z
    assert_eq!(orders_url(Some((1638352800, 0))), Some(format!("{}2021-12-01T10:00:00Z", ORDERS_URL)));
    // nanoseconds are not written
    assert_eq!(orders_url(Some((1638352800, 500_000_000))), Some(format!("{}2021-12-01T10:00:00Z", ORDERS_URL)));
}

#[test]
fn orders_url_refuses_times_out_of_range() {
    assert_eq!(orders_url(Some((i64::MAX, 0))), None);
}

#[test]
fn order_url_appends_the_order_id() {
    assert_eq!(order_url(123), "https://api.x.immutable.com/v1/orders/123");
    assert_eq!(order_url(-5), "https://api.x.immutable.com/v1/orders/-5");
}

/// Runs both paging loops' decisions over one run of responses and returns
/// which requested pages each persists.
fn persisted_by_both(responses: Vec<Option<Trade>>) -> (Vec<bool>, Vec<bool>) {
    let mut by_cursor = Vec::new();
    for r in &responses {
        let step = execute_and_get_cursor(r);
        by_cursor.push(step.persist);
        if step.next_cursor.is_none() {
            break;
        }
    }
    let mut by_kept = Vec::new();
    for r in responses {
        match fetch_and_get_result(r) {
            None => break,
            Some(page) => by_kept.push(page.has_results()),
        }
    }
    (by_cursor, by_kept)
}

#[test]
fn the_two_paging_loops_differ_in_the_last_page() {
    let run = vec![Some(trade_page(2, "a")), Some(trade_page(0, "b")), Some(trade_page(1, "")), Some(trade_page(5, "z"))];
    let (a, b) = persisted_by_both(run);
    assert_eq!(a, vec![true, false, true]);
    assert_eq!(b, vec![true, false]);
    let run = vec![Some(trade_page(2, "a")), None];
    let (a, b) = persisted_by_both(run);
    assert_eq!(a, vec![true, false]);
    assert_eq!(b, vec![true]);
}
