use illuvi_analytics::site::events_table::{event_label, event_types, events_url, filter_label, select_event, EventsFilter};
use illuvi_analytics::site::layout::{flip_card_class, grid_rows, next_flip_class, render_border_end, TRADE_CARD_CLASS, VOLUME_CARD_CLASS};
use illuvi_analytics::site::views::{is_listed, shows_landmark, shows_token_column, stats_has_data, total_count, vitals_has_data};
use illuvi_analytics::site::routes::{api_path, asset_path, land_icon_url, mints_page_path};
use illuvi_analytics::site::search::{dropdown_class, results_view, search_step, ResultsView, SearchBox, SearchEvent};

#[test]
fn event_types_start_with_all() {
    let types = event_types();
    assert_eq!(types.len(), 9);
    assert_eq!(types[0], "All");
    assert_eq!(types[4], "Trade active");
    assert_eq!(types[8], "Withdrawal");
}

#[test]
fn events_url_names_page_and_event_type() {
    let types = event_types();
    assert_eq!(events_url("/wallet/events?wallet=0x1", 2, &types, 3), "/wallet/events?wallet=0x1&page=2&event=Mint");
    assert_eq!(events_url("/x?y=1", 1, &types, 42), "/x?y=1&page=1&event=All");
    assert_eq!(event_label(&types, 6), "Trade filled");
}

#[test]
fn filter_label_names_the_chosen_filter() {
    let types = event_types();
    assert_eq!(filter_label(&types, 0), "Event Type");
    assert_eq!(filter_label(&types, 7), "Transfer");
    assert_eq!(filter_label(&types, 9), "");
}

#[test]
fn choosing_another_filter_restarts_from_page_one() {
    let f = select_event(EventsFilter { event_index: 0, page: 5 }, 3);
    assert_eq!((f.event_index, f.page), (3, 1));
    let g = select_event(EventsFilter { event_index: 3, page: 5 }, 3);
    assert_eq!((g.event_index, g.page), (3, 5));
}

#[test]
fn grid_rows_chunk_the_first_items() {
    assert_eq!(grid_rows(10, 4, 100), vec![(0, 4), (4, 8), (8, 10)]);
    assert_eq!(grid_rows(250, 4, 100).len(), 25);
    assert_eq!(grid_rows(250, 4, 100)[24], (96, 100));
    assert_eq!(grid_rows(0, 5, 100), vec![]);
    assert_eq!(grid_rows(5, 5, 100), vec![(0, 5)]);
}

#[test]
fn grid_rows_agree_with_chunks() {
    let items: Vec<usize> = (0..23).collect();
    let shown: Vec<&usize> = items.iter().take(17).collect();
    let expected: Vec<(usize, usize)> = shown.chunks(5).map(|c| (*c[0], *c[c.len() - 1] + 1)).collect();
    assert_eq!(grid_rows(23, 5, 17), expected);
}

#[test]
fn border_end_on_all_but_the_last_card() {
    assert!(render_border_end(0, 3));
    assert!(render_border_end(1, 3));
    assert!(!render_border_end(2, 3));
    assert!(!render_border_end(0, 1));
}

#[test]
fn flip_class_toggles() {
    assert_eq!(next_flip_class(""), "flipped");
    assert_eq!(next_flip_class("flipped"), "");
}

#[test]
fn routes_are_written_like_format() {
    assert_eq!(asset_path("0xabc", 77), "/asset/asset?token_address=0xabc&token_id=77");
    assert_eq!(mints_page_path("0xabc", 3), "/mint/mints?token_address=0xabc&page=3");
    assert_eq!(land_icon_url(12), "https://assets.illuvium-game.io/illuvidex/land/land-12.svg");
    assert_eq!(api_path("/stat/stats?token_address=", "0xabc"), "/stat/stats?token_address=0xabc");
}

fn idle() -> SearchBox {
    SearchBox { search: String::new(), typed: false, results: None }
}

#[test]
fn typing_waits_for_the_debounce_before_searching() {
    let (s, fx) = search_step(idle(), SearchEvent::Input("land".to_string()));
    assert!(s.typed);
    assert_eq!(fx.fetch, None);
    assert_eq!(fx.debounce, Some("land".to_string()));
    let (s, fx) = search_step(s, SearchEvent::DebounceElapsed("land".to_string()));
    assert_eq!(s.search, "land");
    assert_eq!(fx.fetch, Some("/search?search=land".to_string()));
    let (s, fx) = search_step(s, SearchEvent::Found(3));
    assert_eq!(s.results, Some(3));
    assert_eq!(fx.fetch, None);
}

#[test]
fn clearing_the_box_hides_the_dropdown() {
    let start = SearchBox { search: "land".to_string(), typed: true, results: Some(2) };
    let (s, fx) = search_step(start, SearchEvent::Input(String::new()));
    assert!(!s.typed);
    assert_eq!(s.results, None);
    assert_eq!(fx.debounce, None);
    assert_eq!(fx.fetch, Some("/search?search=land".to_string()));
}

#[test]
fn focus_events_show_and_hide_the_dropdown() {
    let (s, fx) = search_step(idle(), SearchEvent::FocusIn("42".to_string()));
    assert!(s.typed);
    assert_eq!(fx.fetch, Some("/search?search=42".to_string()));
    let (s, fx) = search_step(s, SearchEvent::FocusOut);
    assert!(fx.hide_later);
    assert!(s.typed);
    let (s, _) = search_step(s, SearchEvent::HideElapsed);
    assert!(!s.typed);
    let (s, fx) = search_step(idle(), SearchEvent::FocusIn(String::new()));
    assert!(!s.typed);
    assert_eq!(fx.fetch, None);
}

#[test]
fn clicking_a_result_closes_the_dropdown() {
    let start = SearchBox { search: "a".to_string(), typed: true, results: Some(1) };
    let (s, _) = search_step(start, SearchEvent::ResultClicked);
    assert!(!s.typed);
    assert_eq!(s.results, None);
}

#[test]
fn dropdown_shows_spinner_note_or_list() {
    assert!(matches!(results_view(None), ResultsView::Loading));
    assert!(matches!(results_view(Some(0)), ResultsView::NoResults));
    assert!(matches!(results_view(Some(4)), ResultsView::Listed));
    assert_eq!(dropdown_class(true), "show");
    assert_eq!(dropdown_class(false), "hide");
}

#[test]
fn clicks_alternate_the_flip_card() {
    let mut flip = String::from("flipped");
    for n in 1..=6 {
        flip = next_flip_class(&flip);
        let expected = if n % 2 == 0 { "flipped" } else { "" };
        assert_eq!(flip, expected);
        assert_eq!(flip_card_class(TRADE_CARD_CLASS, &flip), format!("card p-0 {}", expected));
        assert_eq!(flip_card_class(VOLUME_CARD_CLASS, &flip), format!("card bg-pink p-0 {}", expected));
    }
    assert_eq!(next_flip_class(&next_flip_class("")), "");
}

#[test]
fn optional_parts_of_the_views() {
    assert!(!shows_landmark("None"));
    assert!(shows_landmark("Lake"));
    assert!(shows_landmark("none"));
    assert!(is_listed(Some(3)));
    assert!(!is_listed(None));
    assert!(shows_token_column(&vec![true, false]));
    assert!(!shows_token_column(&vec![false, true]));
    assert!(!shows_token_column(&vec![]));
    assert!(!stats_has_data(0));
    assert!(stats_has_data(20000));
    assert!(!vitals_has_data(0));
    assert!(vitals_has_data(2));
}

#[test]
fn totals_add_the_counts() {
    assert_eq!(total_count(&vec![3, 4, 5]), 12);
    assert_eq!(total_count(&vec![]), 0);
    assert_eq!(total_count(&vec![i64::MAX, i64::MAX]), 2 * (i64::MAX as i128));
}
