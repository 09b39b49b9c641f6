//! The events table: the event type filter and the request for a page of
//! events.

use vstd::prelude::*;
use crate::text::{decimal_text, int_text};

verus! {

/// The event type filters, `All` first.
pub fn event_types() -> (r: Vec<String>)
    ensures
        r@.len() == 9,
        r@[0]@ == "All"@,
        r@[1]@ == "Burned"@,
        r@[2]@ == "Deposit"@,
        r@[3]@ == "Mint"@,
        r@[4]@ == "Trade active"@,
        r@[5]@ == "Trade cancelled"@,
        r@[6]@ == "Trade filled"@,
        r@[7]@ == "Transfer"@,
        r@[8]@ == "Withdrawal"@,
{
    let mut r: Vec<String> = Vec::new();
    r.push(String::from_str("All"));
    r.push(String::from_str("Burned"));
    r.push(String::from_str("Deposit"));
    r.push(String::from_str("Mint"));
    r.push(String::from_str("Trade active"));
    r.push(String::from_str("Trade cancelled"));
    r.push(String::from_str("Trade filled"));
    r.push(String::from_str("Transfer"));
    r.push(String::from_str("Withdrawal"));
    r
}

/// The event type that the request asks for: the selected filter, or `All`
/// when the index is past the filters.
pub open spec fn requested_event(event_types: Seq<String>, event_index: int) -> Seq<char> {
    if 0 <= event_index < event_types.len() {
        event_types[event_index]@
    } else {
        "All"@
    }
}

/// The event type that the request for the filter `event_index` asks for.
pub fn event_label(event_types: &Vec<String>, event_index: usize) -> (r: String)
    ensures
        r@ == requested_event(event_types@, event_index as int),
        event_index < event_types@.len() ==> r@ == event_types@[event_index as int]@,
        event_index >= event_types@.len() ==> r@ == "All"@,
{
    if event_index < event_types.len() {
        event_types[event_index].clone()
    } else {
        String::from_str("All")
    }
}

/// The request for page `page` of the events at `url` under the filter
/// `event_index`: `{url}&page={page}&event={event type}`.
pub fn events_url(url: &str, page: i32, event_types: &Vec<String>, event_index: usize) -> (r: String)
    ensures
        r@ == url@ + "&page="@ + int_text(page as int) + "&event="@ + requested_event(
            event_types@,
            event_index as int,
        ),
        event_index < event_types@.len() ==> r@ == url@ + "&page="@ + int_text(page as int)
            + "&event="@ + event_types@[event_index as int]@,
        event_index >= event_types@.len() ==> r@ == url@ + "&page="@ + int_text(page as int)
            + "&event="@ + "All"@,
{
    let number = decimal_text(page);
    let label = event_label(event_types, event_index);
    String::from_str(url).concat("&page=").concat(number.as_str()).concat("&event=").concat(
        label.as_str(),
    )
}

/// The caption of the filter button: `Event Type` while no filter is chosen,
/// else the chosen filter (empty past the filters).
pub fn filter_label(event_types: &Vec<String>, event_index: usize) -> (r: String)
    ensures
        event_index == 0 ==> r@ == "Event Type"@,
        0 < event_index < event_types@.len() ==> r@ == event_types@[event_index as int]@,
        event_index >= event_types@.len() && event_index != 0 ==> r@ == ""@,
{
    if event_index == 0 {
        String::from_str("Event Type")
    } else if event_index < event_types.len() {
        event_types[event_index].clone()
    } else {
        String::from_str("")
    }
}

/// The chosen event filter and the page shown under it.
pub struct EventsFilter {
    pub event_index: usize,
    pub page: i32,
}

/// The filter and page after choosing the filter `chosen`.
pub open spec fn selected(filter: EventsFilter, chosen: usize) -> EventsFilter {
    if filter.event_index != chosen {
        EventsFilter { event_index: chosen, page: 1 }
    } else {
        filter
    }
}

/// Chooses the filter `chosen`: a different filter starts again from page 1;
/// choosing the current filter changes nothing.
pub fn select_event(filter: EventsFilter, chosen: usize) -> (r: EventsFilter)
    ensures
        r == selected(filter, chosen),
        r.event_index == chosen,
        filter.event_index != chosen ==> r.page == 1,
        filter.event_index == chosen ==> r == filter,
{
    if filter.event_index != chosen {
        EventsFilter { event_index: chosen, page: 1 }
    } else {
        filter
    }
}

/// Choosing a filter shows it, from page 1 unless it was already chosen, and
/// choosing the same filter again changes nothing.
pub proof fn lemma_select_event(filter: EventsFilter, chosen: usize)
    ensures
        selected(filter, chosen).event_index == chosen,
        filter.event_index != chosen ==> selected(filter, chosen).page == 1,
        filter.event_index == chosen ==> selected(filter, chosen) == filter,
        selected(selected(filter, chosen), chosen) == selected(filter, chosen),
{
}

/// Every filter in the list requests its own event type, the last one
/// included; only an index past the list requests `All`.
pub proof fn lemma_each_filter_requests_its_type(event_types: Seq<String>, event_index: int)
    ensures
        0 <= event_index < event_types.len() ==> requested_event(event_types, event_index)
            == event_types[event_index]@,
        event_index >= event_types.len() ==> requested_event(event_types, event_index) == "All"@,
{
}

} // verus!
