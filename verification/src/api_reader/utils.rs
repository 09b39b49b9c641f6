//! Paging through a cursor-paginated endpoint while persisting each page.

use vstd::prelude::*;
use crate::api_reader::api_utils::kept_page;
use crate::model::shared::PaginatedApi;

verus! {

/// The query parameter that carries the cursor of the next page.
pub open spec fn cursor_param() -> Seq<char> {
    seq!['&', 'c', 'u', 'r', 's', 'o', 'r', '=']
}

/// The URL of a request: the endpoint's URL, followed by the cursor parameter
/// when there is a cursor.
pub open spec fn page_url_of(url: Seq<char>, cursor: Option<Seq<char>>) -> Seq<char> {
    match cursor {
        Some(c) => url + cursor_param() + c,
        None => url,
    }
}

/// The view of an optional string.
pub open spec fn text_of(s: Option<String>) -> Option<Seq<char>> {
    match s {
        Some(t) => Some(t@),
        None => None,
    }
}

/// The URL to request for the page that `cursor` points to; the first page is
/// requested without a cursor.
pub fn page_url(url: &str, cursor: &Option<String>) -> (r: String)
    ensures
        r@ == page_url_of(url@, text_of(*cursor)),
        cursor.is_none() ==> r@ == url@,
        cursor matches Some(c) ==> r@ == url@ + "&cursor="@ + c@,
{
    proof {
        reveal_strlit("&cursor=");
    }
    match cursor {
        Some(c) => {
            let r = String::from_str(url).concat("&cursor=").concat(c.as_str());
            assert("&cursor="@ =~= cursor_param());
            r
        },
        None => String::from_str(url),
    }
}

/// What to do after a page was requested: whether to persist it, and the
/// cursor of the next request (`None` ends the paging).
pub struct PageStep {
    pub persist: bool,
    pub next_cursor: Option<String>,
}

/// Whether the page read from a response (`None` when the response could not
/// be read) is persisted: exactly when it was read and holds records.
pub open spec fn persists<T: PaginatedApi>(response: Option<T>) -> bool {
    response matches Some(page) && page.holds_results()
}

/// The cursor that paging goes on with after a response: the page's cursor,
/// unless the response could not be read or the cursor is empty, which ends
/// the paging.
pub open spec fn next_cursor_of<T: PaginatedApi>(response: Option<T>) -> Option<Seq<char>> {
    match response {
        Some(page) => if page.cursor_of().len() > 0 {
            Some(page.cursor_of())
        } else {
            None
        },
        None => None,
    }
}

/// Decides, from the parsed page (`None` when the response could not be
/// read), whether the page is persisted and where paging goes on.
pub fn execute_and_get_cursor<T: PaginatedApi>(response: &Option<T>) -> (r: PageStep)
    ensures
        r.persist == persists(*response),
        text_of(r.next_cursor) == next_cursor_of(*response),
        response.is_none() ==> !r.persist && r.next_cursor.is_none(),
        response matches Some(page) ==> r.persist == page.holds_results(),
        response matches Some(page) ==> (r.next_cursor is Some <==> page.cursor_of().len() > 0),
        r.next_cursor matches Some(c) ==> c@ == response->0.cursor_of(),
{
    match response {
        Some(page) => {
            let persist = page.has_results();
            let cursor = page.get_cursor();
            if !cursor.as_str().is_empty() {
                PageStep { persist, next_cursor: Some(cursor) }
            } else {
                PageStep { persist, next_cursor: None }
            }
        },
        None => PageStep { persist: false, next_cursor: None },
    }
}

/// A page that was read is persisted exactly when it holds records, whatever
/// its cursor (the last page of a run included); a response that could not be
/// read is never persisted.
pub proof fn lemma_persisted_iff_records<T: PaginatedApi>(page: T)
    ensures
        persists(Some(page)) == page.holds_results(),
        !persists(None::<T>),
{
}

/// Paging follows the cursors: after a page with a cursor, the next request
/// is the endpoint's URL with that cursor; after a page without one, or a
/// response that could not be read, nothing more is requested.
pub proof fn lemma_paging_follows_cursor<T: PaginatedApi>(url: Seq<char>, response: Option<T>)
    ensures
        response is Some && response->0.cursor_of().len() > 0 ==> page_url_of(
            url,
            next_cursor_of(response),
        ) == url + cursor_param() + response->0.cursor_of(),
        (response is None || response->0.cursor_of().len() == 0) ==> next_cursor_of(response) is None,
        response is None ==> !persists(response),
{
}

/// For a run of responses, whether `read_with_cursor_as` persists each page it
/// requests: one entry per request, up to the page that ends the paging.
pub open spec fn persisted_by_cursor_loop<T: PaginatedApi>(responses: Seq<Option<T>>) -> Seq<bool>
    decreases responses.len(),
{
    if responses.len() == 0 {
        Seq::empty()
    } else if next_cursor_of(responses[0]) is None {
        seq![persists(responses[0])]
    } else {
        seq![persists(responses[0])] + persisted_by_cursor_loop(responses.drop_first())
    }
}

/// For a run of responses, whether `fetch_and_persist_all_api_responses_with_cursor`
/// persists each page: one entry per kept page; the page that ends the paging
/// is not kept.
pub open spec fn persisted_by_kept_loop<T: PaginatedApi>(responses: Seq<Option<T>>) -> Seq<bool>
    decreases responses.len(),
{
    if responses.len() == 0 {
        Seq::empty()
    } else {
        match kept_page(responses[0]) {
            None => Seq::empty(),
            Some(page) => seq![page.holds_results()] + persisted_by_kept_loop(
                responses.drop_first(),
            ),
        }
    }
}

/// The two paging loops request the same pages and persist the same ones,
/// except the page that ends the paging: `read_with_cursor_as` persists it
/// when it holds records, the other loop never does. When no response of the
/// run ends the paging, both persist the same pages.
pub proof fn lemma_paging_loops_differ_in_last_page<T: PaginatedApi>(responses: Seq<Option<T>>)
    ensures
        ({
            let a = persisted_by_cursor_loop(responses);
            let b = persisted_by_kept_loop(responses);
            &&& forall|i: int| 0 <= i < b.len() ==> a[i] == b[i]
            &&& a.len() <= responses.len()
            &&& a.len() == b.len() || a.len() == b.len() + 1
            &&& a.len() == b.len() ==> a.len() == responses.len() && forall|i: int|
                0 <= i < responses.len() ==> next_cursor_of(#[trigger] responses[i]) is Some
            &&& a.len() == b.len() + 1 ==> next_cursor_of(responses[b.len() as int]) is None
                && a[b.len() as int] == persists(responses[b.len() as int])
        }),
    decreases responses.len(),
{
    if responses.len() > 0 {
        let rest = responses.drop_first();
        lemma_paging_loops_differ_in_last_page(rest);
        let a = persisted_by_cursor_loop(responses);
        let b = persisted_by_kept_loop(responses);
        let ra = persisted_by_cursor_loop(rest);
        let rb = persisted_by_kept_loop(rest);
        if next_cursor_of(responses[0]) is None {
            assert(kept_page(responses[0]) is None);
            assert(b.len() == 0);
        } else {
            assert(kept_page(responses[0]) == responses[0]);
            assert(a == seq![persists(responses[0])] + ra);
            assert(b == seq![responses[0]->0.holds_results()] + rb);
            assert forall|i: int| 0 <= i < b.len() implies a[i] == b[i] by {
                if i > 0 {
                    assert(a[i] == ra[i - 1]);
                    assert(b[i] == rb[i - 1]);
                }
            }
            if a.len() == b.len() {
                assert forall|i: int| 0 <= i < responses.len() implies next_cursor_of(
                    #[trigger] responses[i],
                ) is Some by {
                    if i > 0 {
                        assert(responses[i] == rest[i - 1]);
                    }
                }
            } else {
                assert(b.len() == rb.len() + 1);
                assert(responses[b.len() as int] == rest[rb.len() as int]);
            }
        }
    }
}

} // verus!
