//! How the views lay lists out: rows of a grid, and the separators between
//! neighbouring cards.

use vstd::prelude::*;

verus! {

/// Whether the card at `index` of a list of `len` cards gets an end border:
/// every card but the last.
pub fn render_border_end(index: usize, len: usize) -> (r: bool)
    requires
        index < len,
    ensures
        r == (index + 1 < len),
{
    index < len - 1
}

/// The flip class of a card that shows its back side.
pub open spec fn flipped_class() -> Seq<char> {
    seq!['f', 'l', 'i', 'p', 'p', 'e', 'd']
}

/// The flip class after a click: an empty class turns to `flipped`, any
/// other class turns empty.
pub open spec fn flip_of(current: Seq<char>) -> Seq<char> {
    if current.len() == 0 {
        flipped_class()
    } else {
        Seq::empty()
    }
}

/// The flip class of a freshly shown card after `n` clicks; a card starts
/// `flipped`.
pub open spec fn flip_after_clicks(n: nat) -> Seq<char>
    decreases n,
{
    if n == 0 {
        flipped_class()
    } else {
        flip_of(flip_after_clicks((n - 1) as nat))
    }
}

/// The class of a flip card after a click.
pub fn next_flip_class(current: &str) -> (r: String)
    ensures
        r@ == flip_of(current@),
        current@.len() == 0 ==> r@ == seq!['f', 'l', 'i', 'p', 'p', 'e', 'd'],
        current@.len() > 0 ==> r@.len() == 0,
{
    proof {
        reveal_strlit("flipped");
    }
    if current.is_empty() {
        let r = String::from_str("flipped");
        assert(r@ =~= flipped_class());
        r
    } else {
        let r = String::new();
        assert(r@ =~= flip_of(current@));
        r
    }
}

/// The class prefix of the trade card.
pub const TRADE_CARD_CLASS: &'static str = "card p-0 ";

/// The class prefix of the trade volume card.
pub const VOLUME_CARD_CLASS: &'static str = "card bg-pink p-0 ";

/// The full class of a flip card: its class prefix (`TRADE_CARD_CLASS` or
/// `VOLUME_CARD_CLASS`) followed by the flip class.
pub fn flip_card_class(prefix: &str, flip: &str) -> (r: String)
    ensures
        r@ == prefix@ + flip@,
{
    String::from_str(prefix).concat(flip)
}

/// Clicks alternate a flip card between `flipped` (after an even number of
/// clicks, including none) and the front (after an odd number), and two
/// clicks always give the class back.
pub proof fn lemma_flip_clicks_alternate(n: nat)
    ensures
        flip_after_clicks(n) == (if n % 2 == 0 {
            flipped_class()
        } else {
            Seq::<char>::empty()
        }),
        flip_after_clicks(n + 1) == flip_of(flip_after_clicks(n)),
        flip_of(flip_of(flip_after_clicks(n))) == flip_after_clicks(n),
    decreases n,
{
    if n > 0 {
        lemma_flip_clicks_alternate((n - 1) as nat);
    }
    assert(flipped_class().len() > 0);
}

/// Two clicks give back the class of a card that shows either side.
pub proof fn lemma_flip_twice(current: Seq<char>)
    requires
        current.len() == 0 || current == flipped_class(),
    ensures
        flip_of(flip_of(current)) == current,
{
    assert(flipped_class().len() > 0);
}

/// The rows that cover items `start..shown`, `per_row` to a row, the last
/// row taking what is left: each row as the range of the items it shows.
pub open spec fn row_ranges(start: nat, shown: nat, per_row: nat) -> Seq<(usize, usize)>
    decreases shown - start,
{
    if per_row == 0 || start >= shown {
        Seq::empty()
    } else {
        let end: nat = if start + per_row < shown { start + per_row } else { shown };
        seq![(start as usize, end as usize)] + row_ranges(end, shown, per_row)
    }
}

/// The rows of a grid that shows at most `limit` of `len` items, `per_row` to
/// a row.
pub open spec fn grid_rows_of(len: nat, per_row: nat, limit: nat) -> Seq<(usize, usize)> {
    row_ranges(0, if len < limit { len } else { limit }, per_row)
}

/// Splits the first `limit` of `len` items into rows of `per_row`, as
/// `iter().take(limit)` followed by `chunks(per_row)` does.
pub fn grid_rows(len: usize, per_row: usize, limit: usize) -> (r: Vec<(usize, usize)>)
    requires
        per_row > 0,
    ensures
        r@ == grid_rows_of(len as nat, per_row as nat, limit as nat),
        r@.len() == 0 <==> (len == 0 || limit == 0),
        r@.len() > 0 ==> r@[0].0 == 0 && r@.last().1 == (if len < limit { len } else { limit }),
        forall|k: int| 0 <= k < r@.len() ==> (#[trigger] r@[k]).0 < r@[k].1 && r@[k].1 <= r@[k].0 + per_row,
        forall|k: int| 0 <= k < r@.len() - 1 ==> (#[trigger] r@[k]).1 == r@[k].0 + per_row,
        forall|k: int| 0 < k < r@.len() ==> (#[trigger] r@[k]).0 == r@[k - 1].1,
{
    let shown = if len < limit { len } else { limit };
    let mut rows: Vec<(usize, usize)> = Vec::new();
    let mut start: usize = 0;
    while start < shown
        invariant
            per_row > 0,
            start <= shown,
            shown == (if len < limit { len } else { limit }),
            rows@ + row_ranges(start as nat, shown as nat, per_row as nat) == grid_rows_of(
                len as nat,
                per_row as nat,
                limit as nat,
            ),
        decreases shown - start,
    {
        let end = if shown - start > per_row { start + per_row } else { shown };
        let ghost rest = row_ranges(end as nat, shown as nat, per_row as nat);
        assert(row_ranges(start as nat, shown as nat, per_row as nat) == seq![(start, end)] + rest);
        assert(rows@.push((start, end)) + rest =~= rows@ + (seq![(start, end)] + rest));
        rows.push((start, end));
        start = end;
    }
    assert(rows@ + row_ranges(start as nat, shown as nat, per_row as nat) =~= rows@);
    proof {
        lemma_grid_rows_cover(0, shown as nat, per_row as nat);
    }
    rows
}

/// Every row of a grid is a non-empty range of at most `per_row` items, rows
/// follow each other without gap or overlap, and together they show the first
/// `min(len, limit)` items.
pub proof fn lemma_grid_rows_cover(start: nat, shown: nat, per_row: nat)
    requires
        per_row > 0,
        start <= shown,
        shown <= usize::MAX,
    ensures
        ({
            let rows = row_ranges(start, shown, per_row);
            &&& forall|k: int|
                0 <= k < rows.len() ==> (#[trigger] rows[k]).0 < rows[k].1 && rows[k].1
                    <= rows[k].0 + per_row
            &&& forall|k: int| 0 < k < rows.len() ==> (#[trigger] rows[k]).0 == rows[k - 1].1
            &&& forall|k: int| 0 <= k < rows.len() - 1 ==> (#[trigger] rows[k]).1 == rows[k].0 + per_row
            &&& rows.len() == 0 <==> start == shown
            &&& rows.len() > 0 ==> rows[0].0 == start && rows.last().1 == shown
        }),
    decreases shown - start,
{
    if start < shown {
        let end: nat = if start + per_row < shown { start + per_row } else { shown };
        lemma_grid_rows_cover(end, shown, per_row);
        let rest = row_ranges(end, shown, per_row);
        let rows = row_ranges(start, shown, per_row);
        assert(rows == seq![(start as usize, end as usize)] + rest);
        assert forall|k: int| 0 <= k < rows.len() - 1 implies (#[trigger] rows[k]).1 == rows[k].0
            + per_row by {
            if k > 0 {
                assert(rows[k] == rest[k - 1]);
            }
        }
        assert forall|k: int| 0 < k < rows.len() implies (#[trigger] rows[k]).0 == rows[k - 1].1 by {
            if k > 1 {
                assert(rows[k] == rest[k - 1]);
                assert(rows[k - 1] == rest[k - 2]);
            }
        }
    }
}

} // verus!
