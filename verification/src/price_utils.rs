//! Placement of the decimal point in an ImmutableX token quantity.

use vstd::prelude::*;
use vstd::utf8::is_ascii_chars;

verus! {

/// Position, counted in characters from the start, at which the decimal point
/// goes: the quantity's length minus its number of decimals.
pub open spec fn point_index(quantity: Seq<char>, decimals: int) -> int {
    quantity.len() - decimals
}

/// The quantity written with its decimal point: `decimals` digits after the
/// point, padded with a zero when the quantity has one digit fewer than that
/// and led by `0` when nothing stands before the point.
pub open spec fn price_text_of(quantity: Seq<char>, decimals: int) -> Seq<char> {
    let index = point_index(quantity, decimals);
    if index == -1 {
        seq!['0', '.', '0'] + quantity
    } else if index == 0 {
        seq!['0', '.'] + quantity
    } else {
        quantity.take(index) + seq!['.'] + quantity.skip(index)
    }
}

/// The inputs on which the point can be placed: ASCII text (so that a
/// character index is a byte index) whose length is at least `decimals - 1`
/// and whose length and `decimals` fit in an `i32`.
pub open spec fn price_input_ok(quantity: Seq<char>, decimals: int) -> bool {
    &&& is_ascii_chars(quantity)
    &&& quantity.len() < i32::MAX
    &&& 0 <= decimals <= quantity.len() + 1
}

/// The text that `get_price` hands to `f32` parsing: `quantity` with the
/// decimal point put `decimals` characters from its end.
pub fn price_text(quantity: &str, decimals: i32) -> (r: String)
    requires
        price_input_ok(quantity@, decimals as int),
    ensures
        r@ == price_text_of(quantity@, decimals as int),
        r@.len() >= decimals + 1,
        r@[r@.len() - decimals - 1] == '.',
        r@.take(r@.len() - decimals - 1) + r@.skip(r@.len() - decimals) == (if quantity@.len()
            + 1 == decimals {
            seq!['0', '0'] + quantity@
        } else if quantity@.len() == decimals {
            seq!['0'] + quantity@
        } else {
            quantity@
        }),
{
    proof {
        lemma_price_text_point(quantity@, decimals as int);
        reveal_strlit("0.0");
        reveal_strlit("0.");
        reveal_strlit(".");
    }
    let n = quantity.unicode_len();
    let index = n as i32 - decimals;
    if index == -1 {
        let r = String::from_str("0.0").concat(quantity);
        assert(r@ =~= price_text_of(quantity@, decimals as int));
        r
    } else if index == 0 {
        let r = String::from_str("0.").concat(quantity);
        assert(r@ =~= price_text_of(quantity@, decimals as int));
        r
    } else {
        let at = index as usize;
        let head = quantity.substring_ascii(0, at);
        let tail = quantity.substring_ascii(at, n);
        let r = String::from_str(head).concat(".").concat(tail);
        assert(r@ =~= price_text_of(quantity@, decimals as int));
        r
    }
}

/// The decimal point of a price text stands `decimals` characters before its
/// end, and taking the point out leaves the quantity, led by the zeros that
/// were needed in front of it.
pub proof fn lemma_price_text_point(quantity: Seq<char>, decimals: int)
    requires
        0 <= decimals <= quantity.len() + 1,
    ensures
        ({
            let t = price_text_of(quantity, decimals);
            let p = t.len() - decimals - 1;
            &&& 0 <= p < t.len()
            &&& t[p] == '.'
            &&& t.take(p) + t.skip(p + 1) == (if point_index(quantity, decimals) == -1 {
                seq!['0', '0'] + quantity
            } else if point_index(quantity, decimals) == 0 {
                seq!['0'] + quantity
            } else {
                quantity
            })
        }),
{
    let t = price_text_of(quantity, decimals);
    let index = point_index(quantity, decimals);
    let p = t.len() - decimals - 1;
    if index == -1 {
        assert(t.take(p) + t.skip(p + 1) =~= seq!['0', '0'] + quantity);
    } else if index == 0 {
        assert(t.take(p) + t.skip(p + 1) =~= seq!['0'] + quantity);
    } else {
        assert(t.take(p) + t.skip(p + 1) =~= quantity);
    }
}

} // verus!
