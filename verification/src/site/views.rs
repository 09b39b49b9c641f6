//! Small decisions of the views: which optional parts they show, and the
//! totals they add up.

use vstd::prelude::*;
use crate::text::same_text;

verus! {

/// A land's landmark line shows unless the landmark is `None`.
pub fn shows_landmark(landmark: &str) -> (r: bool)
    ensures
        r == (landmark@ != "None"@),
{
    !same_text(landmark, "None")
}

/// The buy link and the price rank of an asset show when it is listed, that
/// is when it has a rank among the listed assets.
pub fn is_listed(listed_index: Option<i32>) -> (r: bool)
    ensures
        r == (listed_index is Some),
{
    listed_index.is_some()
}

/// The events table has a Token column when its first transaction carries
/// asset content; `asset_content` tells, for each transaction in order,
/// whether it does.
pub fn shows_token_column(asset_content: &Vec<bool>) -> (r: bool)
    ensures
        r == (asset_content@.len() > 0 && asset_content@[0]),
{
    asset_content.len() > 0 && asset_content[0]
}

/// The statistics view shows data once some asset was minted; with no asset
/// minted it shows the no-data note.
pub fn stats_has_data(assets_minted: i64) -> (r: bool)
    ensures
        r == (assets_minted != 0),
{
    assets_minted != 0
}

/// The vitals view shows data when there are attribute groups; with none it
/// shows the no-data note.
pub fn vitals_has_data(attribute_groups: usize) -> (r: bool)
    ensures
        r == (attribute_groups != 0),
{
    attribute_groups != 0
}

/// The sum of a sequence of counts.
pub open spec fn sum_of(counts: Seq<i64>) -> int
    decreases counts.len(),
{
    if counts.len() == 0 {
        0
    } else {
        sum_of(counts.drop_last()) + counts.last()
    }
}

/// The total of the counts shown in a list (minted or owned per collection,
/// trades per currency), added in a wide integer so that it never overflows.
pub fn total_count(counts: &Vec<i64>) -> (r: i128)
    ensures
        r == sum_of(counts@),
{
    let mut total: i128 = 0;
    let mut i: usize = 0;
    while i < counts.len()
        invariant
            i <= counts@.len(),
            total == sum_of(counts@.take(i as int)),
            -0x8000_0000_0000_0000 * i <= total <= 0x7fff_ffff_ffff_ffff * i,
        decreases counts@.len() - i,
    {
        assert(counts@.take(i + 1).drop_last() =~= counts@.take(i as int));
        total = total + counts[i] as i128;
        i = i + 1;
    }
    assert(counts@.take(i as int) =~= counts@);
    total
}

/// The total of two lists shown one after the other is the sum of their
/// totals, and a list of one count totals that count.
pub proof fn lemma_sum_of_concat(a: Seq<i64>, b: Seq<i64>, x: i64)
    ensures
        sum_of(a + b) == sum_of(a) + sum_of(b),
        sum_of(seq![x]) == x,
    decreases b.len(),
{
    if b.len() > 0 {
        assert((a + b).drop_last() =~= a + b.drop_last());
        lemma_sum_of_concat(a, b.drop_last(), x);
    } else {
        assert(a + b =~= a);
    }
    assert(seq![x].drop_last() =~= Seq::<i64>::empty());
    assert(sum_of(Seq::<i64>::empty()) == 0);
    assert(seq![x].last() == x);
    assert(sum_of(seq![x]) == sum_of(seq![x].drop_last()) + seq![x].last());
}

} // verus!
