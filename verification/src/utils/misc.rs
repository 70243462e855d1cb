//! Random draws and the pacing between two accounts.

use vstd::prelude::*;

verus! {

/// The smaller bound of a range.
pub open spec fn spec_range_low(range: [u32; 2]) -> u32 {
    if range[0] <= range[1] {
        range[0]
    } else {
        range[1]
    }
}

/// The larger bound of a range.
pub open spec fn spec_range_high(range: [u32; 2]) -> u32 {
    if range[0] <= range[1] {
        range[1]
    } else {
        range[0]
    }
}

/// Draws a number between two bounds, both included.
///
/// Calls `rand::Rng::gen_range` on the thread's generator with the range
/// `low..=high`. The call panics on an empty range, so `low <= high` is
/// asked for. Which number comes back is left open: nothing but the bounds
/// is claimed.
#[verifier::external_body]
fn sample_inclusive(low: u32, high: u32) -> (value: u32)
    requires
        low <= high,
    ensures
        low <= value <= high,
{
    rand::Rng::gen_range(&mut rand::thread_rng(), low..=high)
}

/// Picks one item of a list at random.
///
/// Calls `rand::seq::SliceRandom::choose` on the thread's generator. For an
/// empty list it gives `None`; otherwise it draws an index below the length
/// and gives the item there. Which item is left open.
#[verifier::external_body]
pub(crate) fn choose_one<T: Copy>(items: &Vec<T>) -> (picked: Option<T>)
    ensures
        picked is None <==> items@.len() == 0,
        picked is Some ==> items@.contains(picked.unwrap()),
{
    rand::seq::SliceRandom::choose(items.as_slice(), &mut rand::thread_rng()).copied()
}

/// Puts a text at the end of another.
///
/// Calls `String::push_str`, which appends the given text.
#[verifier::external_body]
pub(crate) fn push_text(buffer: &mut String, text: &str)
    ensures
        final(buffer)@ == old(buffer)@ + text@,
{
    buffer.push_str(text);
}

/// Tosses a fair coin.
///
/// Calls `rand::Rng::gen_ratio(1, 2)` on the thread's generator, which is
/// true with one chance in two. Nothing is claimed of the result.
#[verifier::external_body]
pub(crate) fn toss_coin() -> bool {
    rand::Rng::gen_ratio(&mut rand::thread_rng(), 1, 2)
}

/// Draws a number from a range given by its two bounds, in either order.
///
/// The result lies between the smaller and the larger bound, both included;
/// where the bounds are equal it is that bound.
pub fn random_in_range(range: [u32; 2]) -> (value: u32)
    ensures
        spec_range_low(range) <= value <= spec_range_high(range),
{
    let start = range[0];
    let end = range[1];
    if start <= end {
        sample_inclusive(start, end)
    } else {
        sample_inclusive(end, start)
    }
}

/// The width of the progress bar for a terminal of `columns` columns, or for
/// an unknown terminal: 20 columns less than the terminal, which counts as
/// two columns narrower than it is and as 40 wide when unknown, but never
/// under 20.
pub open spec fn spec_progress_bar_width(columns: Option<usize>) -> int {
    let term_width = match columns {
        Some(w) => w - 2,
        None => 40,
    };
    if term_width > 20 {
        term_width - 20
    } else {
        20
    }
}

/// Computes the width of the progress bar that is shown while a worker sleeps.
pub fn progress_bar_width(columns: Option<usize>) -> (width: usize)
    requires
        columns is Some ==> columns.unwrap() >= 2,
    ensures
        width == spec_progress_bar_width(columns),
{
    let term_width: usize = match columns {
        Some(w) => w - 2,
        None => 40,
    };
    if term_width > 20 {
        term_width - 20
    } else {
        20
    }
}

} // verus!
