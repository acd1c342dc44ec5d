//! Layout of the pagination bar: which page buttons to show, whether to show
//! ellipses, and which navigation buttons are disabled.
use vstd::prelude::*;

verus! {

/// Lowest page button shown: `max(current - radius, 0)`.
pub open spec fn first_button(current: nat, radius: nat) -> int {
    if current >= radius { current - radius } else { 0 }
}

/// Highest page button shown: `min(current + radius, page_count)`.
pub open spec fn last_button(current: nat, page_count: nat, radius: nat) -> int {
    if current + radius <= page_count { (current + radius) as int } else { page_count as int }
}

/// The page indices `[lo, hi]`, inclusive, in increasing order (none when
/// `hi < lo`).
pub open spec fn page_range(lo: int, hi: int) -> Seq<int> {
    Seq::new(if hi >= lo { (hi - lo + 1) as nat } else { 0 }, |k: int| lo + k)
}

/// The pagination bar for page `current` (zero-based) out of pages
/// `0..=page_count`, showing `radius` pages on each side of the current one.
pub struct PaginationLayout {
    pub show_left_ellipsis: bool,
    pub buttons: Vec<usize>,
    pub show_right_ellipsis: bool,
    /// First and Previous are disabled.
    pub at_first: bool,
    /// Next and Last are disabled.
    pub at_last: bool,
}

impl PaginationLayout {
    /// The layout of the bar. The buttons are the pages from
    /// `max(current - radius, 0)` to `min(current + radius, page_count)`;
    /// the left ellipsis shows when `current > radius`, the right one when
    /// `current < max(page_count - radius, 0)`.
    pub fn layout(current: usize, page_count: usize, radius: usize) -> (r: PaginationLayout)
        ensures
            r.buttons@.map_values(|b: usize| b as int) == page_range(
                first_button(current as nat, radius as nat),
                last_button(current as nat, page_count as nat, radius as nat),
            ),
            r.show_left_ellipsis == (current > radius),
            r.show_right_ellipsis == ((current as int) < (if page_count >= radius {
                page_count - radius
            } else {
                0
            })),
            r.at_first == (current == 0),
            r.at_last == (current >= page_count),
    {
        let lo = current.saturating_sub(radius);
        let hi = if current.saturating_add(radius) <= page_count {
            current.saturating_add(radius)
        } else {
            page_count
        };
        let ghost target = page_range(lo as int, hi as int);
        let mut buttons: Vec<usize> = Vec::new();
        if lo <= hi {
            let mut i = lo;
            loop
                invariant_except_break
                    buttons@.map_values(|b: usize| b as int) == target.take(i - lo),
                invariant
                    lo <= i <= hi,
                    target == page_range(lo as int, hi as int),
                ensures
                    buttons@.map_values(|b: usize| b as int) == target,
                decreases hi - i,
            {
                let ghost before = buttons@;
                buttons.push(i);
                assert(buttons@ == before.push(i));
                assert(target[i - lo] == i as int);
                assert(target.take(i - lo + 1) =~= target.take(i - lo).push(i as int));
                assert(buttons@.map_values(|b: usize| b as int) =~= target.take(i - lo + 1));
                if i == hi {
                    assert(target.take(hi - lo + 1) =~= target);
                    break;
                }
                i += 1;
            }
        } else {
            assert(buttons@.map_values(|b: usize| b as int) =~= target);
        }
        let right_limit = page_count.saturating_sub(radius);
        PaginationLayout {
            show_left_ellipsis: current > radius,
            buttons,
            show_right_ellipsis: current < right_limit,
            at_first: current == 0,
            at_last: current >= page_count,
        }
    }
}

} // verus!
