//! Layout of the matcher tabs.

use vstd::prelude::*;
use vstd::string::StringSliceAdditionalSpecFns;
use crate::panels::Rect;

verus! {

/// The width a tab title takes: its length in bytes, cut to 16 bits.
pub open spec fn title_width(title: &str) -> u16 {
    (title.spec_bytes().len() as usize) as u16
}

/// The click targets of tab titles laid out from column `x` on row `y`:
/// each title as wide as its text, two columns apart.
pub open spec fn spec_tab_targets(x: u16, y: u16, titles: Seq<&str>) -> Seq<Rect>
    decreases titles.len(),
{
    if titles.len() == 0 {
        Seq::empty()
    } else {
        let w = title_width(titles[0]);
        seq![Rect { x, y, width: w, height: 1 }] + spec_tab_targets(
            x.saturating_add(w).saturating_add(2),
            y,
            titles.skip(1),
        )
    }
}

/// The click targets of the tab titles drawn inside `area` (past its
/// border).
pub fn register_tab_targets(area: Rect, titles: &Vec<&str>) -> (r: Vec<Rect>)
    ensures
        r@ == spec_tab_targets(area.x.saturating_add(1), area.y.saturating_add(1), titles@),
{
    let mut targets: Vec<Rect> = Vec::new();
    let mut x = area.x.saturating_add(1);
    let y = area.y.saturating_add(1);
    let n = titles.len();
    let ghost x0 = x;
    assert(titles@.skip(0) =~= titles@);
    for i in 0..n
        invariant
            n == titles.len(),
            y == area.y.saturating_add(1),
            x0 == area.x.saturating_add(1),
            spec_tab_targets(x0, y, titles@) == targets@ + spec_tab_targets(x, y, titles@.skip(i as int)),
    {
        let title = titles[i];
        let width = title.len() as u16;
        assert(titles@.skip(i as int)[0] == title);
        assert(titles@.skip(i as int).skip(1) =~= titles@.skip(i + 1));
        targets.push(Rect { x, y, width, height: 1 });
        x = x.saturating_add(width).saturating_add(2);
        assert(targets@ + spec_tab_targets(x, y, titles@.skip(i + 1)) =~= targets@.drop_last() + (
        seq![targets@.last()] + spec_tab_targets(x, y, titles@.skip(i + 1))));
    }
    assert(titles@.skip(n as int) =~= Seq::<&str>::empty());
    assert(targets@ + Seq::<Rect>::empty() =~= targets@);
    targets
}

} // verus!
