//! The painted lines of the roads.
use vstd::prelude::*;

use crate::geometry::{ratio, scaled, Line, Screen, FAR, MIDDLE, NEAR};

verus! {

/// The lines of the four roads that meet at the junction, on a screen of the given
/// size: three lines along each road (its two edges and its centre line).
pub open spec fn markings(screen: Screen) -> Seq<Line> {
    let w = screen.width as i64;
    let h = screen.height as i64;
    let half = ratio(screen.height, 1, 2) as i64;
    let left_end = ratio(screen.width, 2, 5) as i64;
    seq![
        Line { x1: NEAR, y1: 0, x2: NEAR, y2: NEAR },
        Line { x1: MIDDLE, y1: 0, x2: MIDDLE, y2: NEAR },
        Line { x1: FAR, y1: 0, x2: FAR, y2: NEAR },
        Line { x1: NEAR, y1: FAR, x2: NEAR, y2: h },
        Line { x1: MIDDLE, y1: FAR, x2: MIDDLE, y2: h },
        Line { x1: FAR, y1: FAR, x2: FAR, y2: h },
        Line { x1: 0, y1: NEAR, x2: NEAR, y2: NEAR },
        Line { x1: 0, y1: half, x2: left_end, y2: half },
        Line { x1: 0, y1: FAR, x2: left_end, y2: FAR },
        Line { x1: FAR, y1: NEAR, x2: w, y2: NEAR },
        Line { x1: FAR, y1: half, x2: w, y2: half },
        Line { x1: FAR, y1: FAR, x2: w, y2: FAR },
    ]
}

/// Whether an axis-parallel line passes through the open square of the junction.
pub open spec fn enters_junction(l: Line) -> bool {
    let x_low = if l.x1 <= l.x2 {
        l.x1
    } else {
        l.x2
    };
    let x_high = if l.x1 <= l.x2 {
        l.x2
    } else {
        l.x1
    };
    let y_low = if l.y1 <= l.y2 {
        l.y1
    } else {
        l.y2
    };
    let y_high = if l.y1 <= l.y2 {
        l.y2
    } else {
        l.y1
    };
    x_low < FAR && x_high > NEAR && y_low < FAR && y_high > NEAR
}

/// No road marking is painted across the junction, and every marking is a
/// horizontal or vertical line on the screen, on a window at least as wide and as
/// high as the junction's far edge whose left roads end (at two fifths of the
/// width) before the junction.
pub proof fn law_markings_stay_out_of_junction(screen: Screen)
    requires
        ratio(screen.width, 2, 5) <= NEAR,
        screen.width >= FAR,
        screen.height >= FAR,
    ensures
        forall|i: int|
            0 <= i < markings(screen).len() ==> {
                let l = #[trigger] markings(screen)[i];
                &&& l.x1 == l.x2 || l.y1 == l.y2
                &&& !enters_junction(l)
                &&& 0 <= l.x1 <= screen.width && 0 <= l.x2 <= screen.width
                &&& 0 <= l.y1 <= screen.height && 0 <= l.y2 <= screen.height
            },
{
    let m = markings(screen);
    let h = screen.height as int;
    assert(ratio(screen.height, 1, 2) == (2 * h + 2) / 4);
    assert(0 <= (2 * h + 2) / 4 <= h + 1);
    assert(h >= 1 ==> (2 * h + 2) / 4 <= h);
    assert forall|i: int| 0 <= i < m.len() implies {
        let l = #[trigger] m[i];
        &&& l.x1 == l.x2 || l.y1 == l.y2
        &&& !enters_junction(l)
        &&& 0 <= l.x1 <= screen.width && 0 <= l.x2 <= screen.width
        &&& 0 <= l.y1 <= screen.height && 0 <= l.y2 <= screen.height
    } by {
        assert(m.len() == 12);
    }
}

/// Each road's centre line runs from the edge of the screen up to the junction:
/// the upper one from the top down to the near edge, the lower one from the far
/// edge down to the bottom, the left one from the left edge, the right one from
/// the far edge to the right edge, both at half the height.
pub proof fn law_centre_lines(screen: Screen)
    ensures
        markings(screen).contains(Line { x1: MIDDLE, y1: 0, x2: MIDDLE, y2: NEAR }),
        markings(screen).contains(
            Line { x1: MIDDLE, y1: FAR, x2: MIDDLE, y2: screen.height as i64 },
        ),
        markings(screen).contains(
            Line {
                x1: 0,
                y1: ratio(screen.height, 1, 2) as i64,
                x2: ratio(screen.width, 2, 5) as i64,
                y2: ratio(screen.height, 1, 2) as i64,
            },
        ),
        markings(screen).contains(
            Line {
                x1: FAR,
                y1: ratio(screen.height, 1, 2) as i64,
                x2: screen.width as i64,
                y2: ratio(screen.height, 1, 2) as i64,
            },
        ),
{
    let m = markings(screen);
    assert(m[1] == Line { x1: MIDDLE, y1: 0, x2: MIDDLE, y2: NEAR });
    assert(m[4] == Line { x1: MIDDLE, y1: FAR, x2: MIDDLE, y2: screen.height as i64 });
    assert(m[7].x1 == 0);
    assert(m[10].x1 == FAR);
}

/// The lines to paint for the roads (see [`markings`]).
pub fn road(screen: Screen) -> (lines: Vec<Line>)
    ensures
        lines@ == markings(screen),
{
    let w = screen.width as i64;
    let h = screen.height as i64;
    let half = scaled(screen.height, 1, 2);
    let left_end = scaled(screen.width, 2, 5);
    let mut lines: Vec<Line> = Vec::new();
    // centre -> up
    lines.push(Line { x1: NEAR, y1: 0, x2: NEAR, y2: NEAR });
    lines.push(Line { x1: MIDDLE, y1: 0, x2: MIDDLE, y2: NEAR });
    lines.push(Line { x1: FAR, y1: 0, x2: FAR, y2: NEAR });
    // centre -> down
    lines.push(Line { x1: NEAR, y1: FAR, x2: NEAR, y2: h });
    lines.push(Line { x1: MIDDLE, y1: FAR, x2: MIDDLE, y2: h });
    lines.push(Line { x1: FAR, y1: FAR, x2: FAR, y2: h });
    // centre -> left
    lines.push(Line { x1: 0, y1: NEAR, x2: NEAR, y2: NEAR });
    lines.push(Line { x1: 0, y1: half, x2: left_end, y2: half });
    lines.push(Line { x1: 0, y1: FAR, x2: left_end, y2: FAR });
    // centre -> right
    lines.push(Line { x1: FAR, y1: NEAR, x2: w, y2: NEAR });
    lines.push(Line { x1: FAR, y1: half, x2: w, y2: half });
    lines.push(Line { x1: FAR, y1: FAR, x2: w, y2: FAR });
    assert(lines@ =~= markings(screen));
    lines
}

} // verus!
