//! Stages: platforms, camera bounds and spawn points, with coordinates in
//! tenths of a world unit so that positions stay exact integers.

use vstd::prelude::*;

verus! {

/// A point in world space, in tenths of a unit.
#[derive(Clone, Copy, Debug, PartialEq, Eq, Structural)]
pub struct Point {
    pub x: i64,
    pub y: i64,
}

/// Positions are kept within this magnitude so per-frame arithmetic on them
/// can never overflow a machine integer.
pub const POS_LIMIT: i64 = 1_000_000_000;

/// One rectangular platform, in tenths of a unit.
#[derive(Clone, Copy, Debug, PartialEq, Eq, Structural)]
pub struct Platform {
    pub x: i64,
    pub y: i64,
    pub w: i64,
    pub h: i64,
    pub pass_through: bool,
}

/// A stage: its platforms, the bounds entities are clamped to, and the
/// points players spawn at.
pub struct Stage {
    pub title: String,
    pub platforms: Vec<Platform>,
    pub lower_bounds: Point,
    pub higher_bounds: Point,
    pub spawn_points: Vec<Point>,
}

/// Bounds are ordered and everything an entity can reach stays within the
/// magnitude that keeps position arithmetic exact.
pub open spec fn wf_stage(stage: Stage) -> bool {
    &&& -POS_LIMIT <= stage.lower_bounds.x <= stage.higher_bounds.x <= POS_LIMIT
    &&& -POS_LIMIT <= stage.lower_bounds.y <= stage.higher_bounds.y <= POS_LIMIT
    &&& forall|i: int|
        0 <= i < stage.spawn_points@.len() ==> {
            &&& -POS_LIMIT <= (#[trigger] stage.spawn_points@[i]).x <= POS_LIMIT
            &&& -POS_LIMIT <= stage.spawn_points@[i].y <= POS_LIMIT
        }
}

impl Stage {
    /// The built-in default stage: a wide main platform, one thin
    /// pass-through platform, symmetric bounds and four spawn points.
    pub fn base() -> (r: Stage)
        ensures
            wf_stage(r),
            r.title@ == "Base Stage"@,
            r.platforms@ == seq![
                Platform { x: 0i64, y: 0i64, w: 1500i64, h: 100i64, pass_through: false },
                Platform { x: 500i64, y: 500i64, w: 500i64, h: 25i64, pass_through: true },
            ],
            r.lower_bounds == (Point { x: -2000i64, y: -2000i64 }),
            r.higher_bounds == (Point { x: 2000i64, y: 2000i64 }),
            r.spawn_points@ == seq![
                Point { x: -500i64, y: 500i64 },
                Point { x: 500i64, y: 500i64 },
                Point { x: -500i64, y: 800i64 },
                Point { x: 500i64, y: 800i64 },
            ],
    {
        let main_platform = Platform { x: 0i64, y: 0i64, w: 1500i64, h: 100i64, pass_through: false };
        let second_platform = Platform { x: 500i64, y: 500i64, w: 500i64, h: 25i64, pass_through: true };
        let mut platforms: Vec<Platform> = Vec::new();
        platforms.push(main_platform);
        platforms.push(second_platform);
        let mut spawn_points: Vec<Point> = Vec::new();
        spawn_points.push(Point { x: -500i64, y: 500i64 });
        spawn_points.push(Point { x: 500i64, y: 500i64 });
        spawn_points.push(Point { x: -500i64, y: 800i64 });
        spawn_points.push(Point { x: 500i64, y: 800i64 });
        let r = Stage {
            title: "Base Stage".to_string(),
            platforms,
            lower_bounds: Point { x: -2000i64, y: -2000i64 },
            higher_bounds: Point { x: 2000i64, y: 2000i64 },
            spawn_points,
        };
        proof {
            assert(r.platforms@ =~= seq![
                Platform { x: 0i64, y: 0i64, w: 1500i64, h: 100i64, pass_through: false },
                Platform { x: 500i64, y: 500i64, w: 500i64, h: 25i64, pass_through: true },
            ]);
            assert(r.spawn_points@ =~= seq![
                Point { x: -500i64, y: 500i64 },
                Point { x: 500i64, y: 500i64 },
                Point { x: -500i64, y: 800i64 },
                Point { x: 500i64, y: 800i64 },
            ]);
        }
        r
    }
}

} // verus!
