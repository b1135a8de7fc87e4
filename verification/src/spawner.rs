//! What the spawner decides by lot: the edge a projectile enters from and
//! the kind of projectile it is.

use rand::Rng;
use vstd::prelude::*;
use vstd::set_lib::{lemma_int_range, set_int_range};

use crate::actors::EnemyKind;

verus! {

/// Number of lots in the draw for the edge.
pub const EDGE_LOTS: i32 = 4;

/// Number of lots in the draw for the kind.
pub const KIND_LOTS: i32 = 100;

/// Lots below this number give a plain bullet.
pub const DRUNK_FROM: i32 = 75;

/// Lots from `DRUNK_FROM` up to this number give a drunk bullet; the rest
/// give a homing bullet.
pub const HOMING_FROM: i32 = 90;

/// An edge of the arena.
#[derive(Clone, Copy, Debug, PartialEq, Eq, Structural)]
pub enum Edge {
    Top,
    Bottom,
    Left,
    Right,
}

/// One spawn, as far as it is decided here. The host adds the point along
/// the edge, the speed and the size.
#[derive(Clone, Copy, Debug, PartialEq, Eq, Structural)]
pub struct SpawnPlan {
    pub edge: Edge,
    pub kind: EnemyKind,
}

/// The edge that a lot stands for. Every lot from 3 on means the right edge.
pub open spec fn edge_of(lot: int) -> Edge {
    if lot == 0 {
        Edge::Top
    } else if lot == 1 {
        Edge::Bottom
    } else if lot == 2 {
        Edge::Left
    } else {
        Edge::Right
    }
}

/// The kind that a lot stands for.
pub open spec fn kind_of(lot: int) -> EnemyKind {
    if 0 <= lot < DRUNK_FROM {
        EnemyKind::Bullet
    } else if DRUNK_FROM <= lot < HOMING_FROM {
        EnemyKind::DrunkBullet
    } else {
        EnemyKind::HomingBullet
    }
}

/// The lots of the kind draw that give `kind`.
pub open spec fn lots_for(kind: EnemyKind) -> Set<int> {
    Set::new(|lot: int| 0 <= lot < KIND_LOTS && kind_of(lot) == kind)
}

/// The lots of the edge draw that give `edge`.
pub open spec fn lots_for_edge(edge: Edge) -> Set<int> {
    Set::new(|lot: int| 0 <= lot < EDGE_LOTS && edge_of(lot) == edge)
}

/// Whether `plan` is one that the two draws of the spawner can give. Each
/// edge and each kind has a lot, so every plan is; chance alone decides
/// how often each comes up.
pub open spec fn drawable(plan: SpawnPlan) -> bool {
    exists|edge_lot: int, kind_lot: int|
        0 <= edge_lot < EDGE_LOTS && 0 <= kind_lot < KIND_LOTS && plan == (SpawnPlan {
            edge: #[trigger] edge_of(edge_lot),
            kind: #[trigger] kind_of(kind_lot),
        })
}

/// Every plan is drawable: each edge has a lot among the four and each
/// kind has one among the hundred. To say of a plan that it was drawn is
/// therefore to say nothing of which plan it is.
pub proof fn lemma_every_plan_is_drawable(plan: SpawnPlan)
    ensures
        drawable(plan),
{
    let edge_lot: int = match plan.edge {
        Edge::Top => 0,
        Edge::Bottom => 1,
        Edge::Left => 2,
        Edge::Right => 3,
    };
    let kind_lot: int = match plan.kind {
        EnemyKind::Bullet => 0,
        EnemyKind::DrunkBullet => 75,
        EnemyKind::HomingBullet => 90,
    };
    assert(plan == (SpawnPlan { edge: edge_of(edge_lot), kind: kind_of(kind_lot) }));
}

/// Calls `thread_rng` of the `rand` crate for the generator of the current
/// thread and `gen_range` on it. Believed of the call: the number returned
/// is at least `low` and less than `high`. Which number it is depends on
/// chance, so nothing more is said. `gen_range` panics where `low >= high`,
/// which `requires` leaves out; `thread_rng` panics where the system gives
/// the generator no seed.
#[verifier::external_body]
fn draw_lot(low: i32, high: i32) -> (lot: i32)
    requires
        low < high,
    ensures
        low <= lot < high,
{
    rand::thread_rng().gen_range(low, high)
}

/// The edge that a lot stands for.
pub fn edge_for_lot(lot: i32) -> (edge: Edge)
    ensures
        edge == edge_of(lot as int),
{
    match lot {
        0 => Edge::Top,
        1 => Edge::Bottom,
        2 => Edge::Left,
        _ => Edge::Right,
    }
}

/// The kind that a lot stands for.
pub fn kind_for_lot(lot: i32) -> (kind: EnemyKind)
    ensures
        kind == kind_of(lot as int),
{
    if 0 <= lot && lot < DRUNK_FROM {
        EnemyKind::Bullet
    } else if DRUNK_FROM <= lot && lot < HOMING_FROM {
        EnemyKind::DrunkBullet
    } else {
        EnemyKind::HomingBullet
    }
}

/// The plan that two lots give.
pub fn plan_for_lots(edge_lot: i32, kind_lot: i32) -> (plan: SpawnPlan)
    ensures
        plan == (SpawnPlan { edge: edge_of(edge_lot as int), kind: kind_of(kind_lot as int) }),
{
    SpawnPlan { edge: edge_for_lot(edge_lot), kind: kind_for_lot(kind_lot) }
}

/// Draws one lot of four for the edge and one of a hundred for the kind,
/// and plans what the two lots give. Which lots come up is left to chance.
pub fn plan_spawn() -> (plan: SpawnPlan)
    ensures
        drawable(plan),
{
    let edge_lot: i32 = draw_lot(0, EDGE_LOTS);
    let kind_lot: i32 = draw_lot(0, KIND_LOTS);
    let plan = plan_for_lots(edge_lot, kind_lot);
    assert(plan == (SpawnPlan { edge: edge_of(edge_lot as int), kind: kind_of(kind_lot as int) }));
    plan
}

/// Of the hundred lots for the kind, 75 give a plain bullet, 15 a drunk
/// bullet and 10 a homing bullet.
pub proof fn lemma_kind_weights()
    ensures
        lots_for(EnemyKind::Bullet).finite(),
        lots_for(EnemyKind::DrunkBullet).finite(),
        lots_for(EnemyKind::HomingBullet).finite(),
        lots_for(EnemyKind::Bullet).len() == 75,
        lots_for(EnemyKind::DrunkBullet).len() == 15,
        lots_for(EnemyKind::HomingBullet).len() == 10,
{
    lemma_int_range(0, 75);
    lemma_int_range(75, 90);
    lemma_int_range(90, 100);
    assert(lots_for(EnemyKind::Bullet) =~= set_int_range(0, 75));
    assert(lots_for(EnemyKind::DrunkBullet) =~= set_int_range(75, 90));
    assert(lots_for(EnemyKind::HomingBullet) =~= set_int_range(90, 100));
}

/// Each edge has one lot of the four.
pub proof fn lemma_edge_weights(edge: Edge)
    ensures
        lots_for_edge(edge).finite(),
        lots_for_edge(edge).len() == 1,
{
    let lot: int = match edge {
        Edge::Top => 0,
        Edge::Bottom => 1,
        Edge::Left => 2,
        Edge::Right => 3,
    };
    lemma_int_range(lot, lot + 1);
    assert(lots_for_edge(edge) =~= set_int_range(lot, lot + 1));
}

} // verus!
