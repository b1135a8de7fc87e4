use bullet_dodger::actors::EnemyKind;
use bullet_dodger::spawner::{
    edge_for_lot, kind_for_lot, plan_for_lots, plan_spawn, Edge, SpawnPlan, DRUNK_FROM,
    EDGE_LOTS, HOMING_FROM, KIND_LOTS,
};

#[test]
fn lots_map_to_edges() {
    assert_eq!(edge_for_lot(0), Edge::Top);
    assert_eq!(edge_for_lot(1), Edge::Bottom);
    assert_eq!(edge_for_lot(2), Edge::Left);
    assert_eq!(edge_for_lot(3), Edge::Right);
    assert_eq!(edge_for_lot(4), Edge::Right);
    assert_eq!(edge_for_lot(-1), Edge::Right);
}

#[test]
fn lots_map_to_kinds_at_the_boundaries() {
    assert_eq!(kind_for_lot(0), EnemyKind::Bullet);
    assert_eq!(kind_for_lot(74), EnemyKind::Bullet);
    assert_eq!(kind_for_lot(75), EnemyKind::DrunkBullet);
    assert_eq!(kind_for_lot(89), EnemyKind::DrunkBullet);
    assert_eq!(kind_for_lot(90), EnemyKind::HomingBullet);
    assert_eq!(kind_for_lot(99), EnemyKind::HomingBullet);
    assert_eq!(kind_for_lot(100), EnemyKind::HomingBullet);
    assert_eq!(kind_for_lot(-1), EnemyKind::HomingBullet);
}

#[test]
fn the_hundred_lots_split_75_15_10() {
    assert_eq!((EDGE_LOTS, KIND_LOTS, DRUNK_FROM, HOMING_FROM), (4, 100, 75, 90));
    let mut counts = [0; 3];
    for lot in 0..KIND_LOTS {
        match kind_for_lot(lot) {
            EnemyKind::Bullet => counts[0] += 1,
            EnemyKind::DrunkBullet => counts[1] += 1,
            EnemyKind::HomingBullet => counts[2] += 1,
        }
    }
    assert_eq!(counts, [75, 15, 10]);
}

#[test]
fn plan_for_lots_pairs_edge_and_kind() {
    assert_eq!(
        plan_for_lots(2, 80),
        SpawnPlan { edge: Edge::Left, kind: EnemyKind::DrunkBullet }
    );
    assert_eq!(
        plan_for_lots(0, 95),
        SpawnPlan { edge: Edge::Top, kind: EnemyKind::HomingBullet }
    );
}

#[test]
fn spawner_variant_distribution_matches_weights() {
    let trials = 20_000;
    let mut kinds = [0i64; 3];
    let mut edges = [0i64; 4];
    for _ in 0..trials {
        let plan = plan_spawn();
        match plan.kind {
            EnemyKind::Bullet => kinds[0] += 1,
            EnemyKind::DrunkBullet => kinds[1] += 1,
            EnemyKind::HomingBullet => kinds[2] += 1,
        }
        match plan.edge {
            Edge::Top => edges[0] += 1,
            Edge::Bottom => edges[1] += 1,
            Edge::Left => edges[2] += 1,
            Edge::Right => edges[3] += 1,
        }
    }
    // Six standard deviations of a binomial count, rounded up.
    let expect = |count: i64, share: f64| {
        let n = trials as f64;
        let mean = n * share;
        let slack = 6.0 * (n * share * (1.0 - share)).sqrt();
        assert!(
            ((count as f64) - mean).abs() <= slack,
            "count {} is not within {} of {}",
            count,
            slack,
            mean
        );
    };
    expect(kinds[0], 0.75);
    expect(kinds[1], 0.15);
    expect(kinds[2], 0.10);
    for edge in edges {
        expect(edge, 0.25);
    }
}
