use bullet_dodger::actors::EnemyKind;
use bullet_dodger::gameplay::{any_true, Overlay, TickOutcome};
use bullet_dodger::input::MoveKeys;
use bullet_dodger::scene::{
    GameOverScene, GameplayScene, Scene, SceneEvent, SPAWN_PERIOD, TICKS_PER_SECOND,
};
use bullet_dodger::spawner::{Edge, SpawnPlan};
use std::collections::VecDeque;

const NO_KEYS: MoveKeys = MoveKeys { up: false, down: false, left: false, right: false };

#[test]
fn fresh_run_has_five_seconds_to_the_first_spawn() {
    let run = GameplayScene::new();
    assert!(run.enemies.is_empty());
    assert_eq!(run.timer, 300);
    assert_eq!(SPAWN_PERIOD, 5 * TICKS_PER_SECOND);
    assert_eq!(run.total_time, 0);
    assert!(!run.is_playing && !run.is_game_over && !run.background_updates);
    assert_eq!(GameplayScene::new_box(), Scene::Gameplay(run));
}

#[test]
fn spawn_falls_on_every_three_hundredth_tick() {
    let mut run = GameplayScene::new();
    for tick in 1u64..=1200 {
        let plan = run.update(&NO_KEYS);
        assert_eq!(plan.spawn.is_some(), tick % 300 == 0, "tick {}", tick);
        assert_eq!(run.total_time, tick);
        assert_eq!(run.enemies.len() as u64, tick / 300);
        assert_eq!(run.timer as u64, 300 - tick % 300);
        if let Some(spawn) = plan.spawn {
            assert_eq!(run.enemies.last(), Some(&spawn.kind));
        }
    }
}

#[test]
fn update_leaves_the_flags_alone() {
    let mut run = GameplayScene::new();
    run.is_playing = true;
    run.is_game_over = true;
    run.background_updates = true;
    run.timer = 2;
    run.enemies = vec![EnemyKind::DrunkBullet];
    let plan = run.update(&NO_KEYS);
    assert_eq!(plan.spawn, None);
    assert_eq!(run.timer, 1);
    assert!(run.is_playing && run.is_game_over && run.background_updates);
    assert_eq!(run.enemies, vec![EnemyKind::DrunkBullet]);
    let plan = run.update(&NO_KEYS);
    assert!(plan.spawn.is_some());
    assert_eq!(run.timer, 300);
    assert_eq!(run.enemies.len(), 2);
    assert_eq!(run.enemies[0], EnemyKind::DrunkBullet);
}

#[test]
fn a_timer_at_zero_spawns_and_is_wound_up() {
    let mut run = GameplayScene::new();
    run.timer = 0;
    assert!(run.update(&NO_KEYS).spawn.is_some());
    assert_eq!(run.timer, 299);
}

#[test]
fn a_timer_at_one_spawns_and_is_wound_up_in_full() {
    let mut run = GameplayScene::new();
    run.timer = 1;
    assert!(run.update(&NO_KEYS).spawn.is_some());
    assert_eq!(run.timer, 300);
    assert_eq!(run.enemies.len(), 1);
}

#[test]
fn the_largest_timer_counts_down_by_one() {
    let mut run = GameplayScene::new();
    run.timer = u32::MAX;
    assert_eq!(run.update(&NO_KEYS).spawn, None);
    assert_eq!(run.timer, u32::MAX - 1);
}

#[test]
fn spawned_enemies_are_appended_in_order() {
    let mut run = GameplayScene::new();
    run.is_playing = true;
    run.timer = 17;
    run.total_time = 283;
    run.enemies = vec![EnemyKind::HomingBullet, EnemyKind::Bullet];
    let mut expected = run.clone();
    run.append_enemies(vec![EnemyKind::DrunkBullet, EnemyKind::HomingBullet]);
    expected.enemies = vec![
        EnemyKind::HomingBullet,
        EnemyKind::Bullet,
        EnemyKind::DrunkBullet,
        EnemyKind::HomingBullet,
    ];
    assert_eq!(run, expected);
    run.append_enemies(vec![]);
    assert_eq!(run, expected);
}

#[test]
fn only_a_run_takes_spawned_enemies() {
    let mut title = Scene::Starting(bullet_dodger::scene::StartingScene {});
    assert!(!title.append_enemies(vec![EnemyKind::Bullet]));
    assert_eq!(title, Scene::Starting(bullet_dodger::scene::StartingScene {}));
    let mut over = GameOverScene::new_box(5);
    assert!(!over.append_enemies(vec![EnemyKind::Bullet]));
    assert_eq!(over, GameOverScene::new_box(5));
    let mut run = GameplayScene::new_box();
    assert!(run.append_enemies(vec![EnemyKind::Bullet, EnemyKind::DrunkBullet]));
    let mut expected = GameplayScene::new();
    expected.enemies = vec![EnemyKind::Bullet, EnemyKind::DrunkBullet];
    assert_eq!(run, Scene::Gameplay(expected));
}

#[test]
fn tick_count_stops_at_the_largest_number() {
    let mut run = GameplayScene::new();
    run.total_time = u64::MAX - 1;
    run.update(&NO_KEYS);
    assert_eq!(run.total_time, u64::MAX);
    run.update(&NO_KEYS);
    assert_eq!(run.total_time, u64::MAX);
}

#[test]
fn update_reports_the_heading_of_the_held_keys() {
    let mut run = GameplayScene::new();
    let plan = run.update(&MoveKeys { up: true, down: false, left: true, right: false });
    assert_eq!((plan.heading.x, plan.heading.y), (-1, -1));
}

#[test]
fn spawn_with_appends_the_planned_kind() {
    let mut run = GameplayScene::new();
    run.spawn_with(SpawnPlan { edge: Edge::Left, kind: EnemyKind::HomingBullet });
    run.spawn_with(SpawnPlan { edge: Edge::Top, kind: EnemyKind::Bullet });
    assert_eq!(run.enemies, vec![EnemyKind::HomingBullet, EnemyKind::Bullet]);
    let mut expected = GameplayScene::new();
    expected.enemies = vec![EnemyKind::HomingBullet, EnemyKind::Bullet];
    assert_eq!(run, expected);
}

#[test]
fn spawn_bullet_appends_what_it_returns() {
    let mut run = GameplayScene::new();
    run.enemies = vec![EnemyKind::Bullet];
    for n in 0..50 {
        let plan = run.spawn_bullet();
        assert_eq!(run.enemies.len(), n + 2);
        assert_eq!(run.enemies[n + 1], plan.kind);
        assert_eq!(run.enemies[0], EnemyKind::Bullet);
    }
    assert_eq!(run.timer, 300);
    assert_eq!(run.total_time, 0);
}

#[test]
fn overlap_ends_the_run_and_asks_for_game_over() {
    let mut run = GameplayScene::new();
    run.is_playing = true;
    run.total_time = 420;
    run.enemies = vec![EnemyKind::HomingBullet, EnemyKind::Bullet];
    let mut queue = VecDeque::from(vec![SceneEvent::Pop]);
    let outcome = run.finish_update(&vec![false, true], &mut queue);
    assert_eq!(outcome, TickOutcome::GameOver);
    assert!(run.is_game_over);
    assert_eq!(
        queue,
        VecDeque::from(vec![
            SceneEvent::Pop,
            SceneEvent::Push(Scene::GameOver(GameOverScene { survived: 420 }))
        ])
    );
    assert_eq!(run.enemies, vec![EnemyKind::HomingBullet, EnemyKind::Bullet]);
    assert_eq!(run.total_time, 420);
    assert_eq!(run.timer, 300);
}

#[test]
fn without_overlap_the_homing_bullets_act() {
    let mut run = GameplayScene::new();
    run.is_game_over = true;
    run.enemies = vec![
        EnemyKind::HomingBullet,
        EnemyKind::Bullet,
        EnemyKind::DrunkBullet,
        EnemyKind::HomingBullet,
        EnemyKind::HomingBullet,
        EnemyKind::Bullet,
    ];
    let before = run.enemies.clone();
    let mut queue = VecDeque::new();
    let outcome = run.finish_update(&vec![false; 6], &mut queue);
    assert_eq!(outcome, TickOutcome::Running(vec![0, 3, 4]));
    assert!(!run.is_game_over);
    assert!(queue.is_empty());
    assert_eq!(run.enemies, before);
    assert_eq!(run.acting_enemies(), vec![0, 3, 4]);
}

#[test]
fn no_enemies_means_no_overlap_and_nobody_acts() {
    let mut run = GameplayScene::new();
    let mut queue = VecDeque::new();
    assert_eq!(run.finish_update(&vec![], &mut queue), TickOutcome::Running(vec![]));
    assert!(queue.is_empty());
    assert!(!run.is_game_over);
}

#[test]
fn any_true_finds_a_single_flag() {
    assert!(!any_true(&vec![]));
    assert!(!any_true(&vec![false, false, false]));
    assert!(any_true(&vec![true]));
    assert!(any_true(&vec![false, false, true]));
    assert!(any_true(&vec![true, false, false]));
}

#[test]
fn only_homing_bullets_have_an_action() {
    assert!(!EnemyKind::Bullet.has_action());
    assert!(!EnemyKind::DrunkBullet.has_action());
    assert!(EnemyKind::HomingBullet.has_action());
}

#[test]
fn overlay_follows_the_two_flags() {
    let mut run = GameplayScene::new();
    assert_eq!(run.overlay(), Overlay::Hidden);
    run.is_game_over = true;
    assert_eq!(run.overlay(), Overlay::Hidden);
    run.on_entry();
    assert_eq!(run.overlay(), Overlay::Strong);
    run.is_game_over = false;
    assert_eq!(run.overlay(), Overlay::Faint);
}

#[test]
fn scene_level_tick_is_for_runs_only() {
    let mut title = Scene::Starting(bullet_dodger::scene::StartingScene {});
    let mut queue = VecDeque::new();
    assert_eq!(title.update(&NO_KEYS), None);
    assert_eq!(title.finish_update(&vec![true], &mut queue), None);
    assert!(queue.is_empty());
    let mut run = GameplayScene::new_box();
    let plan = run.update(&NO_KEYS).unwrap();
    assert_eq!(plan.spawn, None);
    assert_eq!(
        run.finish_update(&vec![true], &mut queue),
        Some(TickOutcome::GameOver)
    );
    assert_eq!(
        queue,
        VecDeque::from(vec![SceneEvent::Push(GameOverScene::new_box(1))])
    );
}
