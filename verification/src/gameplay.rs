//! One fixed tick of a run. The tick has two halves with the host's work
//! between them: `update` advances the clocks, spawns and reads the keys;
//! the host then moves every body and tests each enemy against the avatar;
//! `finish_update` decides from those tests whether the run is over.

use std::collections::VecDeque;
use vstd::prelude::*;

use crate::actors::EnemyKind;
use crate::input::{Heading, MoveKeys};
use crate::scene::{GameOverScene, GameplayScene, Scene, SceneEvent, SPAWN_PERIOD};
use crate::spawner::{plan_spawn, SpawnPlan};

verus! {

/// What the host has to do in the middle of a tick.
#[derive(Clone, Copy, Debug, PartialEq, Eq, Structural)]
pub struct TickPlan {
    /// The projectile to create before anything moves, if one is due.
    pub spawn: Option<SpawnPlan>,
    /// Where the held keys send the avatar.
    pub heading: Heading,
}

/// How a tick ended.
#[derive(Clone, Debug, PartialEq, Eq)]
pub enum TickOutcome {
    /// The avatar touched an enemy. The host plays the explosion.
    GameOver,
    /// The run goes on. The enemies at these positions of the enemy list
    /// now act, each on the state that the tick left; what they spawn is
    /// appended once all of them have acted.
    Running(Vec<usize>),
}

/// How the clock of the overlay is to be shown.
#[derive(Clone, Copy, Debug, PartialEq, Eq, Structural)]
pub enum Overlay {
    /// Before the scene was entered: no clock.
    Hidden,
    /// During the run: a faint clock.
    Faint,
    /// After the collision: a strong clock.
    Strong,
}

/// A spawn falls on the tick that uses up the timer.
pub open spec fn spawn_due(timer: u32) -> bool {
    timer <= 1
}

/// The timer after one tick: one less, and a full period more where that
/// tick spawns. A timer of one is wound up to the full period; a timer
/// that stood at zero was a tick late and is wound up to a tick less.
pub open spec fn timer_after(timer: u32) -> u32 {
    if timer <= 1 {
        (timer + SPAWN_PERIOD - 1) as u32
    } else {
        (timer - 1) as u32
    }
}

/// The tick count after one tick. It stops at the largest number.
pub open spec fn time_after(total_time: u64) -> u64 {
    if total_time < u64::MAX {
        (total_time + 1) as u64
    } else {
        total_time
    }
}

/// Whether any of the tests found an overlap.
pub open spec fn any_overlap(overlaps: Seq<bool>) -> bool {
    exists|i: int| 0 <= i < overlaps.len() && overlaps[i]
}

/// The positions below `n` of the enemies that act, rising.
pub open spec fn acting(enemies: Seq<EnemyKind>, n: int) -> Seq<usize>
    decreases n,
{
    if n <= 0 {
        Seq::empty()
    } else if enemies[n - 1].acts() {
        acting(enemies, n - 1).push((n - 1) as usize)
    } else {
        acting(enemies, n - 1)
    }
}

impl GameplayScene {
    /// The scene with one more enemy at the end of its list.
    pub open spec fn joined_by(self, after: GameplayScene, kind: EnemyKind) -> bool {
        &&& after.enemies@ == self.enemies@.push(kind)
        &&& after.timer == self.timer
        &&& after.total_time == self.total_time
        &&& after.is_playing == self.is_playing
        &&& after.is_game_over == self.is_game_over
        &&& after.background_updates == self.background_updates
    }

    /// What the first half of a tick makes of the scene: `after` and `plan`
    /// follow from `self` and `keys`, but for the plan of a spawn, which
    /// chance decides.
    pub open spec fn begins(self, keys: MoveKeys, after: GameplayScene, plan: TickPlan) -> bool {
        &&& after.total_time == time_after(self.total_time)
        &&& after.timer == timer_after(self.timer)
        &&& after.is_playing == self.is_playing
        &&& after.is_game_over == self.is_game_over
        &&& after.background_updates == self.background_updates
        &&& plan.heading == keys.heading()
        &&& plan.spawn is Some <==> spawn_due(self.timer)
        &&& plan.spawn matches Some(p) ==> after.enemies@ == self.enemies@.push(p.kind)
        &&& plan.spawn is None ==> after.enemies@ == self.enemies@
    }

    /// What the second half of a tick makes of the scene and of the queue.
    pub open spec fn finishes(
        self,
        overlaps: Seq<bool>,
        queue: Seq<SceneEvent>,
        after: GameplayScene,
        queue_after: Seq<SceneEvent>,
        outcome: TickOutcome,
    ) -> bool {
        &&& after.is_game_over == any_overlap(overlaps)
        &&& after.enemies@ == self.enemies@
        &&& after.timer == self.timer
        &&& after.total_time == self.total_time
        &&& after.is_playing == self.is_playing
        &&& after.background_updates == self.background_updates
        &&& any_overlap(overlaps) ==> outcome is GameOver && queue_after == queue.push(
            SceneEvent::Push(Scene::GameOver(GameOverScene { survived: self.total_time })),
        )
        &&& !any_overlap(overlaps) ==> queue_after == queue && (outcome matches TickOutcome::Running(
            indices,
        ) && indices@ == acting(self.enemies@, self.enemies@.len() as int))
    }

    /// The scene with more enemies at the end of its list, in their order.
    pub open spec fn joined_by_all(self, after: GameplayScene, kinds: Seq<EnemyKind>) -> bool {
        &&& after.enemies@ == self.enemies@ + kinds
        &&& after.timer == self.timer
        &&& after.total_time == self.total_time
        &&& after.is_playing == self.is_playing
        &&& after.is_game_over == self.is_game_over
        &&& after.background_updates == self.background_updates
    }

    /// Appends the enemies that the actions of one tick have spawned, in
    /// the order given. The host calls this once all actions have run.
    pub fn append_enemies(&mut self, spawned: Vec<EnemyKind>)
        ensures
            old(self).joined_by_all(*final(self), spawned@),
    {
        let mut spawned = spawned;
        self.enemies.append(&mut spawned);
    }

    /// Appends an enemy of the planned kind. Enemies are never removed and
    /// never inserted before others.
    pub fn spawn_with(&mut self, plan: SpawnPlan)
        ensures
            old(self).joined_by(*final(self), plan.kind),
    {
        self.enemies.push(plan.kind);
    }

    /// Draws a plan and appends an enemy of its kind. The host gives the
    /// enemy its place on the planned edge, its speed and its size.
    pub fn spawn_bullet(&mut self) -> (plan: SpawnPlan)
        ensures
            old(self).joined_by(*final(self), plan.kind),
    {
        let plan = plan_spawn();
        self.spawn_with(plan);
        plan
    }

    /// First half of a tick: counts the tick, runs the spawn timer down,
    /// spawns where it has run out, and turns the held keys into a heading.
    pub fn update(&mut self, keys: &MoveKeys) -> (plan: TickPlan)
        ensures
            old(self).begins(*keys, *final(self), plan),
    {
        if self.total_time < u64::MAX {
            self.total_time = self.total_time + 1;
        }
        let spawn = if self.timer <= 1 {
            self.timer = self.timer + SPAWN_PERIOD - 1;
            Some(self.spawn_bullet())
        } else {
            self.timer = self.timer - 1;
            None
        };
        TickPlan { spawn, heading: keys.direction() }
    }

    /// Second half of a tick. `overlaps` holds, for each enemy that the
    /// host tested, whether its rectangle overlaps the avatar's after both
    /// have moved. The run is over iff one of them does; the scene then
    /// asks for the game-over screen, which takes the tick count along, and
    /// no enemy acts. Otherwise the enemies that act are named. The enemy
    /// list stays as it is here: what the actions spawn joins it afterwards
    /// through `append_enemies`, so that no action sees what another made.
    pub fn finish_update(
        &mut self,
        overlaps: &Vec<bool>,
        scene_event_queue: &mut VecDeque<SceneEvent>,
    ) -> (outcome: TickOutcome)
        ensures
            old(self).finishes(
                overlaps@,
                old(scene_event_queue)@,
                *final(self),
                final(scene_event_queue)@,
                outcome,
            ),
    {
        self.is_game_over = any_true(overlaps);
        if self.is_game_over {
            scene_event_queue.push_back(SceneEvent::Push(GameOverScene::new_box(self.total_time)));
            TickOutcome::GameOver
        } else {
            TickOutcome::Running(self.acting_enemies())
        }
    }

    /// The positions of the enemies that act, rising.
    pub fn acting_enemies(&self) -> (indices: Vec<usize>)
        ensures
            indices@ == acting(self.enemies@, self.enemies@.len() as int),
    {
        let mut indices: Vec<usize> = Vec::new();
        let mut i: usize = 0;
        while i < self.enemies.len()
            invariant
                i <= self.enemies@.len(),
                indices@ == acting(self.enemies@, i as int),
            decreases self.enemies@.len() - i,
        {
            if self.enemies[i].has_action() {
                indices.push(i);
            }
            i = i + 1;
        }
        indices
    }

    /// No clock before the scene is entered, a faint one during the run, a
    /// strong one once the run is over.
    pub fn overlay(&self) -> (overlay: Overlay)
        ensures
            overlay == if !self.is_playing {
                Overlay::Hidden
            } else if self.is_game_over {
                Overlay::Strong
            } else {
                Overlay::Faint
            },
    {
        if !self.is_playing {
            Overlay::Hidden
        } else if self.is_game_over {
            Overlay::Strong
        } else {
            Overlay::Faint
        }
    }
}

impl Scene {
    /// What the first half of a tick makes of a scene. Only a run has one:
    /// the other scenes stay as they are and plan nothing.
    pub open spec fn begins(self, keys: MoveKeys, after: Scene, plan: Option<TickPlan>) -> bool {
        match self {
            Scene::Gameplay(run) => {
                &&& plan matches Some(p)
                &&& after matches Scene::Gameplay(run_after)
                &&& run.begins(keys, run_after, p)
            },
            _ => plan is None && after == self,
        }
    }

    /// What the second half of a tick makes of a scene and of the queue.
    /// Only a run has one: the other scenes stay as they are and ask for
    /// nothing.
    pub open spec fn finishes(
        self,
        overlaps: Seq<bool>,
        queue: Seq<SceneEvent>,
        after: Scene,
        queue_after: Seq<SceneEvent>,
        outcome: Option<TickOutcome>,
    ) -> bool {
        match self {
            Scene::Gameplay(run) => {
                &&& outcome matches Some(o)
                &&& after matches Scene::Gameplay(run_after)
                &&& run.finishes(overlaps, queue, run_after, queue_after, o)
            },
            _ => outcome is None && after == self && queue_after == queue,
        }
    }

    /// What the end of the actions makes of a scene: a run takes the
    /// enemies that were spawned, any other scene stays as it is.
    pub open spec fn takes(self, spawned: Seq<EnemyKind>, after: Scene) -> bool {
        match self {
            Scene::Gameplay(run) => {
                &&& after matches Scene::Gameplay(run_after)
                &&& run.joined_by_all(run_after, spawned)
            },
            _ => after == self,
        }
    }

    /// Appends what the actions of one tick have spawned. Only a run has
    /// enemies; the result says whether the scene is one.
    pub fn append_enemies(&mut self, spawned: Vec<EnemyKind>) -> (taken: bool)
        ensures
            taken == (*old(self) is Gameplay),
            old(self).takes(spawned@, *final(self)),
    {
        match self {
            Scene::Gameplay(run) => {
                run.append_enemies(spawned);
                true
            },
            _ => false,
        }
    }

    pub fn update(&mut self, keys: &MoveKeys) -> (plan: Option<TickPlan>)
        ensures
            old(self).begins(*keys, *final(self), plan),
    {
        match self {
            Scene::Gameplay(run) => Some(run.update(keys)),
            _ => None,
        }
    }

    pub fn finish_update(
        &mut self,
        overlaps: &Vec<bool>,
        scene_event_queue: &mut VecDeque<SceneEvent>,
    ) -> (outcome: Option<TickOutcome>)
        ensures
            old(self).finishes(
                overlaps@,
                old(scene_event_queue)@,
                *final(self),
                final(scene_event_queue)@,
                outcome,
            ),
    {
        match self {
            Scene::Gameplay(run) => Some(run.finish_update(overlaps, scene_event_queue)),
            _ => None,
        }
    }
}

/// Whether any entry is `true`.
pub fn any_true(flags: &Vec<bool>) -> (found: bool)
    ensures
        found == any_overlap(flags@),
{
    let mut i: usize = 0;
    while i < flags.len()
        invariant
            i <= flags@.len(),
            forall|j: int| 0 <= j < i ==> !flags@[j],
        decreases flags@.len() - i,
    {
        if flags[i] {
            return true;
        }
        i = i + 1;
    }
    false
}

/// The spawn timer of a fresh run after a number of ticks.
pub open spec fn timer_in(ticks: nat) -> u32
    decreases ticks,
{
    if ticks == 0 {
        SPAWN_PERIOD
    } else {
        timer_after(timer_in((ticks - 1) as nat))
    }
}

/// A run spawns on every 300th tick and on no other: after `ticks` ticks
/// the next tick spawns iff it is the 300th, the 600th, and so on.
pub proof fn lemma_spawn_every_period(ticks: nat)
    ensures
        timer_in(ticks) == SPAWN_PERIOD - ticks % (SPAWN_PERIOD as nat),
        spawn_due(timer_in(ticks)) <==> (ticks + 1) % (SPAWN_PERIOD as nat) == 0,
    decreases ticks,
{
    if ticks > 0 {
        lemma_spawn_every_period((ticks - 1) as nat);
    }
}

/// Enemies only ever join at the end of the list: the list before a tick
/// begins the list after it, the second half of a tick leaves the list
/// alone, and what the actions spawn comes after all that was there.
pub proof fn lemma_enemies_accumulate(
    run: GameplayScene,
    keys: MoveKeys,
    moved: GameplayScene,
    plan: TickPlan,
    overlaps: Seq<bool>,
    queue: Seq<SceneEvent>,
    after: GameplayScene,
    queue_after: Seq<SceneEvent>,
    outcome: TickOutcome,
)
    requires
        run.begins(keys, moved, plan),
        moved.finishes(overlaps, queue, after, queue_after, outcome),
    ensures
        run.enemies@.is_prefix_of(after.enemies@),
        after.enemies@.len() <= run.enemies@.len() + 1,
        forall|spawned: Seq<EnemyKind>, last: GameplayScene| #[trigger]
            after.joined_by_all(last, spawned) ==> run.enemies@.is_prefix_of(last.enemies@),
{
}

/// The positions named for acting are exactly those of the enemies that
/// act, each once and in rising order.
pub proof fn lemma_acting_is_selection(enemies: Seq<EnemyKind>, n: int)
    requires
        0 <= n <= enemies.len() <= usize::MAX,
    ensures
        forall|k: int|
            0 <= k < acting(enemies, n).len() ==> 0 <= (#[trigger] acting(enemies, n)[k]) < n
                && enemies[acting(enemies, n)[k] as int].acts(),
        forall|j: int, k: int|
            0 <= j < k < acting(enemies, n).len() ==> acting(enemies, n)[j] < acting(
                enemies,
                n,
            )[k],
        forall|i: int| 0 <= i < n && enemies[i].acts() ==> acting(enemies, n).contains(i as usize),
    decreases n,
{
    if n > 0 {
        lemma_acting_is_selection(enemies, n - 1);
        let rest = acting(enemies, n - 1);
        let all = acting(enemies, n);
        if enemies[n - 1].acts() {
            assert(all[all.len() - 1] == (n - 1) as usize);
        }
        assert forall|i: int| 0 <= i < n && enemies[i].acts() implies all.contains(i as usize) by {
            if i < n - 1 {
                let k = choose|k: int| 0 <= k < rest.len() && rest[k] == i as usize;
                assert(all[k] == i as usize);
            } else {
                assert(all[all.len() - 1] == i as usize);
            }
        }
    }
}

} // verus!
