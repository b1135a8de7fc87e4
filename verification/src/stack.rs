//! The scene stack: one live scene over a stack of paused ones, changed
//! only by queued events that are carried out once per tick.

use std::collections::VecDeque;
use vstd::prelude::*;

use crate::actors::EnemyKind;
use crate::gameplay::{any_overlap, TickOutcome, TickPlan};
use crate::input::{Key, MoveKeys};
use crate::scene::{asked, GameOverScene, GameplayScene, Scene, SceneEvent, StartingScene};

verus! {

/// A place in the stack.
#[derive(Clone, Copy, Debug, PartialEq, Eq, Structural)]
pub enum Slot {
    /// The live scene.
    Live,
    /// A paused scene, counted from the bottom of the stack.
    Paused(usize),
}

/// The live scene, the paused scenes beneath it and the events that wait.
#[derive(Clone, Debug, PartialEq, Eq)]
pub struct SceneStack {
    /// The live scene. There is none only while the host builds the stack.
    pub current_scene: Option<Scene>,
    /// The paused scenes; the last one was paused most recently.
    pub previous_scene_stack: Vec<Scene>,
    /// The events that wait for the next tick, oldest first.
    pub scene_event_queue: VecDeque<SceneEvent>,
}

/// The scenes of a stack without its queue.
pub struct Stage {
    pub live: Option<Scene>,
    pub paused: Seq<Scene>,
}

impl Stage {
    /// The stage after one event.
    ///
    /// `Push` enters the new scene, leaves the live one and pauses it.
    /// `Pop` enters the topmost paused scene and drops the live one; with
    /// nothing paused it does nothing. `Replace` enters the new scene and
    /// drops the live one.
    pub open spec fn step(self, event: SceneEvent) -> Stage {
        match event {
            SceneEvent::Push(scene) => Stage {
                live: Some(scene.entered()),
                paused: match self.live {
                    Some(previous) => self.paused.push(previous.exited()),
                    None => self.paused,
                },
            },
            SceneEvent::Pop => if self.paused.len() > 0 {
                Stage { live: Some(self.paused.last().entered()), paused: self.paused.drop_last() }
            } else {
                self
            },
            SceneEvent::Replace(scene) => Stage { live: Some(scene.entered()), paused: self.paused },
        }
    }

    /// The stage after a run of events, first to last.
    pub open spec fn run(self, events: Seq<SceneEvent>) -> Stage
        decreases events.len(),
    {
        if events.len() == 0 {
            self
        } else {
            self.step(events.first()).run(events.drop_first())
        }
    }

    /// The scene in a slot, if the slot is taken.
    pub open spec fn at(self, slot: Slot) -> Option<Scene> {
        match slot {
            Slot::Live => self.live,
            Slot::Paused(i) => if i < self.paused.len() {
                Some(self.paused[i as int])
            } else {
                None
            },
        }
    }

    /// The stage with another scene in a slot that is taken.
    pub open spec fn put(self, slot: Slot, scene: Scene) -> Stage {
        match slot {
            Slot::Live => Stage { live: Some(scene), paused: self.paused },
            Slot::Paused(i) => Stage { live: self.live, paused: self.paused.update(i as int, scene) },
        }
    }

    /// The paused scenes below position `n` that are updated in the
    /// background, topmost first.
    pub open spec fn paused_updates(self, n: int) -> Seq<Slot>
        decreases n,
    {
        if n <= 0 {
            Seq::empty()
        } else if self.paused[n - 1].updates_in_background() {
            seq![Slot::Paused((n - 1) as usize)] + self.paused_updates(n - 1)
        } else {
            self.paused_updates(n - 1)
        }
    }

    /// The paused scenes below position `n` that are drawn in the
    /// background, bottom first.
    pub open spec fn paused_draws(self, n: int) -> Seq<Slot>
        decreases n,
    {
        if n <= 0 {
            Seq::empty()
        } else if self.paused[n - 1].draws_in_background() {
            self.paused_draws(n - 1).push(Slot::Paused((n - 1) as usize))
        } else {
            self.paused_draws(n - 1)
        }
    }

    /// The live scene as a list of slots: one slot or none.
    pub open spec fn live_slot(self) -> Seq<Slot> {
        if self.live is Some {
            seq![Slot::Live]
        } else {
            Seq::empty()
        }
    }

    /// The order of updates in one tick: the live scene, then the paused
    /// scenes that are updated in the background, topmost first.
    pub open spec fn update_order(self) -> Seq<Slot> {
        self.live_slot() + self.paused_updates(self.paused.len() as int)
    }

    /// The order of drawing in one frame: the paused scenes that are drawn
    /// in the background, bottom first, then the live scene on top.
    pub open spec fn draw_order(self) -> Seq<Slot> {
        self.paused_draws(self.paused.len() as int) + self.live_slot()
    }
}

impl SceneStack {
    /// The scenes of the stack. The queue is no part of the stage: every
    /// contract that speaks of the stage says in a clause of its own what
    /// becomes of the queue.
    pub open spec fn stage(self) -> Stage {
        Stage { live: self.current_scene, paused: self.previous_scene_stack@ }
    }

    /// The stack at the start of the game: the title screen over a run
    /// that has not begun.
    pub fn new() -> (stack: SceneStack)
        ensures
            stack.current_scene == Some(Scene::Starting(StartingScene {  })),
            stack.previous_scene_stack@.len() == 1,
            stack.previous_scene_stack@[0] matches Scene::Gameplay(run) && run.fresh(),
            stack.scene_event_queue@.len() == 0,
    {
        let mut paused: Vec<Scene> = Vec::new();
        paused.push(GameplayScene::new_box());
        SceneStack {
            current_scene: Some(StartingScene::new_box()),
            previous_scene_stack: paused,
            scene_event_queue: VecDeque::new(),
        }
    }

    /// Carries out one event.
    pub fn apply_event(&mut self, event: SceneEvent)
        ensures
            final(self).stage() == old(self).stage().step(event),
            final(self).scene_event_queue@ == old(self).scene_event_queue@,
    {
        match event {
            SceneEvent::Push(scene) => {
                let mut scene = scene;
                scene.on_entry();
                let previous = self.current_scene.take();
                self.current_scene = Some(scene);
                match previous {
                    Some(previous) => {
                        let mut previous = previous;
                        previous.on_exit();
                        self.previous_scene_stack.push(previous);
                    },
                    None => {},
                }
            },
            SceneEvent::Pop => {
                match self.previous_scene_stack.pop() {
                    Some(previous) => {
                        let mut previous = previous;
                        previous.on_entry();
                        self.current_scene = Some(previous);
                    },
                    None => {},
                }
            },
            SceneEvent::Replace(scene) => {
                let mut scene = scene;
                scene.on_entry();
                self.current_scene = Some(scene);
            },
        }
    }

    /// Carries out the queued events, oldest first, and leaves the queue
    /// empty. The host calls this at the start of each tick, before any
    /// scene is updated.
    pub fn drain_events(&mut self)
        ensures
            final(self).stage() == old(self).stage().run(old(self).scene_event_queue@),
            final(self).scene_event_queue@.len() == 0,
    {
        loop
            invariant
                self.stage().run(self.scene_event_queue@) == old(self).stage().run(
                    old(self).scene_event_queue@,
                ),
            ensures
                self.scene_event_queue@.len() == 0,
                self.stage() == old(self).stage().run(old(self).scene_event_queue@),
            decreases self.scene_event_queue@.len(),
        {
            let ghost before = self.scene_event_queue@;
            match self.scene_event_queue.pop_front() {
                Some(event) => {
                    assert(self.scene_event_queue@ == before.drop_first());
                    self.apply_event(event);
                },
                None => {
                    break ;
                },
            }
        }
    }
    /// The slots to update in this tick, in order.
    pub fn update_order(&self) -> (order: Vec<Slot>)
        ensures
            order@ == self.stage().update_order(),
    {
        let mut order: Vec<Slot> = Vec::new();
        if self.current_scene.is_some() {
            order.push(Slot::Live);
        }
        let ghost stage = self.stage();
        let total = self.previous_scene_stack.len();
        let mut i: usize = total;
        while i > 0
            invariant
                i <= total,
                total == self.previous_scene_stack@.len(),
                stage == self.stage(),
                order@ + stage.paused_updates(i as int) == stage.update_order(),
            decreases i,
        {
            i = i - 1;
            if self.previous_scene_stack[i].update_in_background() {
                let ghost so_far = order@;
                order.push(Slot::Paused(i));
                assert(order@ + stage.paused_updates(i as int) == so_far + stage.paused_updates(
                    i + 1,
                ));
            }
        }
        assert(order@ + stage.paused_updates(0) == order@);
        order
    }

    /// The slots to draw in this frame, in order.
    pub fn draw_order(&self) -> (order: Vec<Slot>)
        ensures
            order@ == self.stage().draw_order(),
    {
        let mut order: Vec<Slot> = Vec::new();
        let ghost stage = self.stage();
        let mut i: usize = 0;
        while i < self.previous_scene_stack.len()
            invariant
                i <= self.previous_scene_stack@.len(),
                stage == self.stage(),
                order@ == stage.paused_draws(i as int),
            decreases self.previous_scene_stack@.len() - i,
        {
            if self.previous_scene_stack[i].draw_in_background() {
                order.push(Slot::Paused(i));
            }
            i = i + 1;
        }
        if self.current_scene.is_some() {
            let ghost so_far = order@;
            order.push(Slot::Live);
            assert(order@ == so_far + seq![Slot::Live]);
        } else {
            assert(order@ + Seq::<Slot>::empty() == order@);
        }
        order
    }

    /// Hands a key press to the live scene, and to no other. The result
    /// says whether the host is asked to quit.
    pub fn key_down_event(&mut self, key: Key) -> (quit: bool)
        ensures
            final(self).stage() == old(self).stage(),
            match old(self).current_scene {
                Some(scene) => quit == (!(scene is Gameplay) && key.quits()) && exists|
                    events: Seq<SceneEvent>,
                |
                    asked(scene, key, events) && #[trigger] (old(self).scene_event_queue@ + events)
                        == final(self).scene_event_queue@,
                None => !quit && final(self).scene_event_queue@ == old(self).scene_event_queue@,
            },
    {
        match &mut self.current_scene {
            Some(scene) => scene.key_down_event(key, &mut self.scene_event_queue),
            None => false,
        }
    }

    /// Hands a key release to the live scene. No scene reacts to one.
    pub fn key_up_event(&mut self, key: Key)
        ensures
            final(self).stage() == old(self).stage(),
            final(self).scene_event_queue@ == old(self).scene_event_queue@,
    {
        match &mut self.current_scene {
            Some(scene) => scene.key_up_event(key, &mut self.scene_event_queue),
            None => {},
        }
    }

    /// First half of a tick for the scene in `slot`. An empty slot plans
    /// nothing and changes nothing.
    pub fn update_scene(&mut self, slot: Slot, keys: &MoveKeys) -> (plan: Option<TickPlan>)
        ensures
            final(self).scene_event_queue@ == old(self).scene_event_queue@,
            match old(self).stage().at(slot) {
                Some(scene) => final(self).stage().at(slot) matches Some(after) && scene.begins(
                    *keys,
                    after,
                    plan,
                ) && final(self).stage() == old(self).stage().put(slot, after),
                None => plan is None && final(self).stage() == old(self).stage(),
            },
    {
        match slot {
            Slot::Live => match &mut self.current_scene {
                Some(scene) => scene.update(keys),
                None => None,
            },
            Slot::Paused(i) => if i < self.previous_scene_stack.len() {
                self.previous_scene_stack[i].update(keys)
            } else {
                None
            },
        }
    }

    /// Appends what the actions of one tick have spawned to the run in
    /// `slot`. The result says whether the slot holds a run; where it does
    /// not, nothing changes.
    pub fn append_enemies(&mut self, slot: Slot, spawned: Vec<EnemyKind>) -> (taken: bool)
        ensures
            final(self).scene_event_queue@ == old(self).scene_event_queue@,
            taken == (old(self).stage().at(slot) matches Some(Scene::Gameplay(_))),
            match old(self).stage().at(slot) {
                Some(scene) => final(self).stage().at(slot) matches Some(after) && scene.takes(
                    spawned@,
                    after,
                ) && final(self).stage() == old(self).stage().put(slot, after),
                None => final(self).stage() == old(self).stage(),
            },
    {
        match slot {
            Slot::Live => match &mut self.current_scene {
                Some(scene) => scene.append_enemies(spawned),
                None => false,
            },
            Slot::Paused(i) => if i < self.previous_scene_stack.len() {
                self.previous_scene_stack[i].append_enemies(spawned)
            } else {
                false
            },
        }
    }

    /// Second half of a tick for the scene in `slot`. An empty slot has no
    /// outcome and changes nothing.
    pub fn finish_scene(&mut self, slot: Slot, overlaps: &Vec<bool>) -> (outcome: Option<
        TickOutcome,
    >)
        ensures
            match old(self).stage().at(slot) {
                Some(scene) => final(self).stage().at(slot) matches Some(after) && scene.finishes(
                    overlaps@,
                    old(self).scene_event_queue@,
                    after,
                    final(self).scene_event_queue@,
                    outcome,
                ) && final(self).stage() == old(self).stage().put(slot, after),
                None => {
                    &&& outcome is None
                    &&& final(self).stage() == old(self).stage()
                    &&& final(self).scene_event_queue@ == old(self).scene_event_queue@
                },
            },
    {
        match slot {
            Slot::Live => match &mut self.current_scene {
                Some(scene) => scene.finish_update(overlaps, &mut self.scene_event_queue),
                None => None,
            },
            Slot::Paused(i) => if i < self.previous_scene_stack.len() {
                self.previous_scene_stack[i].finish_update(overlaps, &mut self.scene_event_queue)
            } else {
                None
            },
        }
    }
}

/// Events take effect in the order in which they were made: to run two
/// lists of events one after the other is to run them joined.
pub proof fn lemma_events_in_order(stage: Stage, first: Seq<SceneEvent>, then: Seq<SceneEvent>)
    ensures
        stage.run(first + then) == stage.run(first).run(then),
    decreases first.len(),
{
    if first.len() == 0 {
        assert(first + then == then);
    } else {
        assert((first + then).first() == first.first());
        assert((first + then).drop_first() == first.drop_first() + then);
        lemma_events_in_order(stage.step(first.first()), first.drop_first(), then);
    }
}

/// `Push` and then `Pop` undo each other: over a live scene, the paused
/// scenes are as before and the live scene is the old one again, left and
/// entered once more.
pub proof fn lemma_push_then_pop(stage: Stage, scene: Scene)
    requires
        stage.live is Some,
    ensures
        stage.run(seq![SceneEvent::Push(scene), SceneEvent::Pop]) == (Stage {
            live: Some(stage.live->Some_0.exited().entered()),
            paused: stage.paused,
        }),
{
    let events = seq![SceneEvent::Push(scene), SceneEvent::Pop];
    let pushed = stage.step(SceneEvent::Push(scene));
    assert(events.first() == SceneEvent::Push(scene));
    assert(events.drop_first() == seq![SceneEvent::Pop]);
    assert(seq![SceneEvent::Pop].first() == SceneEvent::Pop);
    assert(seq![SceneEvent::Pop].drop_first().len() == 0);
    assert(pushed.step(SceneEvent::Pop).run(seq![SceneEvent::Pop].drop_first()) == pushed.step(
        SceneEvent::Pop,
    ));
    assert(pushed.paused.drop_last() == stage.paused);
    assert(stage.run(events) == pushed.step(SceneEvent::Pop)) by {
        reveal_with_fuel(Stage::run, 3);
    }
}

/// A scene that is not a run, or a run that was entered before, comes back
/// from `Push` and `Pop` exactly as it was.
pub proof fn lemma_push_then_pop_restores(stage: Stage, scene: Scene)
    requires
        stage.live matches Some(live) && (live matches Scene::Gameplay(run) ==> run.is_playing),
    ensures
        stage.run(seq![SceneEvent::Push(scene), SceneEvent::Pop]) == stage,
{
    lemma_push_then_pop(stage, scene);
}

/// `Replace` puts the new scene, entered, in place of the live one and
/// leaves the paused scenes alone.
pub proof fn lemma_replace_keeps_paused(stage: Stage, scene: Scene)
    ensures
        stage.step(SceneEvent::Replace(scene)).paused == stage.paused,
        stage.step(SceneEvent::Replace(scene)).live == Some(scene.entered()),
{
}

/// A tick of the live run in which an enemy overlaps the avatar leaves one
/// more event in the queue. Once the queue is carried out, the game-over
/// screen is live with the tick count of the run, and the run lies paused
/// on top of the stack, where it is still drawn.
pub proof fn lemma_collision_ends_run(
    stage: Stage,
    queue: Seq<SceneEvent>,
    overlaps: Seq<bool>,
    after: Scene,
    queue_after: Seq<SceneEvent>,
    outcome: Option<TickOutcome>,
)
    requires
        stage.live matches Some(Scene::Gameplay(_)),
        stage.live->Some_0.finishes(overlaps, queue, after, queue_after, outcome),
        any_overlap(overlaps),
    ensures
        outcome matches Some(TickOutcome::GameOver),
        stage.put(Slot::Live, after).run(queue_after) == stage.put(Slot::Live, after).run(
            queue,
        ).step(
            SceneEvent::Push(
                Scene::GameOver(GameOverScene { survived: stage.live->Some_0->Gameplay_0.total_time }),
            ),
        ),
        queue.len() == 0 ==> {
            let end = stage.put(Slot::Live, after).run(queue_after);
            &&& end.live == Some(
                Scene::GameOver(GameOverScene { survived: stage.live->Some_0->Gameplay_0.total_time }),
            )
            &&& end.paused == stage.paused.push(after)
            &&& after.draws_in_background()
            &&& after matches Scene::Gameplay(run) && run.is_game_over
        },
{
    let run = stage.live->Some_0->Gameplay_0;
    let event = SceneEvent::Push(Scene::GameOver(GameOverScene { survived: run.total_time }));
    let begun = stage.put(Slot::Live, after);
    assert(queue_after == queue + seq![event]);
    lemma_events_in_order(begun, queue, seq![event]);
    assert(seq![event].first() == event);
    assert(seq![event].drop_first().len() == 0);
    assert(begun.run(queue).run(seq![event]) == begun.run(queue).step(event)) by {
        reveal_with_fuel(Stage::run, 2);
    }
}

/// Once a scene is live, one is live for good: no event leaves the stage
/// without a live scene.
pub proof fn lemma_live_scene_stays(stage: Stage, events: Seq<SceneEvent>)
    requires
        stage.live is Some,
    ensures
        stage.run(events).live is Some,
    decreases events.len(),
{
    if events.len() > 0 {
        lemma_live_scene_stays(stage.step(events.first()), events.drop_first());
    }
}

/// The paused part of the update order names exactly the paused scenes
/// below `n` that are updated in the background, each once, topmost first.
pub proof fn lemma_paused_updates_is_selection(stage: Stage, n: int)
    requires
        0 <= n <= stage.paused.len() <= usize::MAX,
    ensures
        forall|k: int|
            0 <= k < stage.paused_updates(n).len() ==> (#[trigger] stage.paused_updates(n)[k]
                matches Slot::Paused(i) && i < n
                && stage.paused[i as int].updates_in_background()),
        forall|j: int, k: int|
            0 <= j < k < stage.paused_updates(n).len() ==> stage.paused_updates(n)[j]->Paused_0
                > stage.paused_updates(n)[k]->Paused_0,
        forall|i: int|
            0 <= i < n && stage.paused[i].updates_in_background() ==> stage.paused_updates(
                n,
            ).contains(Slot::Paused(i as usize)),
    decreases n,
{
    if n > 0 {
        lemma_paused_updates_is_selection(stage, n - 1);
        let rest = stage.paused_updates(n - 1);
        let all = stage.paused_updates(n);
        let top = Slot::Paused((n - 1) as usize);
        if stage.paused[n - 1].updates_in_background() {
            assert(all == seq![top] + rest);
            assert(all[0] == top);
            assert(forall|k: int| 0 <= k < rest.len() ==> all[k + 1] == rest[k]);
            assert forall|k: int| 0 <= k < all.len() implies (#[trigger] all[k] matches Slot::Paused(
                i,
            ) && i < n && stage.paused[i as int].updates_in_background()) by {
                if k > 0 {
                    assert(all[k] == rest[k - 1]);
                }
            }
            assert forall|j: int, k: int| 0 <= j < k < all.len() implies all[j]->Paused_0
                > all[k]->Paused_0 by {
                assert(all[k] == rest[k - 1]);
                if j > 0 {
                    assert(all[j] == rest[j - 1]);
                }
            }
        }
        assert forall|i: int|
            0 <= i < n && stage.paused[i].updates_in_background() implies all.contains(
            Slot::Paused(i as usize),
        ) by {
            if i < n - 1 {
                let k = choose|k: int| 0 <= k < rest.len() && rest[k] == Slot::Paused(i as usize);
                if stage.paused[n - 1].updates_in_background() {
                    assert(all[k + 1] == rest[k]);
                } else {
                    assert(all[k] == rest[k]);
                }
            } else {
                assert(all[0] == top);
            }
        }
    }
}

/// The paused part of the draw order names exactly the paused scenes below
/// `n` that are drawn in the background, each once, bottom first.
pub proof fn lemma_paused_draws_is_selection(stage: Stage, n: int)
    requires
        0 <= n <= stage.paused.len() <= usize::MAX,
    ensures
        forall|k: int|
            0 <= k < stage.paused_draws(n).len() ==> (#[trigger] stage.paused_draws(n)[k]
                matches Slot::Paused(i) && i < n && stage.paused[i as int].draws_in_background()),
        forall|j: int, k: int|
            0 <= j < k < stage.paused_draws(n).len() ==> stage.paused_draws(n)[j]->Paused_0
                < stage.paused_draws(n)[k]->Paused_0,
        forall|i: int|
            0 <= i < n && stage.paused[i].draws_in_background() ==> stage.paused_draws(n).contains(
                Slot::Paused(i as usize),
            ),
    decreases n,
{
    if n > 0 {
        lemma_paused_draws_is_selection(stage, n - 1);
        let rest = stage.paused_draws(n - 1);
        let all = stage.paused_draws(n);
        let top = Slot::Paused((n - 1) as usize);
        if stage.paused[n - 1].draws_in_background() {
            assert(all[all.len() - 1] == top);
        }
        assert forall|i: int|
            0 <= i < n && stage.paused[i].draws_in_background() implies all.contains(
            Slot::Paused(i as usize),
        ) by {
            if i < n - 1 {
                let k = choose|k: int| 0 <= k < rest.len() && rest[k] == Slot::Paused(i as usize);
                assert(all[k] == rest[k]);
            } else {
                assert(all[all.len() - 1] == top);
            }
        }
    }
}

} // verus!
