//! The three scenes of the game and the events by which they ask for a
//! change of scene.

use std::collections::VecDeque;
use vstd::prelude::*;

use crate::actors::EnemyKind;
use crate::input::Key;

verus! {

/// Fixed ticks in one second.
pub const TICKS_PER_SECOND: u32 = 60;

/// Ticks between two spawns: five seconds.
pub const SPAWN_PERIOD: u32 = 300;

/// The title screen.
#[derive(Clone, Copy, Debug, PartialEq, Eq, Structural)]
pub struct StartingScene {}

/// The screen shown after a collision.
#[derive(Clone, Copy, Debug, PartialEq, Eq, Structural)]
pub struct GameOverScene {
    /// Ticks that the run lasted.
    pub survived: u64,
}

/// One run of the game.
#[derive(Clone, Debug, PartialEq, Eq)]
pub struct GameplayScene {
    /// The kinds of the enemies, in the order in which they were spawned.
    pub enemies: Vec<EnemyKind>,
    /// Ticks until the next spawn.
    pub timer: u32,
    /// Ticks since the run began.
    pub total_time: u64,
    /// Set once the scene has been entered; the host then shows the clock.
    pub is_playing: bool,
    /// Whether the last tick ended in a collision.
    pub is_game_over: bool,
    /// Whether the run goes on while another scene lies over it.
    pub background_updates: bool,
}

/// Any scene.
#[derive(Clone, Debug, PartialEq, Eq)]
pub enum Scene {
    Starting(StartingScene),
    Gameplay(GameplayScene),
    GameOver(GameOverScene),
}

/// A request to change the scene. Requests are queued and carried out at
/// the start of the next tick, in the order in which they were made.
#[derive(Clone, Debug, PartialEq, Eq)]
pub enum SceneEvent {
    /// Make the topmost paused scene live; the live scene is dropped.
    Pop,
    /// Pause the live scene and make this one live.
    Push(Scene),
    /// Drop the live scene and make this one live.
    Replace(Scene),
}

impl GameplayScene {
    /// The scene after it has been entered.
    pub open spec fn entered(self) -> GameplayScene {
        GameplayScene { is_playing: true, ..self }
    }

    /// A run that has not begun: no enemies, five seconds to the first
    /// spawn, and paused while covered.
    pub open spec fn fresh(self) -> bool {
        &&& self.enemies@ =~= Seq::<EnemyKind>::empty()
        &&& self.timer == SPAWN_PERIOD
        &&& self.total_time == 0
        &&& !self.is_playing
        &&& !self.is_game_over
        &&& !self.background_updates
    }

    /// A run that has not begun.
    pub fn new() -> (scene: GameplayScene)
        ensures
            scene.fresh(),
    {
        GameplayScene {
            enemies: Vec::new(),
            timer: SPAWN_PERIOD,
            total_time: 0,
            is_playing: false,
            is_game_over: false,
            background_updates: false,
        }
    }

    /// A run that has not begun, as a scene.
    pub fn new_box() -> (scene: Scene)
        ensures
            scene matches Scene::Gameplay(g) && g.fresh(),
    {
        Scene::Gameplay(GameplayScene::new())
    }

    /// Entry hook: from now on the run counts as playing.
    pub fn on_entry(&mut self)
        ensures
            *final(self) == old(self).entered(),
    {
        self.is_playing = true;
    }

    /// A run stays on screen under whatever covers it.
    pub fn draw_in_background(&self) -> (b: bool)
        ensures
            b,
    {
        true
    }

    /// A covered run goes on only where it was set up to.
    pub fn update_in_background(&self) -> (b: bool)
        ensures
            b == self.background_updates,
    {
        self.background_updates
    }
}

impl StartingScene {
    /// The title screen, as a scene.
    pub fn new_box() -> (scene: Scene)
        ensures
            scene == Scene::Starting(StartingScene {  }),
    {
        Scene::Starting(StartingScene {  })
    }

    /// A movement key or the space bar asks for the scene beneath; `Q` and
    /// `Escape` ask the host to quit. The result says whether to quit.
    pub fn key_down_event(&mut self, key: Key, scene_event_queue: &mut VecDeque<SceneEvent>) -> (quit:
        bool)
        ensures
            *final(self) == *old(self),
            quit == key.quits(),
            key.starts_run() ==> final(scene_event_queue)@ == old(scene_event_queue)@.push(
                SceneEvent::Pop,
            ),
            !key.starts_run() ==> final(scene_event_queue)@ == old(scene_event_queue)@,
    {
        if key.is_start() {
            scene_event_queue.push_back(SceneEvent::Pop);
            false
        } else {
            key.is_quit()
        }
    }
}

impl GameOverScene {
    /// The game-over screen for a run that lasted `survived` ticks, as a
    /// scene.
    pub fn new_box(survived: u64) -> (scene: Scene)
        ensures
            scene == Scene::GameOver(GameOverScene { survived }),
    {
        Scene::GameOver(GameOverScene { survived })
    }

    /// `R` asks for the scene beneath and then for a fresh run in its
    /// place; `Q` and `Escape` ask the host to quit. The result says
    /// whether to quit.
    pub fn key_down_event(&mut self, key: Key, scene_event_queue: &mut VecDeque<SceneEvent>) -> (quit:
        bool)
        ensures
            *final(self) == *old(self),
            quit == key.quits(),
            key == Key::R ==> {
                let before = old(scene_event_queue)@;
                let after = final(scene_event_queue)@;
                &&& after.len() == before.len() + 2
                &&& after.subrange(0, before.len() as int) == before
                &&& after[before.len() as int] == SceneEvent::Pop
                &&& after[before.len() as int + 1] matches SceneEvent::Replace(Scene::Gameplay(run))
                &&& run.fresh()
            },
            key != Key::R ==> final(scene_event_queue)@ == old(scene_event_queue)@,
    {
        match key {
            Key::R => {
                scene_event_queue.push_back(SceneEvent::Pop);
                let run = GameplayScene::new();
                scene_event_queue.push_back(SceneEvent::Replace(Scene::Gameplay(run)));
                false
            },
            _ => key.is_quit(),
        }
    }
}

impl Scene {
    /// The scene after its entry hook: a run is marked as playing, the
    /// other scenes stay as they are.
    pub open spec fn entered(self) -> Scene {
        match self {
            Scene::Gameplay(run) => Scene::Gameplay(run.entered()),
            other => other,
        }
    }

    /// The scene after its exit hook: no scene changes when it is left.
    pub open spec fn exited(self) -> Scene {
        self
    }

    /// Whether the scene is updated while it is paused.
    pub open spec fn updates_in_background(self) -> bool {
        match self {
            Scene::Gameplay(run) => run.background_updates,
            _ => false,
        }
    }

    /// Whether the scene is drawn while it is paused.
    pub open spec fn draws_in_background(self) -> bool {
        self is Gameplay
    }

    /// Entry hook, called when the scene becomes live.
    pub fn on_entry(&mut self)
        ensures
            *final(self) == old(self).entered(),
    {
        match self {
            Scene::Gameplay(run) => run.on_entry(),
            _ => {},
        }
    }

    /// Exit hook, called when the scene is paused.
    pub fn on_exit(&mut self)
        ensures
            *final(self) == old(self).exited(),
    {
    }

    /// Whether the scene is updated while it is paused.
    pub fn update_in_background(&self) -> (b: bool)
        ensures
            b == self.updates_in_background(),
    {
        match self {
            Scene::Gameplay(run) => run.update_in_background(),
            _ => false,
        }
    }

    /// Whether the scene is drawn while it is paused.
    pub fn draw_in_background(&self) -> (b: bool)
        ensures
            b == self.draws_in_background(),
    {
        match self {
            Scene::Gameplay(run) => run.draw_in_background(),
            _ => false,
        }
    }

    /// Hands a key press to the scene. A run ignores key presses: the host
    /// reads the held keys at each tick instead. The result says whether
    /// the host is asked to quit.
    pub fn key_down_event(&mut self, key: Key, scene_event_queue: &mut VecDeque<SceneEvent>) -> (quit:
        bool)
        ensures
            *final(self) == *old(self),
            quit == (!(*old(self) is Gameplay) && key.quits()),
            exists|events: Seq<SceneEvent>|
                asked(*old(self), key, events) && #[trigger] (old(scene_event_queue)@ + events)
                    == final(scene_event_queue)@,
    {
        let ghost before = scene_event_queue@;
        let quit = match self {
            Scene::Starting(title) => title.key_down_event(key, scene_event_queue),
            Scene::GameOver(over) => over.key_down_event(key, scene_event_queue),
            Scene::Gameplay(_) => false,
        };
        proof {
            let events = scene_event_queue@.skip(before.len() as int);
            assert(before + events == scene_event_queue@);
            assert(asked(*old(self), key, events));
        }
        quit
    }

    /// Hands a key release to the scene. No scene reacts to one.
    pub fn key_up_event(&mut self, key: Key, scene_event_queue: &mut VecDeque<SceneEvent>)
        ensures
            *final(self) == *old(self),
            final(scene_event_queue)@ == old(scene_event_queue)@,
    {
    }
}

/// Whether `events` is what `scene` asks for when `key` goes down: the
/// title screen answers a movement key or the space bar with `Pop`; the
/// game-over screen answers `R` with `Pop` and then `Replace` by a fresh
/// run; nothing else asks for anything.
pub open spec fn asked(scene: Scene, key: Key, events: Seq<SceneEvent>) -> bool {
    if scene is Starting && key.starts_run() {
        events =~= seq![SceneEvent::Pop]
    } else if scene is GameOver && key == Key::R {
        &&& events.len() == 2
        &&& events[0] == SceneEvent::Pop
        &&& events[1] matches SceneEvent::Replace(Scene::Gameplay(run))
        &&& run.fresh()
    } else {
        events.len() == 0
    }
}

} // verus!
