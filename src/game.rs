//! One game: the current state, the requested transition, the world and the
//! launcher's clock, advanced one frame at a time.
use vstd::prelude::*;
use crate::launcher::{lemma_count_bound, launchable, shoot, ShootClock, SHOOT_INTERVAL_NS};
use crate::menu::{after_end_check, after_messages, end_condition, update, GameState, Message};
use crate::scene::{scene, setup_scene, SpawnSpec};
use crate::world::{
    all_moved, created, fallen, ids_ascending, is_pin, lemma_filter_keeps_ids, not_fallen,
    outlives_round, Entity, Moved, World,
};

verus! {

broadcast use vstd::seq_lib::group_filter_ensures;

/// Ids that a frame can use besides one per whole interval of its time: a
/// whole scene, and one ball for the time left over from earlier frames.
pub const IDS_PER_FRAME: u64 = 16;

/// The most ids a frame lasting `delta` can use.
pub open spec fn frame_ids(delta: u64) -> int {
    IDS_PER_FRAME as int + (delta as int) / (SHOOT_INTERVAL_NS as int)
}

/// What one frame hands to the game: the time that passed, the menu's
/// messages and the heights that the physics engine reports.
#[derive(Debug)]
pub struct FrameInput {
    pub delta_ns: u64,
    pub messages: Vec<Message>,
    pub moves: Vec<Moved>,
}

/// A whole game.
#[derive(Debug)]
pub struct Game {
    pub state: GameState,
    /// The transition requested during the last frame, made at the start of the next.
    pub next: Option<GameState>,
    pub world: World,
    pub clock: ShootClock,
}

/// The mathematical value of a game.
pub struct GameView {
    pub state: GameState,
    pub next: Option<GameState>,
    pub entities: Seq<Entity>,
    pub next_id: u64,
    pub clock: ShootClock,
}

impl View for Game {
    type V = GameView;

    open spec fn view(&self) -> GameView {
        GameView {
            state: self.state,
            next: self.next,
            entities: self.world.entities@,
            next_id: self.world.next_id,
            clock: self.clock,
        }
    }
}

pub open spec fn fresh_clock() -> ShootClock {
    ShootClock { interval_ns: SHOOT_INTERVAL_NS, elapsed_ns: 0 }
}

impl GameView {
    /// The clock runs at the launcher's cadence, ids are unique and below the
    /// next fresh one, every entity belongs to the round, and the menu has an
    /// empty world.
    pub open spec fn wf(&self) -> bool {
        &&& self.clock.wf()
        &&& ids_ascending(self.entities, self.next_id)
        &&& self.clock.interval_ns == SHOOT_INTERVAL_NS
        &&& forall|i: int| 0 <= i < self.entities.len() ==> (#[trigger] self.entities[i]).spec.level_unload
        &&& self.state == GameState::MainMenu ==> self.entities.len() == 0
    }

    pub open spec fn pins(&self) -> nat {
        self.entities.filter(is_pin()).len()
    }
}

/// The game after the requested transition: entering play creates the scene
/// and restarts the clock; leaving it removes everything of the round.
pub open spec fn transitioned(g: GameView) -> GameView {
    match g.next {
        None => g,
        Some(s) => if s == g.state {
            GameView { next: None, ..g }
        } else if s == GameState::Playing {
            GameView {
                state: GameState::Playing,
                next: None,
                entities: g.entities + created(scene(), g.next_id),
                next_id: (g.next_id + scene().len()) as u64,
                clock: fresh_clock(),
            }
        } else {
            GameView {
                state: GameState::MainMenu,
                next: None,
                entities: g.entities.filter(outlives_round()),
                ..g
            }
        },
    }
}

/// The play state's systems: take the reported heights, fire the balls
/// `shots`, one for each interval that ran out, sweep the fallen, and
/// request the menu once no pin is left.
pub open spec fn play_systems(g: GameView, delta: u64, moves: Seq<Moved>, shots: Seq<SpawnSpec>) -> GameView {
    let w1 = all_moved(g.entities, moves);
    let w2 = w1 + created(shots, g.next_id);
    let w3 = w2.filter(not_fallen());
    GameView {
        state: g.state,
        next: after_end_check(w3.filter(is_pin()).len(), g.next),
        entities: w3,
        next_id: (g.next_id + shots.len()) as u64,
        clock: g.clock.advanced(delta),
    }
}

/// The game after one frame in which the launcher fired `shots`.
pub open spec fn after_frame(
    g: GameView,
    delta: u64,
    messages: Seq<Message>,
    moves: Seq<Moved>,
    shots: Seq<SpawnSpec>,
) -> GameView {
    let t = transitioned(g);
    if t.state == GameState::MainMenu {
        GameView { next: after_messages(messages, t.next), ..t }
    } else {
        play_systems(t, delta, moves, shots)
    }
}

/// How many balls the launcher fires during a frame from `g` lasting `delta`.
pub open spec fn shoots(g: GameView, delta: u64) -> nat {
    let t = transitioned(g);
    if t.state == GameState::Playing {
        t.clock.fires(delta)
    } else {
        0
    }
}

proof fn lemma_scene_in_round()
    ensures
        scene().len() == 15,
        forall|k: int| 0 <= k < scene().len() ==> (#[trigger] scene()[k]).level_unload,
{
    reveal_with_fuel(crate::scene::pin_rows, 5);
    assert(scene().len() == 15);
}

proof fn lemma_all_in_round_leaves_nothing(s: Seq<Entity>)
    requires
        forall|i: int| 0 <= i < s.len() ==> (#[trigger] s[i]).spec.level_unload,
    ensures
        s.filter(outlives_round()).len() == 0,
{
    let f = s.filter(outlives_round());
    if f.len() > 0 {
        assert(outlives_round()(f[0]));
        assert(f.contains(f[0]));
        s.lemma_filter_contains_rev(outlives_round(), f[0]);
    }
}

impl Game {
    /// A game in the menu, with an empty world.
    pub fn new() -> (r: Game)
        ensures
            r@.wf(),
            r@.state == GameState::MainMenu,
            r@.next is None,
            r@.next_id == 0,
    {
        Game {
            state: GameState::initial(),
            next: None,
            world: World::new(),
            clock: ShootClock::new(SHOOT_INTERVAL_NS),
        }
    }

    fn apply_transition(&mut self)
        requires
            old(self).world.next_id <= u64::MAX - IDS_PER_FRAME,
        ensures
            final(self)@ == transitioned(old(self)@),
    {
        match self.next {
            None => {},
            Some(s) => {
                self.next = None;
                if s != self.state {
                    self.state = s;
                    match s {
                        GameState::Playing => {
                            let specs = setup_scene();
                            proof {
                                lemma_scene_in_round();
                            }
                            self.world.spawn_all(&specs);
                            self.clock = ShootClock::new(SHOOT_INTERVAL_NS);
                        },
                        GameState::MainMenu => {
                            self.world.cleanup();
                        },
                    }
                }
            },
        }
    }

    /// Runs one frame: the requested transition first, then the systems of
    /// the current state. Returns the balls that the launcher fired, one for
    /// each shoot interval that ran out.
    pub fn frame(&mut self, input: &FrameInput) -> (shots: Vec<SpawnSpec>)
        requires
            old(self)@.wf(),
            old(self).world.next_id + frame_ids(input.delta_ns) <= u64::MAX,
        ensures
            final(self)@ == after_frame(old(self)@, input.delta_ns, input.messages@, input.moves@, shots@),
            shots@.len() == shoots(old(self)@, input.delta_ns),
            forall|i: int| 0 <= i < shots@.len() ==> launchable(#[trigger] shots@[i]),
            final(self)@.wf(),
            final(self).world.next_id <= old(self).world.next_id + frame_ids(input.delta_ns),
    {
        let ghost g = self@;
        self.apply_transition();
        proof {
            lemma_frame_keeps_wf_transition(g);
        }
        match self.state {
            GameState::MainMenu => {
                update(&input.messages, &mut self.next);
                Vec::new()
            },
            GameState::Playing => {
                let ghost t = self@;
                self.world.apply_moves(&input.moves);
                proof {
                    lemma_count_bound(
                        self.clock.elapsed_ns as int,
                        input.delta_ns as int,
                        SHOOT_INTERVAL_NS as int,
                    );
                }
                let count = self.clock.tick(input.delta_ns);
                let mut shots: Vec<SpawnSpec> = Vec::new();
                let mut k: u64 = 0;
                while k < count
                    invariant
                        k <= count,
                        shots@.len() == k,
                        forall|i: int| 0 <= i < shots@.len() ==> launchable(#[trigger] shots@[i]),
                    decreases count - k,
                {
                    shots.push(shoot());
                    k = k + 1;
                }
                self.world.spawn_all(&shots);
                self.world.despawn_fallen();
                let pins = self.world.pin_count();
                end_condition(pins, &mut self.next);
                proof {
                    lemma_play_keeps_wf(t, input.delta_ns, input.moves@, shots@);
                }
                assert(self@ == play_systems(t, input.delta_ns, input.moves@, shots@));
                shots
            },
        }
    }
}

proof fn lemma_frame_keeps_wf_transition(g: GameView)
    requires
        g.wf(),
        g.next_id + IDS_PER_FRAME <= u64::MAX,
    ensures
        transitioned(g).wf(),
        transitioned(g).state == GameState::Playing ==> transitioned(g).next_id <= g.next_id + 15,
        transitioned(g).next_id >= g.next_id,
{
    lemma_scene_in_round();
    let t = transitioned(g);
    if g.next == Some(GameState::MainMenu) && g.state == GameState::Playing {
        lemma_all_in_round_leaves_nothing(g.entities);
        lemma_filter_keeps_ids(g.entities, outlives_round(), g.next_id);
    }
    if g.next == Some(GameState::Playing) && g.state == GameState::MainMenu {
        assert forall|i: int| 0 <= i < t.entities.len() implies (#[trigger] t.entities[i]).spec.level_unload by {
            assert(t.entities[i] == created(scene(), g.next_id)[i - g.entities.len()]);
        }
        assert forall|i: int| 0 <= i < t.entities.len() implies (#[trigger] t.entities[i]).id == g.next_id + i by {
            assert(t.entities[i] == created(scene(), g.next_id)[i - g.entities.len()]);
        }
    }
}

proof fn lemma_play_keeps_wf(t: GameView, delta: u64, moves: Seq<Moved>, shots: Seq<SpawnSpec>)
    requires
        t.wf(),
        t.state == GameState::Playing,
        t.next_id + shots.len() <= u64::MAX,
        forall|i: int| 0 <= i < shots.len() ==> launchable(#[trigger] shots[i]),
    ensures
        play_systems(t, delta, moves, shots).wf(),
{
    let w1 = all_moved(t.entities, moves);
    let fresh = created(shots, t.next_id);
    let w2 = w1 + fresh;
    let bound: u64 = (t.next_id + shots.len()) as u64;
    assert forall|i: int| 0 <= i < w2.len() implies (#[trigger] w2[i]).spec.level_unload && w2[i].id < bound
        && (i < w1.len() ==> w2[i].id == t.entities[i].id)
        && (i >= w1.len() ==> w2[i].id == t.next_id + (i - w1.len())) by {
        if i < w1.len() {
            assert(w2[i] == w1[i]);
        } else {
            assert(w2[i] == fresh[i - w1.len()]);
            assert(launchable(shots[i - w1.len()]));
        }
    }
    assert forall|i: int, j: int| 0 <= i < j < w2.len() implies (#[trigger] w2[i]).id < (#[trigger] w2[j]).id by {
        assert(w2[i].spec.level_unload && w2[j].spec.level_unload);
    }
    lemma_filter_keeps_ids(w2, not_fallen(), bound);
    let w3 = w2.filter(not_fallen());
    assert forall|i: int| 0 <= i < w3.len() implies (#[trigger] w3[i]).spec.level_unload by {
        assert(w3.contains(w3[i]));
        w2.lemma_filter_contains_rev(not_fallen(), w3[i]);
    }
}

/// Leaving the play state removes every entity of the round; in a
/// well-formed game that leaves the world empty.
pub proof fn lemma_leaving_play_clears_round(g: GameView)
    requires
        g.state == GameState::Playing,
        g.next == Some(GameState::MainMenu),
    ensures
        transitioned(g).state == GameState::MainMenu,
        forall|i: int|
            0 <= i < transitioned(g).entities.len() ==> !(#[trigger] transitioned(g).entities[i]).spec.level_unload,
        g.wf() ==> transitioned(g).entities.len() == 0,
{
    let f = g.entities.filter(outlives_round());
    assert forall|i: int| 0 <= i < f.len() implies !(#[trigger] f[i]).spec.level_unload by {
        assert(outlives_round()(f[i]));
    }
    if g.wf() {
        lemma_all_in_round_leaves_nothing(g.entities);
    }
}

/// A frame of play that leaves no pin is followed by a frame in the menu,
/// with nothing of the round left in the world.
pub proof fn lemma_cleared_lane_ends_round(
    g: GameView,
    delta: u64,
    messages: Seq<Message>,
    moves: Seq<Moved>,
    shots: Seq<SpawnSpec>,
    delta2: u64,
    messages2: Seq<Message>,
    moves2: Seq<Moved>,
    shots2: Seq<SpawnSpec>,
)
    requires
        after_frame(g, delta, messages, moves, shots).state == GameState::Playing,
        after_frame(g, delta, messages, moves, shots).pins() == 0,
    ensures
        ({
            let h = after_frame(after_frame(g, delta, messages, moves, shots), delta2, messages2, moves2, shots2);
            &&& h.state == GameState::MainMenu
            &&& forall|i: int| 0 <= i < h.entities.len() ==> !(#[trigger] h.entities[i]).spec.level_unload
        }),
{
    let g1 = after_frame(g, delta, messages, moves, shots);
    assert(g1.next == Some(GameState::MainMenu));
    lemma_leaving_play_clears_round(g1);
}

/// After any frame of a well-formed game, no ball or pin at or below the
/// fall limit is left in the world.
pub proof fn lemma_no_fallen_after_frame(
    g: GameView,
    delta: u64,
    messages: Seq<Message>,
    moves: Seq<Moved>,
    shots: Seq<SpawnSpec>,
)
    requires
        g.wf(),
    ensures
        forall|i: int|
            0 <= i < after_frame(g, delta, messages, moves, shots).entities.len() ==> !fallen(
                #[trigger] after_frame(g, delta, messages, moves, shots).entities[i],
            ),
{
    let t = transitioned(g);
    let h = after_frame(g, delta, messages, moves, shots);
    if t.state == GameState::MainMenu {
        if g.state == GameState::Playing {
            lemma_leaving_play_clears_round(g);
        }
        assert(h.entities.len() == 0);
    } else {
        assert forall|i: int| 0 <= i < h.entities.len() implies !fallen(#[trigger] h.entities[i]) by {
            assert(not_fallen()(h.entities[i]));
        }
    }
}

} // verus!
