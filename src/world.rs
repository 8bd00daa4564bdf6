//! The entities of a round, each with the id under which it was created.
use vstd::prelude::*;
use crate::scene::{Role, SpawnSpec, FALL_LIMIT};

verus! {

/// One live entity; `spec.pos` is its current position.
#[derive(Clone, Copy, Debug, PartialEq, Eq, Structural)]
pub struct Entity {
    pub id: u64,
    pub spec: SpawnSpec,
}

/// A new height that the physics engine reports for entity `id`.
#[derive(Clone, Copy, Debug, PartialEq, Eq, Structural)]
pub struct Moved {
    pub id: u64,
    pub y: i64,
}

/// The entity store: live entities in creation order and the next fresh id.
#[derive(Debug)]
pub struct World {
    pub entities: Vec<Entity>,
    pub next_id: u64,
}

/// Balls and pins that fell to the limit or below leave the world.
pub open spec fn fallen(e: Entity) -> bool {
    (e.spec.role == Role::Ball || e.spec.role == Role::Pin) && e.spec.pos.y <= FALL_LIMIT
}

pub open spec fn not_fallen() -> spec_fn(Entity) -> bool {
    |e: Entity| !fallen(e)
}

pub open spec fn outlives_round() -> spec_fn(Entity) -> bool {
    |e: Entity| !e.spec.level_unload
}

pub open spec fn is_pin() -> spec_fn(Entity) -> bool {
    |e: Entity| e.spec.role == Role::Pin
}

/// The height of entity `id` after the reports in `moves`: the last report
/// for it wins, and without one it keeps `y`.
pub open spec fn height_after(moves: Seq<Moved>, id: u64, y: i64) -> i64
    decreases moves.len(),
{
    if moves.len() == 0 {
        y
    } else if moves.last().id == id {
        moves.last().y
    } else {
        height_after(moves.drop_last(), id, y)
    }
}

pub open spec fn moved(e: Entity, moves: Seq<Moved>) -> Entity {
    Entity {
        id: e.id,
        spec: SpawnSpec {
            pos: crate::scene::Vec3i {
                x: e.spec.pos.x,
                y: height_after(moves, e.id, e.spec.pos.y),
                z: e.spec.pos.z,
            },
            ..e.spec
        },
    }
}

pub open spec fn all_moved(s: Seq<Entity>, moves: Seq<Moved>) -> Seq<Entity> {
    Seq::new(s.len(), |i: int| moved(s[i], moves))
}

/// The entities that `specs` become when created from id `first` on.
pub open spec fn created(specs: Seq<SpawnSpec>, first: u64) -> Seq<Entity> {
    Seq::new(specs.len(), |i: int| Entity { id: (first + i) as u64, spec: specs[i] })
}

/// Ids rise along the sequence and stay below `bound`, so no two entities
/// share one and a fresh id from `bound` on is unused.
pub open spec fn ids_ascending(s: Seq<Entity>, bound: u64) -> bool {
    &&& forall|i: int, j: int| 0 <= i < j < s.len() ==> (#[trigger] s[i]).id < (#[trigger] s[j]).id
    &&& forall|i: int| 0 <= i < s.len() ==> (#[trigger] s[i]).id < bound
}

/// Keeping some entities keeps the ids ascending.
pub proof fn lemma_filter_keeps_ids(s: Seq<Entity>, p: spec_fn(Entity) -> bool, bound: u64)
    requires
        ids_ascending(s, bound),
    ensures
        ids_ascending(s.filter(p), bound),
    decreases s.len(),
{
    reveal(Seq::filter);
    if s.len() > 0 {
        let rest = s.drop_last();
        lemma_filter_keeps_ids(rest, p, bound);
        let sub = rest.filter(p);
        if p(s.last()) {
            assert forall|i: int| 0 <= i < sub.len() implies (#[trigger] sub[i]).id < s.last().id by {
                assert(sub.contains(sub[i]));
                rest.lemma_filter_contains_rev(p, sub[i]);
                let k = choose|k: int| 0 <= k < rest.len() && rest[k] == sub[i];
                assert(s[k] == rest[k]);
            }
            let out = sub.push(s.last());
            assert forall|i: int, j: int| 0 <= i < j < out.len() implies (#[trigger] out[i]).id < (#[trigger] out[j]).id by {
                if j == out.len() - 1 {
                    assert(out[i] == sub[i]);
                } else {
                    assert(out[i] == sub[i] && out[j] == sub[j]);
                }
            }
            assert(s.filter(p) == out);
        }
    }
}

fn height_of(moves: &Vec<Moved>, id: u64, y: i64) -> (r: i64)
    ensures
        r == height_after(moves@, id, y),
{
    let mut h = y;
    let mut j: usize = 0;
    while j < moves.len()
        invariant
            j <= moves@.len(),
            h == height_after(moves@.take(j as int), id, y),
        decreases moves@.len() - j,
    {
        assert(moves@.take(j as int + 1).drop_last() =~= moves@.take(j as int));
        if moves[j].id == id {
            h = moves[j].y;
        }
        j = j + 1;
    }
    assert(moves@.take(j as int) =~= moves@);
    h
}

impl World {
    /// The empty world.
    pub fn new() -> (r: World)
        ensures
            r.entities@.len() == 0,
            r.next_id == 0,
    {
        World { entities: Vec::new(), next_id: 0 }
    }

    /// Creates one entity under the next fresh id and returns that id.
    pub fn spawn(&mut self, spec: SpawnSpec) -> (id: u64)
        requires
            old(self).next_id < u64::MAX,
        ensures
            id == old(self).next_id,
            final(self).next_id == old(self).next_id + 1,
            final(self).entities@ == old(self).entities@.push(Entity { id, spec }),
    {
        let id = self.next_id;
        self.entities.push(Entity { id, spec });
        self.next_id = id + 1;
        id
    }

    /// Creates the entities of `specs` in order.
    pub fn spawn_all(&mut self, specs: &Vec<SpawnSpec>)
        requires
            old(self).next_id + specs@.len() <= u64::MAX,
        ensures
            final(self).next_id == old(self).next_id + specs@.len(),
            final(self).entities@ == old(self).entities@ + created(specs@, old(self).next_id),
    {
        let mut i: usize = 0;
        while i < specs.len()
            invariant
                i <= specs@.len(),
                old(self).next_id + specs@.len() <= u64::MAX,
                self.next_id == old(self).next_id + i,
                self.entities@ == old(self).entities@ + created(specs@.take(i as int), old(self).next_id),
            decreases specs@.len() - i,
        {
            self.spawn(specs[i]);
            assert(created(specs@.take(i as int + 1), old(self).next_id) =~= created(
                specs@.take(i as int),
                old(self).next_id,
            ).push(Entity { id: (old(self).next_id + i) as u64, spec: specs@[i as int] }));
            i = i + 1;
        }
        assert(specs@.take(i as int) =~= specs@);
    }

    /// Takes the heights that the physics engine reports.
    pub fn apply_moves(&mut self, moves: &Vec<Moved>)
        ensures
            final(self).next_id == old(self).next_id,
            final(self).entities@ == all_moved(old(self).entities@, moves@),
    {
        let mut out: Vec<Entity> = Vec::new();
        let mut i: usize = 0;
        while i < self.entities.len()
            invariant
                i <= self.entities@.len(),
                self.entities@ == old(self).entities@,
                out@ == all_moved(self.entities@.take(i as int), moves@),
            decreases self.entities@.len() - i,
        {
            let e = self.entities[i];
            let y = height_of(moves, e.id, e.spec.pos.y);
            let mut spec = e.spec;
            spec.pos.y = y;
            out.push(Entity { id: e.id, spec });
            assert(out@ =~= all_moved(self.entities@.take(i as int + 1), moves@));
            i = i + 1;
        }
        assert(self.entities@.take(i as int) =~= self.entities@);
        self.entities = out;
    }

    /// Removes every ball and pin that fell to the limit or below.
    pub fn despawn_fallen(&mut self)
        ensures
            final(self).next_id == old(self).next_id,
            final(self).entities@ == old(self).entities@.filter(not_fallen()),
    {
        let mut out: Vec<Entity> = Vec::new();
        let mut i: usize = 0;
        while i < self.entities.len()
            invariant
                i <= self.entities@.len(),
                self.entities@ == old(self).entities@,
                out@ == self.entities@.take(i as int).filter(not_fallen()),
            decreases self.entities@.len() - i,
        {
            let e = self.entities[i];
            proof {
                reveal(Seq::filter);
                assert(self.entities@.take(i as int + 1).drop_last() =~= self.entities@.take(i as int));
            }
            if !((matches!(e.spec.role, Role::Ball) || matches!(e.spec.role, Role::Pin))
                && e.spec.pos.y <= FALL_LIMIT) {
                out.push(e);
            }
            i = i + 1;
        }
        assert(self.entities@.take(i as int) =~= self.entities@);
        self.entities = out;
    }

    /// Removes every entity that belongs to the round.
    pub fn cleanup(&mut self)
        ensures
            final(self).next_id == old(self).next_id,
            final(self).entities@ == old(self).entities@.filter(outlives_round()),
    {
        let mut out: Vec<Entity> = Vec::new();
        let mut i: usize = 0;
        while i < self.entities.len()
            invariant
                i <= self.entities@.len(),
                self.entities@ == old(self).entities@,
                out@ == self.entities@.take(i as int).filter(outlives_round()),
            decreases self.entities@.len() - i,
        {
            let e = self.entities[i];
            proof {
                reveal(Seq::filter);
                assert(self.entities@.take(i as int + 1).drop_last() =~= self.entities@.take(i as int));
            }
            if !e.spec.level_unload {
                out.push(e);
            }
            i = i + 1;
        }
        assert(self.entities@.take(i as int) =~= self.entities@);
        self.entities = out;
    }

    /// The number of live pins.
    pub fn pin_count(&self) -> (r: usize)
        ensures
            r == self.entities@.filter(is_pin()).len(),
    {
        let mut n: usize = 0;
        let mut i: usize = 0;
        while i < self.entities.len()
            invariant
                i <= self.entities@.len(),
                n == self.entities@.take(i as int).filter(is_pin()).len(),
                n <= i,
            decreases self.entities@.len() - i,
        {
            proof {
                reveal(Seq::filter);
                assert(self.entities@.take(i as int + 1).drop_last() =~= self.entities@.take(i as int));
            }
            if matches!(self.entities[i].spec.role, Role::Pin) {
                n = n + 1;
            }
            i = i + 1;
        }
        assert(self.entities@.take(i as int) =~= self.entities@);
        n
    }

    /// Whether an entity with this id is live.
    pub fn contains(&self, id: u64) -> (r: bool)
        ensures
            r == exists|i: int| 0 <= i < self.entities@.len() && #[trigger] self.entities@[i].id == id,
    {
        let mut i: usize = 0;
        while i < self.entities.len()
            invariant
                i <= self.entities@.len(),
                forall|k: int| 0 <= k < i ==> #[trigger] self.entities@[k].id != id,
            decreases self.entities@.len() - i,
        {
            if self.entities[i].id == id {
                return true;
            }
            i = i + 1;
        }
        false
    }
}

} // verus!
