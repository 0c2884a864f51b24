use vstd::prelude::*;

use crate::component_store::{claim_slot, claimed, first_free};
use crate::components::{Component, LogComponent, PositionComponent, SpriteComponent};

verus! {

/// One row of the entity table: liveness, capability flags, and the slot
/// of each component kind (0 is the sentinel slot of that kind).
#[derive(Clone, Copy, Debug, PartialEq, Eq, Structural)]
pub struct Entity {
    pub id: u32,
    pub exists: bool,
    pub log_ind: u32,
    pub sprite_ind: u32,
    pub pos_ind: u32,
    pub use_log: bool,
    pub use_draw: bool,
    pub use_player: bool,
}

impl Component for Entity {
    open spec fn live(&self) -> bool {
        self.exists
    }

    open spec fn is_fresh(&self, slot: u32) -> bool {
        *self == Entity {
            id: slot,
            exists: true,
            log_ind: 0,
            sprite_ind: 0,
            pos_ind: 0,
            use_log: false,
            use_draw: false,
            use_player: false,
        }
    }

    open spec fn is_uninit(&self) -> bool {
        *self == Entity {
            id: 0,
            exists: false,
            log_ind: 0,
            sprite_ind: 0,
            pos_ind: 0,
            use_log: false,
            use_draw: false,
            use_player: false,
        }
    }

    proof fn lemma_fresh_is_live(r: Self, slot: u32) {
    }

    /// Creates an uninitialized entity.
    fn uninit() -> (r: Self) {
        Entity {
            id: 0,
            exists: false,
            log_ind: 0,
            sprite_ind: 0,
            pos_ind: 0,
            use_log: false,
            use_draw: false,
            use_player: false,
        }
    }

    fn fresh(slot: u32) -> (r: Self) {
        Entity {
            id: slot,
            exists: true,
            log_ind: 0,
            sprite_ind: 0,
            pos_ind: 0,
            use_log: false,
            use_draw: false,
            use_player: false,
        }
    }

    fn is_live(&self) -> (r: bool) {
        self.exists
    }
}

/// Owns the entity table and one slot arena per component kind. Slot 0 of
/// every arena is a sentinel that is never handed out.
pub struct EntityManager {
    entities: Vec<Entity>,
    log_comps: Vec<LogComponent>,
    sprite_comps: Vec<SpriteComponent>,
    pos_comps: Vec<PositionComponent>,
}

impl EntityManager {
    /// The entity table.
    pub closed spec fn entities_view(&self) -> Seq<Entity> {
        self.entities@
    }

    /// The Log arena.
    pub closed spec fn logs(&self) -> Seq<LogComponent> {
        self.log_comps@
    }

    /// The Sprite arena.
    pub closed spec fn sprites(&self) -> Seq<SpriteComponent> {
        self.sprite_comps@
    }

    /// The Position arena.
    pub closed spec fn positions(&self) -> Seq<PositionComponent> {
        self.pos_comps@
    }

    /// Every arena holds its sentinel, every id fits in a `u32`, and every
    /// entity's component slots lie inside their arenas.
    pub open spec fn wf(&self) -> bool {
        &&& 1 <= self.logs().len() <= u32::MAX
        &&& 1 <= self.sprites().len() <= u32::MAX
        &&& 1 <= self.positions().len() <= u32::MAX
        &&& self.entities_view().len() <= u32::MAX
        &&& forall|i: int|
            0 <= i < self.entities_view().len() ==> {
                &&& (#[trigger] self.entities_view()[i]).log_ind < self.logs().len()
                &&& self.entities_view()[i].sprite_ind < self.sprites().len()
                &&& self.entities_view()[i].pos_ind < self.positions().len()
            }
    }

    /// `id` names a row of the entity table.
    pub open spec fn valid_id(&self, id: u32) -> bool {
        id < self.entities_view().len()
    }

    /// The Log record that entity `id` is bound to.
    pub open spec fn log_of(&self, id: u32) -> LogComponent {
        self.logs()[self.entities_view()[id as int].log_ind as int]
    }

    /// The Sprite record that entity `id` is bound to.
    pub open spec fn sprite_of(&self, id: u32) -> SpriteComponent {
        self.sprites()[self.entities_view()[id as int].sprite_ind as int]
    }

    /// The Position record that entity `id` is bound to.
    pub open spec fn pos_of(&self, id: u32) -> PositionComponent {
        self.positions()[self.entities_view()[id as int].pos_ind as int]
    }

    /// An empty entity table, and each arena holding only its sentinel.
    pub fn new() -> (r: Self)
        ensures
            r.wf(),
            r.entities_view().len() == 0,
            r.logs().len() == 1,
            r.logs()[0].is_fresh(0),
            r.sprites().len() == 1,
            r.sprites()[0].is_fresh(0),
            r.positions().len() == 1,
            r.positions()[0].is_fresh(0),
    {
        let mut log_comps: Vec<LogComponent> = Vec::new();
        log_comps.push(LogComponent::fresh(0));
        let mut sprite_comps: Vec<SpriteComponent> = Vec::new();
        sprite_comps.push(SpriteComponent::fresh(0));
        let mut pos_comps: Vec<PositionComponent> = Vec::new();
        pos_comps.push(PositionComponent::fresh(0));
        EntityManager { entities: Vec::new(), log_comps, sprite_comps, pos_comps }
    }

    /// Number of rows in the entity table, live or not.
    pub fn entity_count(&self) -> (r: usize)
        ensures
            r == self.entities_view().len(),
    {
        self.entities.len()
    }

    /// Number of slots in the Log arena, sentinel included.
    pub fn log_count(&self) -> (r: usize)
        ensures
            r == self.logs().len(),
    {
        self.log_comps.len()
    }

    /// Number of slots in the Sprite arena, sentinel included.
    pub fn sprite_count(&self) -> (r: usize)
        ensures
            r == self.sprites().len(),
    {
        self.sprite_comps.len()
    }

    /// Number of slots in the Position arena, sentinel included.
    pub fn pos_count(&self) -> (r: usize)
        ensures
            r == self.positions().len(),
    {
        self.pos_comps.len()
    }


    /// The row of entity `id`.
    pub fn entity(&self, id: u32) -> (r: Entity)
        requires
            self.valid_id(id),
        ensures
            r == self.entities_view()[id as int],
    {
        self.entities[id as usize]
    }

    /// Creates a new entity and returns its ID: the lowest row that is not
    /// live is reused, else the table grows by one row. The row starts with
    /// no capability and every component slot at the sentinel.
    pub fn create_entity(&mut self) -> (id: u32)
        requires
            old(self).wf(),
            old(self).entities_view().len() < u32::MAX,
        ensures
            final(self).wf(),
            first_free(old(self).entities_view(), 0, id as int),
            claimed(old(self).entities_view(), final(self).entities_view(), id as int),
            final(self).logs() == old(self).logs(),
            final(self).sprites() == old(self).sprites(),
            final(self).positions() == old(self).positions(),
    {
        claim_slot(&mut self.entities, 0)
    }
    /// Gives up entity `id`: its row and the component slots it is bound
    /// to (other than the sentinels) become free for reuse.
    pub fn destroy_entity(&mut self, id: u32)
        requires
            old(self).wf(),
            old(self).valid_id(id),
        ensures
            final(self).wf(),
            final(self).entities_view() == old(self).entities_view().update(
                id as int,
                Entity { exists: false, ..old(self).entities_view()[id as int] },
            ),
            ({
                let e = old(self).entities_view()[id as int];
                &&& final(self).logs() == if e.log_ind == 0 {
                    old(self).logs()
                } else {
                    old(self).logs().update(
                        e.log_ind as int,
                        LogComponent { exists: false, ..old(self).logs()[e.log_ind as int] },
                    )
                }
                &&& final(self).sprites() == if e.sprite_ind == 0 {
                    old(self).sprites()
                } else {
                    old(self).sprites().update(
                        e.sprite_ind as int,
                        SpriteComponent { exists: false, ..old(self).sprites()[e.sprite_ind as int] },
                    )
                }
                &&& final(self).positions() == if e.pos_ind == 0 {
                    old(self).positions()
                } else {
                    old(self).positions().update(
                        e.pos_ind as int,
                        PositionComponent { exists: false, ..old(self).positions()[e.pos_ind as int] },
                    )
                }
            }),
    {
        let e = self.entities[id as usize];
        if e.log_ind != 0 {
            self.log_comps[e.log_ind as usize].exists = false;
        }
        if e.sprite_ind != 0 {
            self.sprite_comps[e.sprite_ind as usize].exists = false;
        }
        if e.pos_ind != 0 {
            self.pos_comps[e.pos_ind as usize].exists = false;
        }
        self.entities[id as usize].exists = false;
    }

    /// Activates the logging system for the entity.
    pub fn set_use_log(&mut self, entity_id: u32)
        requires
            old(self).wf(),
            old(self).valid_id(entity_id),
        ensures
            final(self).wf(),
            final(self).entities_view() == old(self).entities_view().update(
                entity_id as int,
                Entity { use_log: true, ..old(self).entities_view()[entity_id as int] },
            ),
            final(self).logs() == old(self).logs(),
            final(self).sprites() == old(self).sprites(),
            final(self).positions() == old(self).positions(),
    {
        self.entities[entity_id as usize].use_log = true;
    }

    /// Activates the draw system for the entity.
    pub fn set_use_draw(&mut self, entity_id: u32)
        requires
            old(self).wf(),
            old(self).valid_id(entity_id),
        ensures
            final(self).wf(),
            final(self).entities_view() == old(self).entities_view().update(
                entity_id as int,
                Entity { use_draw: true, ..old(self).entities_view()[entity_id as int] },
            ),
            final(self).logs() == old(self).logs(),
            final(self).sprites() == old(self).sprites(),
            final(self).positions() == old(self).positions(),
    {
        self.entities[entity_id as usize].use_draw = true;
    }

    /// Activates the player system for the entity.
    pub fn set_use_player(&mut self, entity_id: u32)
        requires
            old(self).wf(),
            old(self).valid_id(entity_id),
        ensures
            final(self).wf(),
            final(self).entities_view() == old(self).entities_view().update(
                entity_id as int,
                Entity { use_player: true, ..old(self).entities_view()[entity_id as int] },
            ),
            final(self).logs() == old(self).logs(),
            final(self).sprites() == old(self).sprites(),
            final(self).positions() == old(self).positions(),
    {
        self.entities[entity_id as usize].use_player = true;
    }

    /// Adds a Log component to the entity: the lowest free slot of the
    /// Log arena after the sentinel is reused, else the arena grows by
    /// one; the slot gets a fresh record and is bound to the entity.
    pub fn add_log_comp(&mut self, entity_id: u32)
        requires
            old(self).wf(),
            old(self).valid_id(entity_id),
            old(self).logs().len() < u32::MAX,
        ensures
            final(self).wf(),
            ({
                let slot = final(self).entities_view()[entity_id as int].log_ind;
                &&& first_free(old(self).logs(), 1, slot as int)
                &&& claimed(old(self).logs(), final(self).logs(), slot as int)
                &&& final(self).entities_view() == old(self).entities_view().update(
                    entity_id as int,
                    Entity { log_ind: slot, ..old(self).entities_view()[entity_id as int] },
                )
            }),
            final(self).log_of(entity_id).is_fresh(final(self).entities_view()[entity_id as int].log_ind),
            final(self).sprites() == old(self).sprites(),
            final(self).positions() == old(self).positions(),
    {
        let slot = claim_slot(&mut self.log_comps, 1);
        self.entities[entity_id as usize].log_ind = slot;
    }

    /// Returns the entity's Log component for change in place: before
    /// the entity was given one, that is the shared sentinel record.
    pub fn get_log_comp(&mut self, entity_id: u32) -> (r: &mut LogComponent)
        requires
            old(self).wf(),
            old(self).valid_id(entity_id),
        ensures
            *r == old(self).log_of(entity_id),
            final(self).logs() == old(self).logs().update(
                old(self).entities_view()[entity_id as int].log_ind as int,
                *final(r),
            ),
            final(self).wf(),
            final(self).entities_view() == old(self).entities_view(),
            final(self).sprites() == old(self).sprites(),
            final(self).positions() == old(self).positions(),
    {
        let ind = self.entities[entity_id as usize].log_ind;
        &mut self.log_comps[ind as usize]
    }

    /// Returns the entity's Log component.
    pub fn get_log_comp_immut(&self, entity_id: u32) -> (r: &LogComponent)
        requires
            self.wf(),
            self.valid_id(entity_id),
        ensures
            *r == self.log_of(entity_id),
    {
        let ind = self.entities[entity_id as usize].log_ind;
        &self.log_comps[ind as usize]
    }

    /// Adds a Sprite component to the entity: the lowest free slot of the
    /// Sprite arena after the sentinel is reused, else the arena grows by
    /// one; the slot gets a fresh record and is bound to the entity.
    pub fn add_sprite_comp(&mut self, entity_id: u32)
        requires
            old(self).wf(),
            old(self).valid_id(entity_id),
            old(self).sprites().len() < u32::MAX,
        ensures
            final(self).wf(),
            ({
                let slot = final(self).entities_view()[entity_id as int].sprite_ind;
                &&& first_free(old(self).sprites(), 1, slot as int)
                &&& claimed(old(self).sprites(), final(self).sprites(), slot as int)
                &&& final(self).entities_view() == old(self).entities_view().update(
                    entity_id as int,
                    Entity { sprite_ind: slot, ..old(self).entities_view()[entity_id as int] },
                )
            }),
            final(self).sprite_of(entity_id).is_fresh(final(self).entities_view()[entity_id as int].sprite_ind),
            final(self).logs() == old(self).logs(),
            final(self).positions() == old(self).positions(),
    {
        let slot = claim_slot(&mut self.sprite_comps, 1);
        self.entities[entity_id as usize].sprite_ind = slot;
    }

    /// Returns the entity's Sprite component for change in place: before
    /// the entity was given one, that is the shared sentinel record.
    pub fn get_sprite_comp(&mut self, entity_id: u32) -> (r: &mut SpriteComponent)
        requires
            old(self).wf(),
            old(self).valid_id(entity_id),
        ensures
            *r == old(self).sprite_of(entity_id),
            final(self).sprites() == old(self).sprites().update(
                old(self).entities_view()[entity_id as int].sprite_ind as int,
                *final(r),
            ),
            final(self).wf(),
            final(self).entities_view() == old(self).entities_view(),
            final(self).logs() == old(self).logs(),
            final(self).positions() == old(self).positions(),
    {
        let ind = self.entities[entity_id as usize].sprite_ind;
        &mut self.sprite_comps[ind as usize]
    }

    /// Returns the entity's Sprite component.
    pub fn get_sprite_comp_immut(&self, entity_id: u32) -> (r: &SpriteComponent)
        requires
            self.wf(),
            self.valid_id(entity_id),
        ensures
            *r == self.sprite_of(entity_id),
    {
        let ind = self.entities[entity_id as usize].sprite_ind;
        &self.sprite_comps[ind as usize]
    }

    /// Adds a Position component to the entity: the lowest free slot of the
    /// Position arena after the sentinel is reused, else the arena grows by
    /// one; the slot gets a fresh record and is bound to the entity.
    pub fn add_pos_comp(&mut self, entity_id: u32)
        requires
            old(self).wf(),
            old(self).valid_id(entity_id),
            old(self).positions().len() < u32::MAX,
        ensures
            final(self).wf(),
            ({
                let slot = final(self).entities_view()[entity_id as int].pos_ind;
                &&& first_free(old(self).positions(), 1, slot as int)
                &&& claimed(old(self).positions(), final(self).positions(), slot as int)
                &&& final(self).entities_view() == old(self).entities_view().update(
                    entity_id as int,
                    Entity { pos_ind: slot, ..old(self).entities_view()[entity_id as int] },
                )
            }),
            final(self).pos_of(entity_id).is_fresh(final(self).entities_view()[entity_id as int].pos_ind),
            final(self).logs() == old(self).logs(),
            final(self).sprites() == old(self).sprites(),
    {
        let slot = claim_slot(&mut self.pos_comps, 1);
        self.entities[entity_id as usize].pos_ind = slot;
    }

    /// Returns the entity's Position component for change in place: before
    /// the entity was given one, that is the shared sentinel record.
    pub fn get_pos_comp(&mut self, entity_id: u32) -> (r: &mut PositionComponent)
        requires
            old(self).wf(),
            old(self).valid_id(entity_id),
        ensures
            *r == old(self).pos_of(entity_id),
            final(self).positions() == old(self).positions().update(
                old(self).entities_view()[entity_id as int].pos_ind as int,
                *final(r),
            ),
            final(self).wf(),
            final(self).entities_view() == old(self).entities_view(),
            final(self).logs() == old(self).logs(),
            final(self).sprites() == old(self).sprites(),
    {
        let ind = self.entities[entity_id as usize].pos_ind;
        &mut self.pos_comps[ind as usize]
    }

    /// Returns the entity's Position component.
    pub fn get_pos_comp_immut(&self, entity_id: u32) -> (r: &PositionComponent)
        requires
            self.wf(),
            self.valid_id(entity_id),
        ensures
            *r == self.pos_of(entity_id),
    {
        let ind = self.entities[entity_id as usize].pos_ind;
        &self.pos_comps[ind as usize]
    }
}

} // verus!
