use vstd::prelude::*;

use crate::components::Component;
use crate::entity_manager::EntityManager;
use crate::input_manager::{after_frame, after_press, button_slot, ButtonState, InputManager};
use crate::level::{block_positions, level_blocks, BLOCK_SIZE};
use crate::systems::draw_system::{self, draw_pass, RenderBook, RenderCall};
use crate::systems::logging_system::{self, log_pass};
use crate::systems::player_system::{self, pad_of, player_pass};

verus! {

/// Texture of the player entity.
pub const PLAYER_TEXTURE: &'static str = "assets/ferris.png";

/// Texture of level blocks.
pub const BLOCK_TEXTURE: &'static str = "assets/tileset.png";

/// Cell of the block texture that level blocks show.
pub const BLOCK_SPRITE: u32 = 2;

/// The whole simulation state: entities and their components, button
/// states, and what the renderer has been asked to create.
pub struct Game {
    pub entity_mgr: EntityManager,
    pub input_mgr: InputManager,
    pub render_book: RenderBook,
}

/// Entity `id` of `m` is a live, drawn level block at pixel (`x`, `y`),
/// with its own live Sprite and Position records.
pub open spec fn is_block_at(m: EntityManager, id: u32, x: int, y: int) -> bool {
    let e = m.entities_view()[id as int];
    let s = m.sprite_of(id);
    let p = m.pos_of(id);
    &&& m.valid_id(id)
    &&& e.exists && e.use_draw && !e.use_player && !e.use_log
    &&& e.sprite_ind != 0 && e.pos_ind != 0
    &&& s.exists && s.should_update && s.tex_name@ == BLOCK_TEXTURE@
    &&& s.sprite_index == BLOCK_SPRITE && s.tilemap is None
    &&& p.exists && p.x == x && p.y == y
}

/// Going from `before` to `after` keeps what is live: every live entity
/// row, every live Sprite and Position record, and the whole Log arena are
/// unchanged, and no table shrinks.
pub open spec fn keeps_live(before: EntityManager, after: EntityManager) -> bool {
    &&& before.entities_view().len() <= after.entities_view().len()
    &&& before.sprites().len() <= after.sprites().len()
    &&& before.positions().len() <= after.positions().len()
    &&& forall|j: int|
        0 <= j < before.entities_view().len() && before.entities_view()[j].exists
            ==> #[trigger] after.entities_view()[j] == before.entities_view()[j]
    &&& forall|k: int|
        0 <= k < before.sprites().len() && before.sprites()[k].exists ==> #[trigger] after.sprites()[k]
            == before.sprites()[k]
    &&& forall|k: int|
        0 <= k < before.positions().len() && before.positions()[k].exists
            ==> #[trigger] after.positions()[k] == before.positions()[k]
    &&& after.logs() == before.logs()
}

/// `ids` holds row `j`.
pub open spec fn names(ids: Seq<u32>, j: int) -> bool {
    exists|i: int| 0 <= i < ids.len() && ids[i] as int == j
}

/// Row `j` of `after`, unless `ids` names it, was already a row of
/// `before` and is unchanged.
pub open spec fn row_kept(before: EntityManager, after: EntityManager, ids: Seq<u32>, j: int) -> bool {
    0 <= j < after.entities_view().len() && !names(ids, j) ==> j < before.entities_view().len()
        && after.entities_view()[j] == before.entities_view()[j]
}

/// Every row of `after` that `ids` does not name was already a row of
/// `before` and is unchanged: no other entity was created or touched.
pub open spec fn only_rows(before: EntityManager, after: EntityManager, ids: Seq<u32>) -> bool {
    forall|j: int| #[trigger] row_kept(before, after, ids, j)
}

/// Every row of `after` but row `id` was already a row of `before` and is
/// unchanged: no other entity was created or touched.
pub open spec fn only_row(before: EntityManager, after: EntityManager, id: u32) -> bool {
    forall|j: int|
        0 <= j < after.entities_view().len() && j != id ==> j < before.entities_view().len()
            && #[trigger] after.entities_view()[j] == before.entities_view()[j]
}

/// Rows created one step after another compose: what `ids0` leaves
/// unchanged from `a` to `b`, and `[id]` from `b` to `c`, `ids0` with `id`
/// leaves unchanged from `a` to `c`.
proof fn lemma_only_rows_step(a: EntityManager, b: EntityManager, c: EntityManager, ids0: Seq<u32>, id: u32)
    requires
        only_rows(a, b, ids0),
        only_row(b, c, id),
    ensures
        only_rows(a, c, ids0.push(id)),
{
    let ids = ids0.push(id);
    assert forall|j: int| #[trigger] row_kept(a, c, ids, j) by {
        assert(row_kept(a, b, ids0, j));
        assert(ids[ids0.len() as int] == id);
        if 0 <= j < c.entities_view().len() && !names(ids, j) {
            assert(j != id as int) by {
                if j == id as int {
                    assert(ids[ids0.len() as int] as int == j);
                }
            }
            assert(c.entities_view()[j] == b.entities_view()[j]);
            assert(!names(ids0, j)) by {
                if names(ids0, j) {
                    let i = choose|i: int| 0 <= i < ids0.len() && ids0[i] as int == j;
                    assert(ids[i] == ids0[i]);
                }
            }
        }
    }
}

impl Game {
    /// The entity manager and the input manager are well formed.
    pub open spec fn wf(&self) -> bool {
        self.entity_mgr.wf() && self.input_mgr.wf()
    }

    /// Room for `k` more entities, and for one more component of each kind
    /// per entity.
    pub open spec fn has_room(&self, k: int) -> bool {
        &&& self.entity_mgr.entities_view().len() + k < u32::MAX
        &&& self.entity_mgr.logs().len() + k < u32::MAX
        &&& self.entity_mgr.sprites().len() + k < u32::MAX
        &&& self.entity_mgr.positions().len() + k < u32::MAX
    }

    /// An empty world: no entity, every button up, no key mapped, no quad
    /// created on the renderer and only its default texture loaded.
    pub fn new() -> (r: Self)
        ensures
            r.wf(),
            r.entity_mgr.entities_view().len() == 0,
            r.entity_mgr.logs().len() == 1,
            r.entity_mgr.logs()[0].is_fresh(0),
            r.entity_mgr.sprites().len() == 1,
            r.entity_mgr.sprites()[0].is_fresh(0),
            r.entity_mgr.positions().len() == 1,
            r.entity_mgr.positions()[0].is_fresh(0),
            forall|i: int| 0 <= i < 6 ==> r.input_mgr.states()[i] == ButtonState::UP,
            r.input_mgr.key_map().is_empty(),
            r.render_book.view().quad_count == 0,
            r.render_book.view().textures == seq![seq!['b', 'l', 'a', 'c', 'k']],
    {
        Game { entity_mgr: EntityManager::new(), input_mgr: InputManager::new(), render_book: RenderBook::new() }
    }

    /// Whether `k` more entities, each with one component of each kind,
    /// still fit.
    pub fn room_for(&self, k: usize) -> (r: bool)
        requires
            self.wf(),
        ensures
            r == self.has_room(k as int),
    {
        let m = &self.entity_mgr;
        m.entity_count() < u32::MAX as usize && (u32::MAX as usize) - m.entity_count() > k
            && (u32::MAX as usize) - m.log_count() > k && (u32::MAX as usize) - m.sprite_count() > k
            && (u32::MAX as usize) - m.pos_count() > k
    }

    /// Creates a drawn entity with a Position and a Sprite showing
    /// `texture`, cell `sprite_index`, at pixel (`x`, `y`).
    pub fn spawn_sprite(&mut self, texture: &str, sprite_index: u32, x: i32, y: i32) -> (id: u32)
        requires
            old(self).wf(),
            old(self).has_room(1),
        ensures
            final(self).wf(),
            final(self).entity_mgr.valid_id(id),
            old(self).entity_mgr.entities_view().len() <= final(self).entity_mgr.entities_view().len()
                <= old(self).entity_mgr.entities_view().len() + 1,
            final(self).entity_mgr.logs().len() == old(self).entity_mgr.logs().len(),
            final(self).entity_mgr.sprites().len() <= old(self).entity_mgr.sprites().len() + 1,
            final(self).entity_mgr.positions().len() <= old(self).entity_mgr.positions().len() + 1,
            ({
                let e = final(self).entity_mgr.entities_view()[id as int];
                let s = final(self).entity_mgr.sprite_of(id);
                let p = final(self).entity_mgr.pos_of(id);
                &&& e.exists && e.use_draw && !e.use_player && !e.use_log
                &&& e.sprite_ind != 0 && e.pos_ind != 0 && e.log_ind == 0
                &&& s.exists && s.should_update && s.tex_name@ == texture@
                &&& s.sprite_index == sprite_index && s.tilemap is None
                &&& p.exists && p.x == x && p.y == y && p.prec_x == 0 && p.prec_y == 0
                &&& p.spd_x == 0 && p.spd_y == 0
            }),
            ({
                let m0 = old(self).entity_mgr;
                let m1 = final(self).entity_mgr;
                &&& id < m0.entities_view().len() ==> !m0.entities_view()[id as int].exists
                &&& m1.entities_view().len() == if id < m0.entities_view().len() {
                    m0.entities_view().len()
                } else {
                    m0.entities_view().len() + 1
                }
                &&& keeps_live(m0, m1)
                &&& only_row(m0, m1, id)
            }),
            final(self).input_mgr == old(self).input_mgr,
            final(self).render_book == old(self).render_book,
    {
        let id = self.entity_mgr.create_entity();
        self.entity_mgr.set_use_draw(id);
        self.entity_mgr.add_pos_comp(id);
        self.entity_mgr.add_sprite_comp(id);
        let sprite = self.entity_mgr.get_sprite_comp(id);
        sprite.tex_name = texture.to_owned();
        sprite.sprite_index = sprite_index;
        let pos = self.entity_mgr.get_pos_comp(id);
        pos.x = x;
        pos.y = y;
        proof {
            let m0 = old(self).entity_mgr;
            let m1 = self.entity_mgr;
            assert forall|j: int|
                0 <= j < m1.entities_view().len() && j != id implies j < m0.entities_view().len()
                    && #[trigger] m1.entities_view()[j] == m0.entities_view()[j] by {
                assert(m1.entities_view()[j] == m0.entities_view()[j]);
            }
        }
        id
    }

    /// Creates the player: a drawn entity moved by the player system,
    /// showing the player texture at the origin.
    pub fn spawn_player(&mut self) -> (id: u32)
        requires
            old(self).wf(),
            old(self).has_room(1),
        ensures
            final(self).wf(),
            final(self).entity_mgr.valid_id(id),
            ({
                let e = final(self).entity_mgr.entities_view()[id as int];
                let s = final(self).entity_mgr.sprite_of(id);
                let p = final(self).entity_mgr.pos_of(id);
                &&& e.exists && e.use_draw && e.use_player && !e.use_log
                &&& s.exists && s.should_update && s.tex_name@ == PLAYER_TEXTURE@
                &&& s.sprite_index == 0 && s.tilemap is None
                &&& p.exists && p.x == 0 && p.y == 0 && p.prec_x == 0 && p.prec_y == 0
                &&& p.spd_x == 0 && p.spd_y == 0
            }),
            ({
                let m0 = old(self).entity_mgr;
                let m1 = final(self).entity_mgr;
                &&& id < m0.entities_view().len() ==> !m0.entities_view()[id as int].exists
                &&& m1.entities_view().len() == if id < m0.entities_view().len() {
                    m0.entities_view().len()
                } else {
                    m0.entities_view().len() + 1
                }
                &&& m1.sprites().len() <= m0.sprites().len() + 1
                &&& m1.positions().len() <= m0.positions().len() + 1
                &&& keeps_live(m0, m1)
                &&& only_row(m0, m1, id)
            }),
            final(self).input_mgr == old(self).input_mgr,
            final(self).render_book == old(self).render_book,
    {
        let id = self.spawn_sprite(PLAYER_TEXTURE, 0, 0, 0);
        self.entity_mgr.set_use_player(id);
        id
    }
    /// Creates one block entity for each `x` of a level text, at
    /// (column * 16, row * 16), and returns their ids in reading order.
    pub fn load_level(&mut self, level: &str) -> (ids: Vec<u32>)
        requires
            old(self).wf(),
            level@.len() * BLOCK_SIZE <= i32::MAX,
            old(self).has_room(level@.len() as int),
        ensures
            final(self).wf(),
            ids@.len() == level_blocks(level@).len(),
            forall|k: int|
                0 <= k < ids@.len() ==> is_block_at(
                    final(self).entity_mgr,
                    #[trigger] ids@[k],
                    level_blocks(level@)[k].0,
                    level_blocks(level@)[k].1,
                ),
            forall|i: int, j: int| 0 <= i < j < ids@.len() ==> ids@[i] != ids@[j],
            keeps_live(old(self).entity_mgr, final(self).entity_mgr),
            only_rows(old(self).entity_mgr, final(self).entity_mgr, ids@),
            final(self).input_mgr == old(self).input_mgr,
            final(self).render_book == old(self).render_book,
    {
        let blocks = block_positions(level);
        proof {
            assert(blocks@.len() == level_blocks(level@).len());
            assert(blocks@.len() <= level@.len()) by {
                crate::level::lemma_block_count(level@);
            }
        }
        let mut ids: Vec<u32> = Vec::new();
        let mut k: usize = 0;
        while k < blocks.len()
            invariant
                k <= blocks@.len(),
                blocks@.len() <= level@.len(),
                self.wf(),
                self.has_room(level@.len() - k),
                ids@.len() == k,
                blocks@.map_values(|p: (i32, i32)| (p.0 as int, p.1 as int)) == level_blocks(level@),
                forall|j: int|
                    0 <= j < k ==> is_block_at(
                        self.entity_mgr,
                        #[trigger] ids@[j],
                        blocks@[j].0 as int,
                        blocks@[j].1 as int,
                    ),
                forall|i: int, j: int| 0 <= i < j < k ==> ids@[i] != ids@[j],
                keeps_live(old(self).entity_mgr, self.entity_mgr),
                only_rows(old(self).entity_mgr, self.entity_mgr, ids@),
                self.input_mgr == old(self).input_mgr,
                self.render_book == old(self).render_book,
            decreases blocks@.len() - k,
        {
            let (x, y) = blocks[k];
            let ghost m0 = self.entity_mgr;
            let ghost ids0 = ids@;
            let id = self.spawn_sprite(BLOCK_TEXTURE, BLOCK_SPRITE, x, y);
            ids.push(id);
            k = k + 1;
            proof {
                let mo = old(self).entity_mgr;
                let m1 = self.entity_mgr;
                assert forall|j: int| 0 <= j < k - 1 implies ids0[j] != id by {
                    assert(is_block_at(m0, ids0[j], blocks@[j].0 as int, blocks@[j].1 as int));
                }
                assert forall|i: int, j: int| 0 <= i < j < k implies ids@[i] != ids@[j] by {
                    if j == k - 1 {
                        assert(ids@[j] == id);
                        assert(ids@[i] == ids0[i]);
                    } else {
                        assert(ids@[i] == ids0[i] && ids@[j] == ids0[j]);
                    }
                }
                lemma_only_rows_step(mo, m0, m1, ids0, id);
                assert(ids@ == ids0.push(id));
                assert(keeps_live(mo, m1));

                assert forall|j: int| 0 <= j < k implies is_block_at(
                    self.entity_mgr,
                    #[trigger] ids@[j],
                    blocks@[j].0 as int,
                    blocks@[j].1 as int,
                ) by {
                    if j < k - 1 {
                        let old_id = ids@[j];
                        assert(is_block_at(m0, old_id, blocks@[j].0 as int, blocks@[j].1 as int));
                        assert(old_id != id);
                        assert(self.entity_mgr.entities_view()[old_id as int] == m0.entities_view()[old_id as int]);
                    }
                }
            }
        }
        proof {
            assert forall|j: int| 0 <= j < ids@.len() implies level_blocks(level@)[j] == (blocks@[j].0 as int, blocks@[j].1 as int) by {
                assert(blocks@.map_values(|p: (i32, i32)| (p.0 as int, p.1 as int))[j] == (blocks@[j].0 as int, blocks@[j].1 as int));
            }
        }
        ids
    }

    /// A key-down event: a mapped key presses its button, unless the button
    /// is held already; other keys are ignored.
    pub fn key_down(&mut self, key: u32)
        requires
            old(self).wf(),
        ensures
            final(self).wf(),
            final(self).input_mgr.key_map() == old(self).input_mgr.key_map(),
            final(self).input_mgr.states() == if old(self).input_mgr.key_map().contains_key(key) {
                let b = old(self).input_mgr.key_map()[key];
                old(self).input_mgr.states().update(button_slot(b), after_press(old(self).input_mgr.state_of(b)))
            } else {
                old(self).input_mgr.states()
            },
            final(self).entity_mgr == old(self).entity_mgr,
            final(self).render_book == old(self).render_book,
    {
        match self.input_mgr.key_to_button(key) {
            Some(b) => self.input_mgr.set_button_pressed(b),
            None => {},
        }
    }

    /// A key-up event: a mapped key releases its button; other keys are
    /// ignored.
    pub fn key_up(&mut self, key: u32)
        requires
            old(self).wf(),
        ensures
            final(self).wf(),
            final(self).input_mgr.key_map() == old(self).input_mgr.key_map(),
            final(self).input_mgr.states() == if old(self).input_mgr.key_map().contains_key(key) {
                let b = old(self).input_mgr.key_map()[key];
                old(self).input_mgr.states().update(button_slot(b), ButtonState::RELEASED)
            } else {
                old(self).input_mgr.states()
            },
            final(self).entity_mgr == old(self).entity_mgr,
            final(self).render_book == old(self).render_book,
    {
        match self.input_mgr.key_to_button(key) {
            Some(b) => self.input_mgr.set_button_released(b),
            None => {},
        }
    }

    /// One simulation tick: the logging update, then the movement update
    /// with this frame's buttons, then the button edges settle. Returns the
    /// messages to emit.
    pub fn simulation_tick(&mut self) -> (msgs: Vec<String>)
        requires
            old(self).wf(),
        ensures
            final(self).wf(),
            ({
                let m0 = old(self).entity_mgr;
                let ents = m0.entities_view();
                let (logs, emitted) = log_pass(ents, m0.logs(), ents.len());
                &&& msgs@.map_values(|s: String| s@) == emitted
                &&& final(self).entity_mgr.logs() == logs
                &&& final(self).entity_mgr.positions() == player_pass(
                    ents,
                    m0.positions(),
                    pad_of(&old(self).input_mgr),
                    ents.len(),
                )
                &&& final(self).entity_mgr.entities_view() == ents
                &&& final(self).entity_mgr.sprites() == m0.sprites()
            }),
            final(self).input_mgr.states() == old(self).input_mgr.states().map_values(
                |st: ButtonState| after_frame(st),
            ),
            final(self).input_mgr.key_map() == old(self).input_mgr.key_map(),
            final(self).render_book == old(self).render_book,
    {
        let msgs = logging_system::update(&mut self.entity_mgr);
        player_system::update(&mut self.entity_mgr, &self.input_mgr);
        self.input_mgr.update();
        msgs
    }

    /// Whether the renderer's handles leave room for one draw tick.
    pub fn draw_room(&self) -> (r: bool)
        ensures
            r == (self.render_book.view().quad_count + self.entity_mgr.entities_view().len() <= u32::MAX
                && self.render_book.view().textures.len() + self.entity_mgr.entities_view().len() < u32::MAX),
    {
        let q = self.render_book.quad_count() as u64;
        let t = self.render_book.texture_count() as u64;
        let n = self.entity_mgr.entity_count() as u64;
        n <= u32::MAX as u64 && q + n <= u32::MAX as u64 && t <= u32::MAX as u64 && t + n < u32::MAX as u64
    }

    /// One draw tick: the draw update. Returns the render calls to make.
    pub fn draw_tick(&mut self) -> (calls: Vec<RenderCall>)
        requires
            old(self).wf(),
            old(self).render_book.view().quad_count + old(self).entity_mgr.entities_view().len() <= u32::MAX,
            old(self).render_book.view().textures.len() + old(self).entity_mgr.entities_view().len() < u32::MAX,
        ensures
            final(self).wf(),
            ({
                let m0 = old(self).entity_mgr;
                let ents = m0.entities_view();
                let (sp, bk, ops) = draw_pass(ents, m0.sprites(), m0.positions(), old(self).render_book.view(), ents.len());
                &&& calls@.map_values(|c: RenderCall| c@) == ops
                &&& final(self).entity_mgr.sprites() == sp
                &&& final(self).render_book.view() == bk
                &&& final(self).entity_mgr.entities_view() == ents
                &&& final(self).entity_mgr.logs() == m0.logs()
                &&& final(self).entity_mgr.positions() == m0.positions()
            }),
            final(self).input_mgr == old(self).input_mgr,
    {
        draw_system::update(&mut self.entity_mgr, &mut self.render_book)
    }
}

} // verus!
