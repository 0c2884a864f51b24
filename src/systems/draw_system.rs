use vstd::prelude::*;

use crate::components::{PositionComponent, SpriteComponent};
use crate::entity_manager::{Entity, EntityManager};

verus! {

/// A request to the renderer. Quad and texture handles are the ones the
/// renderer gives out: quads are numbered in order of creation, textures
/// in order of first load by name.
#[derive(Debug)]
pub enum RenderCall {
    /// Create quad `quad`.
    CreateQuad { quad: u32 },
    /// Load (or find in the cache) the texture `name`, whose handle is
    /// `texture`.
    LoadTexture { name: String, texture: u32 },
    /// Show cell `sprite_index` of the texture's sprite sheet on the quad.
    AttachSprite { quad: u32, texture: u32, sprite_index: u32 },
    /// Show a `width` by `height` tile map of the texture's cells on the
    /// quad.
    AttachTilemap { quad: u32, texture: u32, tiles: Vec<u32>, width: u32, height: u32 },
    /// Place the quad at whole-pixel coordinates.
    SetQuadPos { quad: u32, x: i32, y: i32 },
}

/// A render call as a mathematical value.
pub enum RenderOp {
    CreateQuad { quad: u32 },
    LoadTexture { name: Seq<char>, texture: u32 },
    AttachSprite { quad: u32, texture: u32, sprite_index: u32 },
    AttachTilemap { quad: u32, texture: u32, tiles: Seq<u32>, width: u32, height: u32 },
    SetQuadPos { quad: u32, x: i32, y: i32 },
}

impl View for RenderCall {
    type V = RenderOp;

    open spec fn view(&self) -> RenderOp {
        match self {
            RenderCall::CreateQuad { quad } => RenderOp::CreateQuad { quad: *quad },
            RenderCall::LoadTexture { name, texture } => RenderOp::LoadTexture {
                name: name@,
                texture: *texture,
            },
            RenderCall::AttachSprite { quad, texture, sprite_index } => RenderOp::AttachSprite {
                quad: *quad,
                texture: *texture,
                sprite_index: *sprite_index,
            },
            RenderCall::AttachTilemap { quad, texture, tiles, width, height } => RenderOp::AttachTilemap {
                quad: *quad,
                texture: *texture,
                tiles: tiles@,
                width: *width,
                height: *height,
            },
            RenderCall::SetQuadPos { quad, x, y } => RenderOp::SetQuadPos { quad: *quad, x: *x, y: *y },
        }
    }
}

/// What the renderer has been asked to create so far.
pub struct RenderBook {
    quad_count: u32,
    textures: Vec<String>,
}

/// A render book as a mathematical value.
pub struct RenderBookView {
    pub quad_count: nat,
    pub textures: Seq<Seq<char>>,
}

/// Index of the first entry at or after `from` equal to `name`, or the
/// length of `names` when there is none.
pub open spec fn first_index(names: Seq<Seq<char>>, name: Seq<char>, from: int) -> int
    decreases names.len() - from,
{
    if from >= names.len() || from < 0 {
        names.len() as int
    } else if names[from] == name {
        from
    } else {
        first_index(names, name, from + 1)
    }
}

/// The handle of texture `name` and the texture list after loading it:
/// a name already loaded keeps its handle, a new one is appended.
pub open spec fn texture_handle(names: Seq<Seq<char>>, name: Seq<char>) -> (Seq<Seq<char>>, int) {
    let i = first_index(names, name, 0);
    if i < names.len() {
        (names, i)
    } else {
        (names.push(name), names.len() as int)
    }
}

/// The calls that bind a dirty sprite to quad `quad` and texture
/// `texture`: create the quad, load the texture, attach cell or tile map.
pub open spec fn regenerate_ops(s: SpriteComponent, quad: u32, texture: u32) -> Seq<RenderOp> {
    seq![
        RenderOp::CreateQuad { quad },
        RenderOp::LoadTexture { name: s.tex_name@, texture },
        match s.tilemap {
            None => RenderOp::AttachSprite { quad, texture, sprite_index: s.sprite_index },
            Some(t) => RenderOp::AttachTilemap {
                quad,
                texture,
                tiles: t@,
                width: s.tilemap_width,
                height: s.tilemap_height,
            },
        },
    ]
}

/// Sprites, render book and calls after the draw update has run over the
/// first `n` rows of `ents`, in table order. For each live entity that uses
/// the draw system: a dirty bound sprite gets a new quad, its texture and
/// its geometry, and is no longer dirty; then the quad is placed at the
/// entity's Position.
pub open spec fn draw_pass(
    ents: Seq<Entity>,
    sprites: Seq<SpriteComponent>,
    poss: Seq<PositionComponent>,
    book: RenderBookView,
    n: nat,
) -> (Seq<SpriteComponent>, RenderBookView, Seq<RenderOp>)
    decreases n,
{
    if n == 0 {
        (sprites, book, Seq::empty())
    } else {
        let (sp, bk, ops) = draw_pass(ents, sprites, poss, book, (n - 1) as nat);
        let e = ents[n - 1];
        if !(e.exists && e.use_draw) {
            (sp, bk, ops)
        } else {
            let s = sp[e.sprite_ind as int];
            let p = poss[e.pos_ind as int];
            if s.should_update {
                let quad = bk.quad_count as u32;
                let (names, tex) = texture_handle(bk.textures, s.tex_name@);
                let s2 = SpriteComponent { quad_id: quad, should_update: false, ..s };
                (
                    sp.update(e.sprite_ind as int, s2),
                    RenderBookView { quad_count: bk.quad_count + 1, textures: names },
                    ops + regenerate_ops(s, quad, tex as u32) + seq![
                        RenderOp::SetQuadPos { quad, x: p.x, y: p.y },
                    ],
                )
            } else {
                (sp, bk, ops.push(RenderOp::SetQuadPos { quad: s.quad_id, x: p.x, y: p.y }))
            }
        }
    }
}

impl RenderBook {
    /// Quads created so far, and texture names in order of first load.
    pub closed spec fn view(&self) -> RenderBookView {
        RenderBookView {
            quad_count: self.quad_count as nat,
            textures: self.textures@.map_values(|s: String| s@),
        }
    }

    /// A renderer that has created no quad yet and holds only the default
    /// texture, "black", as texture 0.
    pub fn new() -> (r: Self)
        ensures
            r.view().quad_count == 0,
            r.view().textures == seq![seq!['b', 'l', 'a', 'c', 'k']],
    {
        let black = String::from_str("black");
        proof {
            reveal_strlit("black");
            assert(black@ =~= seq!['b', 'l', 'a', 'c', 'k']);
        }
        let mut textures: Vec<String> = Vec::new();
        textures.push(black);
        let r = RenderBook { quad_count: 0, textures };
        proof {
            assert(r.view().textures =~= seq![seq!['b', 'l', 'a', 'c', 'k']]);
        }
        r
    }

    /// Number of quads created so far.
    pub fn quad_count(&self) -> (r: u32)
        ensures
            r == self.view().quad_count,
    {
        self.quad_count
    }

    /// Number of textures loaded so far.
    pub fn texture_count(&self) -> (r: usize)
        ensures
            r == self.view().textures.len(),
    {
        self.textures.len()
    }

    /// Returns the handle of texture `name`, recording it when it is new.
    fn load(&mut self, name: &String) -> (r: u32)
        requires
            old(self).view().textures.len() < u32::MAX,
        ensures
            (final(self).view().textures, r as int) == texture_handle(old(self).view().textures, name@),
            final(self).view().quad_count == old(self).view().quad_count,
    {
        let ghost names = self.view().textures;
        let mut i: usize = 0;
        while i < self.textures.len() && self.textures[i] != *name
            invariant
                i <= self.textures@.len(),
                names == self.view().textures,
                first_index(names, name@, 0) == first_index(names, name@, i as int),
            decreases self.textures@.len() - i,
        {
            i = i + 1;
        }
        if i == self.textures.len() {
            self.textures.push(name.clone());
            proof {
                assert(self.view().textures =~= names.push(name@));
            }
        }
        i as u32
    }
}

/// A copy of the tile indices.
fn copy_tiles(tiles: &Vec<u32>) -> (r: Vec<u32>)
    ensures
        r@ == tiles@,
{
    let mut r: Vec<u32> = Vec::new();
    let mut i: usize = 0;
    while i < tiles.len()
        invariant
            i <= tiles@.len(),
            r@ == tiles@.subrange(0, i as int),
        decreases tiles@.len() - i,
    {
        r.push(tiles[i]);
        i = i + 1;
    }
    proof {
        assert(r@ =~= tiles@);
    }
    r
}

/// Runs the draw update for every live entity that uses the draw system,
/// in table order, and returns the render calls to make, in that order.
pub fn update(entity_mgr: &mut EntityManager, book: &mut RenderBook) -> (r: Vec<RenderCall>)
    requires
        old(entity_mgr).wf(),
        old(book).view().quad_count + old(entity_mgr).entities_view().len() <= u32::MAX,
        old(book).view().textures.len() + old(entity_mgr).entities_view().len() < u32::MAX,
    ensures
        final(entity_mgr).wf(),
        ({
            let (sp, bk, ops) = draw_pass(
                old(entity_mgr).entities_view(),
                old(entity_mgr).sprites(),
                old(entity_mgr).positions(),
                old(book).view(),
                old(entity_mgr).entities_view().len(),
            );
            &&& final(entity_mgr).sprites() == sp
            &&& final(book).view() == bk
            &&& r@.map_values(|c: RenderCall| c@) == ops
        }),
        final(entity_mgr).entities_view() == old(entity_mgr).entities_view(),
        final(entity_mgr).logs() == old(entity_mgr).logs(),
        final(entity_mgr).positions() == old(entity_mgr).positions(),
{
    let n = entity_mgr.entity_count();
    let ghost ents = entity_mgr.entities_view();
    let ghost sprites0 = entity_mgr.sprites();
    let ghost poss = entity_mgr.positions();
    let ghost book0 = book.view();
    let mut out: Vec<RenderCall> = Vec::new();
    let mut i: usize = 0;
    while i < n
        invariant
            i <= n,
            n == ents.len(),
            entity_mgr.wf(),
            entity_mgr.entities_view() == ents,
            entity_mgr.positions() == poss,
            entity_mgr.logs() == old(entity_mgr).logs(),
            book0.quad_count + n <= u32::MAX,
            book0.textures.len() + n < u32::MAX,
            book.view().quad_count <= book0.quad_count + i,
            book.view().textures.len() <= book0.textures.len() + i,
            ({
                let (sp, bk, ops) = draw_pass(ents, sprites0, poss, book0, i as nat);
                &&& entity_mgr.sprites() == sp
                &&& book.view() == bk
                &&& out@.map_values(|c: RenderCall| c@) == ops
            }),
        decreases n - i,
    {
        let ghost out_before = out@;
        let e = entity_mgr.entity(i as u32);
        if e.exists && e.use_draw {
            let sprite = entity_mgr.get_sprite_comp(i as u32);
            if sprite.should_update {
                let quad = book.quad_count;
                book.quad_count = book.quad_count + 1;
                let texture = book.load(&sprite.tex_name);
                sprite.quad_id = quad;
                sprite.should_update = false;
                out.push(RenderCall::CreateQuad { quad });
                out.push(RenderCall::LoadTexture { name: sprite.tex_name.clone(), texture });
                match &sprite.tilemap {
                    None => {
                        out.push(
                            RenderCall::AttachSprite { quad, texture, sprite_index: sprite.sprite_index },
                        );
                    },
                    Some(tiles) => {
                        out.push(
                            RenderCall::AttachTilemap {
                                quad,
                                texture,
                                tiles: copy_tiles(tiles),
                                width: sprite.tilemap_width,
                                height: sprite.tilemap_height,
                            },
                        );
                    },
                }
            }
            let quad = sprite.quad_id;
            let pos = entity_mgr.get_pos_comp_immut(i as u32);
            out.push(RenderCall::SetQuadPos { quad, x: pos.x, y: pos.y });
        }
        i = i + 1;
        proof {
            let (sp, bk, ops) = draw_pass(ents, sprites0, poss, book0, i as nat);
            assert(out@.map_values(|c: RenderCall| c@) =~= ops);
        }
    }
    out
}

} // verus!
