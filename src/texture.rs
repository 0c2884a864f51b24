use vstd::prelude::*;

use yaml_rust::{ScanError, Yaml, YamlLoader};

verus! {

#[verifier::external_type_specification]
#[verifier::external_body]
pub struct ExScanError(ScanError);

/// Size of one sprite cell of a texture, in pixels.
#[derive(Clone, Copy, Debug, PartialEq, Eq, Structural)]
pub struct TextureMetadata {
    pub sprite_width: u32,
    pub sprite_height: u32,
}

/// Why a texture's metadata text was refused.
#[derive(Clone, Copy, Debug, PartialEq, Eq, Structural)]
pub enum MetadataError {
    /// The text is longer than `MAX_METADATA_LEN` characters.
    TooLong,
    /// The text is not YAML.
    Syntax,
    /// The text holds no YAML document.
    NoDocument,
    /// `sprite_width` is missing, not an integer, or not in 1 ..= u32::MAX.
    BadSpriteWidth,
    /// `sprite_height` is missing, not an integer, or not in 1 ..= u32::MAX.
    BadSpriteHeight,
}

/// Longest metadata text, in characters, that is handed to the YAML
/// loader. The loader recurses once per level of nesting, so the length
/// bounds the depth of that recursion.
pub const MAX_METADATA_LEN: usize = 4096;

/// One entry of a YAML mapping, as far as metadata reads it: the key when
/// it is a string, and the value when it is an integer.
#[derive(Debug)]
pub struct YamlEntry {
    pub key: Option<String>,
    pub int_value: Option<i64>,
}

impl View for YamlEntry {
    type V = (Option<Seq<char>>, Option<i64>);

    open spec fn view(&self) -> (Option<Seq<char>>, Option<i64>) {
        (
            match self.key {
                Some(k) => Some(k@),
                None => None,
            },
            self.int_value,
        )
    }
}

/// The views of mapping entries, in order.
pub open spec fn entries_view(entries: Seq<YamlEntry>) -> Seq<(Option<Seq<char>>, Option<i64>)> {
    entries.map_values(|e: YamlEntry| e@)
}

/// A YAML document, as far as metadata reads it: a mapping with its
/// entries in document order, or any other node.
#[derive(Debug)]
pub enum YamlDoc {
    Mapping(Vec<YamlEntry>),
    Other,
}

impl View for YamlDoc {
    type V = Option<Seq<(Option<Seq<char>>, Option<i64>)>>;

    open spec fn view(&self) -> Option<Seq<(Option<Seq<char>>, Option<i64>)>> {
        match self {
            YamlDoc::Mapping(entries) => Some(entries_view(entries@)),
            YamlDoc::Other => None,
        }
    }
}

/// The documents the YAML loader reads from `text`, each as a `YamlDoc`
/// view, or `None` when it refuses the text.
pub uninterp spec fn yaml_parse(text: Seq<char>) -> Option<Seq<Option<Seq<(Option<Seq<char>>, Option<i64>)>>>>;

/// Relies on `yaml_rust::YamlLoader::load_from_str`: parses `text` into
/// its documents, or fails with a scan error; the outcome depends on the
/// text alone. Each document is converted variant by variant: a `Hash`
/// keeps its entries in insertion order (`LinkedHashMap::iter`), a
/// `String` key and an `Integer` value keep their contents.
#[verifier::external_body]
fn load_yaml(text: &str) -> (r: Result<Vec<YamlDoc>, ScanError>)
    requires
        text@.len() <= MAX_METADATA_LEN,
    ensures
        match r {
            Ok(docs) => yaml_parse(text@) == Some(docs@.map_values(|d: YamlDoc| d@)),
            Err(_) => yaml_parse(text@) is None,
        },
{
    let docs = YamlLoader::load_from_str(text)?;
    Ok(docs.iter().map(|doc| match doc {
        Yaml::Hash(h) => YamlDoc::Mapping(h.iter().map(|(k, v)| YamlEntry {
            key: match k { Yaml::String(s) => Some(s.clone()), _ => None },
            int_value: match v { Yaml::Integer(i) => Some(*i), _ => None },
        }).collect()),
        _ => YamlDoc::Other,
    }).collect())
}

/// The integer under `key` among `entries`, searching from `from`: the
/// value of the first entry whose key is `key`, `None` when there is none.
pub open spec fn int_under(entries: Seq<(Option<Seq<char>>, Option<i64>)>, key: Seq<char>, from: int) -> Option<i64>
    decreases entries.len() - from,
{
    if from < 0 || from >= entries.len() {
        None
    } else if entries[from].0 == Some(key) {
        entries[from].1
    } else {
        int_under(entries, key, from + 1)
    }
}

/// The integer under `key` of a document; `None` unless it is a mapping.
pub open spec fn doc_int(doc: Option<Seq<(Option<Seq<char>>, Option<i64>)>>, key: Seq<char>) -> Option<i64> {
    match doc {
        Some(entries) => int_under(entries, key, 0),
        None => None,
    }
}

/// A sprite size read from metadata: a whole number of pixels in
/// 1 ..= u32::MAX.
pub open spec fn sprite_size(v: Option<i64>) -> Option<u32> {
    match v {
        Some(n) => if 1 <= n <= u32::MAX {
            Some(n as u32)
        } else {
            None
        },
        None => None,
    }
}

/// Metadata from the integers found under `sprite_width` and
/// `sprite_height`.
pub open spec fn metadata_of_fields(width: Option<i64>, height: Option<i64>) -> Result<
    TextureMetadata,
    MetadataError,
> {
    match (sprite_size(width), sprite_size(height)) {
        (Some(w), Some(h)) => Ok(TextureMetadata { sprite_width: w, sprite_height: h }),
        (None, _) => Err(MetadataError::BadSpriteWidth),
        (Some(_), None) => Err(MetadataError::BadSpriteHeight),
    }
}

/// Metadata held by one YAML document.
pub open spec fn metadata_of_doc(doc: Option<Seq<(Option<Seq<char>>, Option<i64>)>>) -> Result<
    TextureMetadata,
    MetadataError,
> {
    metadata_of_fields(doc_int(doc, "sprite_width"@), doc_int(doc, "sprite_height"@))
}

/// Metadata held by a metadata text: that of its first YAML document.
pub open spec fn metadata_of_text(text: Seq<char>) -> Result<TextureMetadata, MetadataError> {
    if text.len() > MAX_METADATA_LEN {
        Err(MetadataError::TooLong)
    } else {
        match yaml_parse(text) {
            None => Err(MetadataError::Syntax),
            Some(docs) => if docs.len() == 0 {
                Err(MetadataError::NoDocument)
            } else {
                metadata_of_doc(docs[0])
            },
        }
    }
}

fn checked_size(v: Option<i64>) -> (r: Option<u32>)
    ensures
        r == sprite_size(v),
{
    match v {
        Some(n) => if 1 <= n && n <= u32::MAX as i64 {
            Some(n as u32)
        } else {
            None
        },
        None => None,
    }
}

/// Builds metadata from the integers found under `sprite_width` and
/// `sprite_height`.
pub fn metadata_from_fields(width: Option<i64>, height: Option<i64>) -> (r: Result<
    TextureMetadata,
    MetadataError,
>)
    ensures
        r == metadata_of_fields(width, height),
{
    match (checked_size(width), checked_size(height)) {
        (Some(w), Some(h)) => Ok(TextureMetadata { sprite_width: w, sprite_height: h }),
        (None, _) => Err(MetadataError::BadSpriteWidth),
        (Some(_), None) => Err(MetadataError::BadSpriteHeight),
    }
}

/// Returns the integer under `key` of a YAML document.
pub fn int_field(doc: &YamlDoc, key: &String) -> (r: Option<i64>)
    ensures
        r == doc_int(doc@, key@),
{
    match doc {
        YamlDoc::Other => None,
        YamlDoc::Mapping(entries) => {
            let ghost es = entries_view(entries@);
            let mut i: usize = 0;
            while i < entries.len()
                invariant
                    i <= entries@.len(),
                    es == entries_view(entries@),
                    doc@ == Some(es),
                    int_under(es, key@, 0) == int_under(es, key@, i as int),
                decreases entries@.len() - i,
            {
                let e = &entries[i];
                assert(es[i as int] == e@);
                let hit = match &e.key {
                    Some(k) => {
                        let same = *k == *key;
                        proof {
                            if same {
                                assert(e@.0 == Some(key@));
                            }
                        }
                        same
                    },
                    None => false,
                };
                if hit {
                    proof {
                        assert(es[i as int].0 == Some(key@));
                    }
                    return e.int_value;
                }
                i = i + 1;
            }
            None
        },
    }
}

/// Reads sprite cell size from one YAML document: its integer fields
/// `sprite_width` and `sprite_height`.
pub fn metadata_from_doc(doc: &YamlDoc) -> (r: Result<TextureMetadata, MetadataError>)
    ensures
        r == metadata_of_doc(doc@),
{
    let w = int_field(doc, &String::from_str("sprite_width"));
    let h = int_field(doc, &String::from_str("sprite_height"));
    metadata_from_fields(w, h)
}

/// Reads sprite cell size from a metadata text: that of its first YAML
/// document.
pub fn parse_metadata(text: &str) -> (r: Result<TextureMetadata, MetadataError>)
    ensures
        r == metadata_of_text(text@),
{
    if text.unicode_len() > MAX_METADATA_LEN {
        return Err(MetadataError::TooLong);
    }
    match load_yaml(text) {
        Err(_) => Err(MetadataError::Syntax),
        Ok(docs) => {
            if docs.len() == 0 {
                Err(MetadataError::NoDocument)
            } else {
                let r = metadata_from_doc(&docs[0]);
                assert(docs@.map_values(|d: YamlDoc| d@)[0] == docs@[0]@);
                r
            }
        },
    }
}

/// Metadata of a texture of the given pixel size: read from its metadata
/// text when there is one, else the whole image is one sprite cell.
pub fn metadata_for(image_width: u32, image_height: u32, sidecar: Option<&str>) -> (r: Result<
    TextureMetadata,
    MetadataError,
>)
    ensures
        sidecar is None ==> r == Ok::<TextureMetadata, MetadataError>(
            TextureMetadata { sprite_width: image_width, sprite_height: image_height },
        ),
        sidecar is Some ==> r == metadata_of_text(sidecar->0@),
{
    match sidecar {
        None => Ok(TextureMetadata { sprite_width: image_width, sprite_height: image_height }),
        Some(text) => parse_metadata(text),
    }
}

/// Column and row, in the sprite sheet, of cell `sprite_index`: cells are
/// numbered row by row, as many to a row as fit the texture's width.
pub fn sprite_cell(texture_width: u32, sprite_width: u32, sprite_index: u32) -> (r: (u32, u32))
    requires
        0 < sprite_width <= texture_width,
    ensures
        r.0 == sprite_index % (texture_width / sprite_width),
        r.1 == sprite_index / (texture_width / sprite_width),
{
    let per_row = texture_width / sprite_width;
    proof {
        assert(per_row >= 1) by (nonlinear_arith)
            requires
                per_row == texture_width / sprite_width,
                0 < sprite_width <= texture_width,
        ;
    }
    (sprite_index % per_row, sprite_index / per_row)
}

/// Where one tile of a tile map goes and what it shows.
#[derive(Clone, Copy, Debug, PartialEq, Eq, Structural)]
pub struct TilePlacement {
    /// Column of the tile in the map.
    pub map_x: u32,
    /// Row of the tile in the map.
    pub map_y: u32,
    /// Column of the tile's cell in the sprite sheet.
    pub cell_x: u32,
    /// Row of the tile's cell in the sprite sheet.
    pub cell_y: u32,
}

/// Placement of tile `k` of a map `map_width` tiles wide: maps fill row by
/// row; a map of width 0 is one unbroken row.
pub open spec fn placement_of(k: int, tile: u32, map_width: u32, per_row: u32) -> TilePlacement {
    TilePlacement {
        map_x: (if map_width == 0 { k } else { k % (map_width as int) }) as u32,
        map_y: (if map_width == 0 { 0 } else { k / (map_width as int) }) as u32,
        cell_x: tile % per_row,
        cell_y: tile / per_row,
    }
}

/// Places each tile of a tile map: its column and row in the map, and the
/// column and row of its cell in the sprite sheet.
pub fn tile_placements(tiles: &Vec<u32>, map_width: u32, texture_width: u32, sprite_width: u32) -> (r: Vec<
    TilePlacement,
>)
    requires
        0 < sprite_width <= texture_width,
        tiles@.len() <= u32::MAX,
    ensures
        r@.len() == tiles@.len(),
        forall|k: int|
            0 <= k < tiles@.len() ==> #[trigger] r@[k] == placement_of(
                k,
                tiles@[k],
                map_width,
                texture_width / sprite_width,
            ),
{
    let ghost per_row = texture_width / sprite_width;
    let mut r: Vec<TilePlacement> = Vec::new();
    let mut x: u32 = 0;
    let mut y: u32 = 0;
    let mut k: usize = 0;
    while k < tiles.len()
        invariant
            k <= tiles@.len() <= u32::MAX,
            0 < sprite_width <= texture_width,
            per_row == texture_width / sprite_width,
            r@.len() == k,
            map_width == 0 ==> x == k && y == 0,
            map_width > 0 ==> x == (k as int) % (map_width as int) && y == (k as int) / (map_width as int),
            forall|j: int|
                0 <= j < k ==> #[trigger] r@[j] == placement_of(j, tiles@[j], map_width, per_row),
        decreases tiles@.len() - k,
    {
        let (cell_x, cell_y) = sprite_cell(texture_width, sprite_width, tiles[k]);
        r.push(TilePlacement { map_x: x, map_y: y, cell_x, cell_y });
        proof {
            if map_width > 0 {
                assert(y <= k) by (nonlinear_arith)
                    requires
                        y == (k as int) / (map_width as int),
                        map_width > 0,
                ;
                lemma_grid_step(k as int, map_width as int);
            }
        }
        x = x + 1;
        if x == map_width {
            x = 0;
            y = y + 1;
        }
        k = k + 1;
    }
    r
}

/// Walking one tile further in a map of width `w`.
proof fn lemma_grid_step(k: int, w: int)
    requires
        0 <= k,
        0 < w,
    ensures
        (k % w) + 1 == w ==> (k + 1) % w == 0 && (k + 1) / w == k / w + 1,
        (k % w) + 1 != w ==> (k + 1) % w == (k % w) + 1 && (k + 1) / w == k / w,
{
    vstd::arithmetic::div_mod::lemma_fundamental_div_mod(k, w);
    vstd::arithmetic::div_mod::lemma_fundamental_div_mod(k + 1, w);
    vstd::arithmetic::div_mod::lemma_mod_bound(k, w);
    vstd::arithmetic::div_mod::lemma_mod_bound(k + 1, w);
    let q = k / w;
    let m = k % w;
    assert(k == w * q + m);
    assert((q + 1) * w == q * w + w) by (nonlinear_arith);
    assert(q * w == w * q) by (nonlinear_arith);
    if m + 1 == w {
        vstd::arithmetic::div_mod::lemma_fundamental_div_mod_converse(k + 1, w, k / w + 1, 0);
    } else {
        vstd::arithmetic::div_mod::lemma_fundamental_div_mod_converse(k + 1, w, k / w, (k % w) + 1);
    }
}

} // verus!
