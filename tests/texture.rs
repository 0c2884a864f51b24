use super_ferris::texture::{
    int_field, metadata_for, metadata_from_doc, metadata_from_fields, parse_metadata, sprite_cell, tile_placements,
    MetadataError, TextureMetadata, TilePlacement, YamlDoc, YamlEntry, MAX_METADATA_LEN,
};

#[test]
fn metadata_from_yaml() {
    assert_eq!(
        parse_metadata("sprite_width: 16\nsprite_height: 8\n"),
        Ok(TextureMetadata { sprite_width: 16, sprite_height: 8 })
    );
}

#[test]
fn metadata_errors() {
    assert_eq!(parse_metadata("a: [1, 2"), Err(MetadataError::Syntax));
    assert_eq!(parse_metadata(""), Err(MetadataError::NoDocument));
    assert_eq!(parse_metadata("sprite_height: 4\n"), Err(MetadataError::BadSpriteWidth));
    assert_eq!(parse_metadata("sprite_width: wide\nsprite_height: 4\n"), Err(MetadataError::BadSpriteWidth));
    assert_eq!(parse_metadata("sprite_width: 4\nsprite_height: 0\n"), Err(MetadataError::BadSpriteHeight));
    assert_eq!(parse_metadata("- 1\n- 2\n"), Err(MetadataError::BadSpriteWidth));
}

#[test]
fn metadata_field_bounds() {
    assert_eq!(metadata_from_fields(Some(1), Some(4294967295)), Ok(TextureMetadata { sprite_width: 1, sprite_height: 4294967295 }));
    assert_eq!(metadata_from_fields(Some(4294967296), Some(1)), Err(MetadataError::BadSpriteWidth));
    assert_eq!(metadata_from_fields(Some(-3), Some(1)), Err(MetadataError::BadSpriteWidth));
    assert_eq!(metadata_from_fields(Some(3), None), Err(MetadataError::BadSpriteHeight));
}

#[test]
fn whole_image_without_metadata() {
    assert_eq!(metadata_for(48, 32, None), Ok(TextureMetadata { sprite_width: 48, sprite_height: 32 }));
    assert_eq!(
        metadata_for(48, 32, Some("sprite_width: 16\nsprite_height: 16")),
        Ok(TextureMetadata { sprite_width: 16, sprite_height: 16 })
    );
}

#[test]
fn sprite_cells_go_row_by_row() {
    assert_eq!(sprite_cell(64, 16, 0), (0, 0));
    assert_eq!(sprite_cell(64, 16, 5), (1, 1));
    assert_eq!(sprite_cell(64, 16, 3), (3, 0));
    assert_eq!(sprite_cell(70, 16, 9), (1, 2));
    assert_eq!(sprite_cell(16, 16, 2), (0, 2));
}

#[test]
fn tile_maps_fill_row_by_row() {
    let placed = tile_placements(&vec![0, 5, 3, 7, 1], 2, 64, 16);
    let expect = [(0, 0, 0, 0), (1, 0, 1, 1), (0, 1, 3, 0), (1, 1, 3, 1), (0, 2, 1, 0)];
    assert_eq!(placed.len(), expect.len());
    for (p, (mx, my, cx, cy)) in placed.iter().zip(expect.iter()) {
        assert_eq!(*p, TilePlacement { map_x: *mx, map_y: *my, cell_x: *cx, cell_y: *cy });
    }
    let row = tile_placements(&vec![2, 2, 2], 0, 32, 16);
    assert_eq!((row[2].map_x, row[2].map_y, row[2].cell_x, row[2].cell_y), (2, 0, 0, 1));
}

#[test]
fn overlong_metadata_is_refused() {
    let mut text = String::from("sprite_width: 16\nsprite_height: 8\n");
    while text.chars().count() <= MAX_METADATA_LEN {
        text.push_str("# padding\n");
    }
    assert_eq!(parse_metadata(&text), Err(MetadataError::TooLong));
    assert_eq!(metadata_for(4, 4, Some(&text)), Err(MetadataError::TooLong));
}

#[test]
fn metadata_reads_the_first_document() {
    assert_eq!(
        parse_metadata("sprite_width: 8\nsprite_height: 4\n---\nsprite_width: 2\nsprite_height: 2\n"),
        Ok(TextureMetadata { sprite_width: 8, sprite_height: 4 })
    );
    assert_eq!(
        parse_metadata("other: 1\nsprite_height: 24\nsprite_width: 12\n"),
        Ok(TextureMetadata { sprite_width: 12, sprite_height: 24 })
    );
}

fn entry(key: Option<&str>, value: Option<i64>) -> YamlEntry {
    YamlEntry { key: key.map(String::from), int_value: value }
}

#[test]
fn document_fields() {
    let doc = YamlDoc::Mapping(vec![
        entry(None, Some(3)),
        entry(Some("sprite_width"), Some(16)),
        entry(Some("name"), None),
        entry(Some("sprite_height"), Some(8)),
    ]);
    assert_eq!(int_field(&doc, &String::from("sprite_width")), Some(16));
    assert_eq!(int_field(&doc, &String::from("name")), None);
    assert_eq!(int_field(&doc, &String::from("missing")), None);
    assert_eq!(metadata_from_doc(&doc), Ok(TextureMetadata { sprite_width: 16, sprite_height: 8 }));
    assert_eq!(metadata_from_doc(&YamlDoc::Other), Err(MetadataError::BadSpriteWidth));
    let half = YamlDoc::Mapping(vec![entry(Some("sprite_width"), Some(16))]);
    assert_eq!(metadata_from_doc(&half), Err(MetadataError::BadSpriteHeight));
}
