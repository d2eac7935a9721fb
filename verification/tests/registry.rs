use tetris_grid::grid::{BlockColor, GridObject};
use tetris_grid::textures::{BlockTextures, TextureId, TextureInitError};

fn all_handles() -> [Option<TextureId>; 7] {
    [
        Some(TextureId(100)),
        Some(TextureId(101)),
        Some(TextureId(102)),
        Some(TextureId(103)),
        Some(TextureId(104)),
        Some(TextureId(105)),
        Some(TextureId(106)),
    ]
}

fn initialize_from(handles: [Option<TextureId>; 7]) -> Result<BlockTextures, TextureInitError> {
    let [bg, blue, green, orange, pink, red, yellow] = handles;
    BlockTextures::initialize(bg, blue, green, orange, pink, red, yellow)
}

#[test]
fn initialize_succeeds_when_all_assets_resolve() {
    let tex = initialize_from(all_handles()).unwrap();
    assert_eq!(tex.bg, TextureId(100));
    assert_eq!(tex.blue, TextureId(101));
    assert_eq!(tex.green, TextureId(102));
    assert_eq!(tex.orange, TextureId(103));
    assert_eq!(tex.pink, TextureId(104));
    assert_eq!(tex.red, TextureId(105));
    assert_eq!(tex.yellow, TextureId(106));
}

#[test]
fn initialize_fails_on_any_missing_asset() {
    for missing in 0..7 {
        let mut handles = all_handles();
        handles[missing] = None;
        assert_eq!(initialize_from(handles), Err(TextureInitError::MissingAsset));
    }
}

#[test]
fn lookup_is_total_over_all_seven_tags() {
    let tex = initialize_from(all_handles()).unwrap();
    assert_eq!(tex.texture_for_obj(&GridObject::Empty), TextureId(100));
    let cases = [
        (BlockColor::Blue, TextureId(101)),
        (BlockColor::Green, TextureId(102)),
        (BlockColor::Orange, TextureId(103)),
        (BlockColor::Pink, TextureId(104)),
        (BlockColor::Red, TextureId(105)),
        (BlockColor::Yellow, TextureId(106)),
    ];
    for (color, expected) in cases {
        assert_eq!(tex.texture_for_color(&color), expected);
        assert_eq!(tex.texture_for_obj(&GridObject::Tetrino(color)), expected);
    }
}
