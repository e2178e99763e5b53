use hivemind::display::{SymbolName, Theme, TilePos};

#[test]
fn characters_map_to_their_glyphs() {
    assert_eq!(SymbolName::get('a'), SymbolName::a);
    assert_eq!(SymbolName::get('Z'), SymbolName::Z);
    assert_eq!(SymbolName::get('0'), SymbolName::Zero);
    assert_eq!(SymbolName::get('@'), SymbolName::At);
    assert_eq!(SymbolName::get('"'), SymbolName::LevelUp);
    assert_eq!(SymbolName::get('~'), SymbolName::Null);
    assert_eq!(SymbolName::get(' '), SymbolName::Null);
}

#[test]
fn atlas_positions_match_the_sprite_sheet() {
    assert_eq!(SymbolName::a.atlas(), TilePos { x: 0, y: 0 });
    assert_eq!(SymbolName::z.atlas(), TilePos { x: 25, y: 0 });
    assert_eq!(SymbolName::A.atlas(), TilePos { x: 0, y: 1 });
    assert_eq!(SymbolName::Nine.atlas(), TilePos { x: 9, y: 2 });
    assert_eq!(SymbolName::RecOn.atlas(), TilePos { x: 2, y: 4 });
    assert_eq!(SymbolName::Null.atlas(), TilePos { x: 25, y: 7 });
}

#[test]
fn text_maps_to_one_glyph_per_character() {
    let glyphs = SymbolName::get_text("Q1 ?");
    assert_eq!(glyphs, vec![
        SymbolName::Q,
        SymbolName::One,
        SymbolName::Null,
        SymbolName::QuestionMark
    ]);
    assert_eq!(SymbolName::get_text(""), Vec::<SymbolName>::new());
}

#[test]
fn theme_colours_are_fixed() {
    let light = Theme::LightText.get();
    assert_eq!((light.r, light.g, light.b), (237, 231, 227));
    let special = Theme::Special.get();
    assert_eq!((special.r, special.g, special.b), (255, 166, 43));
    assert_eq!(Theme::DarkText.get(), Theme::DarkBackground.get());
}
