use font_previewer::font_info::FontInfo;
use font_previewer::font_info::FontNames;
use font_previewer::font_info::FontSize;

/// The compiled-in table, written out once more by hand: display name,
/// glyph size class, and the asset key of the renderable resource.
fn expected_entries() -> Vec<(&'static str, FontSize, &'static str)> {
    vec![
        ("Acorn", FontSize::_8x8, "acorn"),
        ("Alloy", FontSize::_12x12, "alloy"),
        ("Anikki", FontSize::_8x8, "anikki"),
        ("Anikki Square", FontSize::_10x10, "anikkisquare"),
        ("Buddy", FontSize::_10x10, "buddy"),
        ("Buddy Graphical", FontSize::_10x10, "buddygraphical"),
        ("CGAThick", FontSize::_8x8, "cgathick"),
        ("CGAThin", FontSize::_8x8, "cgathin"),
        ("Cheepicus", FontSize::_8x8, "cheepicus8"),
        ("Cheepicus", FontSize::_12x12, "cheepicus12"),
        ("Cheepicus", FontSize::_14x14, "cheepicus14"),
        ("Cheepicus", FontSize::_15x15, "cheepicus15"),
        ("Curses", FontSize::_9x9, "curses"),
        ("DB", FontSize::_12x12, "db"),
        ("Ddw", FontSize::_10x10, "ddw"),
        ("Dullard Exponent", FontSize::_12x12, "dullard"),
        ("Geti", FontSize::_6x6, "geti"),
        ("Haberdash", FontSize::_12x12, "haberdash"),
        ("Herrbdog", FontSize::_7x7, "herrbdog7"),
        ("Herrbdog", FontSize::_12x12, "herrbdog12"),
        ("Jdpage", FontSize::_8x8, "jdpage"),
        ("Kein", FontSize::_5x5, "kein"),
        ("Kren", FontSize::_13x13, "kren"),
        ("LN", FontSize::_8x8, "ln"),
        ("Lord Nightmare", FontSize::_6x6, "nightmare"),
        ("Markvii", FontSize::_12x12, "markvii"),
        ("Mkv", FontSize::_6x6, "mkv"),
        ("Mkv Solid", FontSize::_12x12, "mkvsolid"),
        ("Nice", FontSize::_12x12, "nice"),
        ("Nobbins", FontSize::_6x6, "nobbins"),
        ("Nostalgia", FontSize::_9x9, "nostalgia"),
        ("Pastiche", FontSize::_8x8, "pastiche"),
        ("Paul", FontSize::_10x10, "paul"),
        ("Potash", FontSize::_8x8, "potash8"),
        ("Potash", FontSize::_10x10, "potash10"),
        ("RDE", FontSize::_8x8, "rde"),
        ("Smooth Walls", FontSize::_9x9, "smoothwalls"),
        ("Taffer", FontSize::_10x10, "taffer"),
        ("Talryth", FontSize::_15x15, "talryth"),
        ("Terbert", FontSize::_7x7, "terbert7"),
        ("Terbert", FontSize::_10x10, "terbert10"),
        ("Terminus", FontSize::_11x11, "terminus"),
        ("Tileset Unknown", FontSize::_12x12, "tilesetunknown"),
        ("Tocky Square", FontSize::_10x10, "tocky"),
        ("Unknown", FontSize::_12x12, "unknown"),
        ("Vidumec", FontSize::_15x15, "vidumec"),
        ("Yayo", FontSize::_8x8, "yayo8"),
        ("Yayo", FontSize::_13x13, "yayo13"),
        ("Zaratustra", FontSize::_8x8, "zaratustra8"),
        ("Zaratustra", FontSize::_5x5, "zaratustra5"),
        ("Zesty", FontSize::_12x12, "zesty"),
    ]
}

#[test]
fn catalog_length_equals_compiled_in_entry_count() {
    let catalog = FontNames::new();
    assert_eq!(catalog.size(), expected_entries().len());
    assert_eq!(catalog.size(), 51);
}

#[test]
fn every_descriptor_matches_the_compiled_in_table_in_authored_order() {
    let catalog = FontNames::new();
    let expected = expected_entries();
    assert_eq!(catalog.size(), expected.len());
    for (i, (name, size, key)) in expected.iter().enumerate() {
        let d = catalog.descriptor_at(i);
        assert_eq!(d.name.as_str(), *name, "name at index {i}");
        assert_eq!(d.size, *size, "size at index {i}");
        assert_eq!(d.asset_key.as_str(), *key, "asset key at index {i}");
    }
}

#[test]
fn duplicate_names_with_different_sizes_are_distinct_entries() {
    let catalog = FontNames::new();
    let a = catalog.descriptor_at(8);
    let b = catalog.descriptor_at(9);
    assert_eq!(a.name.as_str(), "Cheepicus");
    assert_eq!(b.name.as_str(), "Cheepicus");
    assert_ne!(a.size, b.size);
    assert_ne!(a.asset_key, b.asset_key);
}

#[test]
fn asset_keys_pair_with_glyph_sizes_at_the_tail_entries() {
    let catalog = FontNames::new();
    let z8 = catalog.descriptor_at(48);
    assert_eq!(z8.size, FontSize::_8x8);
    assert_eq!(z8.asset_key.as_str(), "zaratustra8");
    let z5 = catalog.descriptor_at(49);
    assert_eq!(z5.size, FontSize::_5x5);
    assert_eq!(z5.asset_key.as_str(), "zaratustra5");
}

#[test]
fn descriptor_builder_keeps_its_parts() {
    let d = FontInfo::from(String::from("Curses"), FontSize::_9x9, String::from("curses"));
    assert_eq!(d.name.as_str(), "Curses");
    assert_eq!(d.size, FontSize::_9x9);
    assert_eq!(d.asset_key.as_str(), "curses");
}

#[test]
fn glyph_size_classes_name_their_cell_counts() {
    assert_eq!(FontSize::_5x5.cells(), 5);
    assert_eq!(FontSize::_8x8.cells(), 8);
    assert_eq!(FontSize::_15x15.cells(), 15);
}
