//! The font catalog and the selection cursor.
//!
//! The catalog is an ordered, immutable-after-construction list of font
//! descriptors, each naming the display string, the nominal glyph size and
//! the asset key under which the external asset pipeline resolves the font's
//! renderable resource. The cursor is a single index into the catalog with
//! modular increment and decrement.

use vstd::prelude::*;

verus! {

/// Nominal width-by-height glyph size class of a bitmap font.
/// Informational only: no rendering math in this crate depends on it.
#[derive(Debug, Clone, Copy, PartialEq, Eq, Structural)]
pub enum FontSize {
    _5x5,
    _6x6,
    _7x7,
    _8x8,
    _9x9,
    _10x10,
    _11x11,
    _12x12,
    _13x13,
    _14x14,
    _15x15,
}

impl FontSize {
    /// The glyph edge length in cells that this size class names.
    pub open spec fn cells_spec(self) -> nat {
        match self {
            FontSize::_5x5 => 5,
            FontSize::_6x6 => 6,
            FontSize::_7x7 => 7,
            FontSize::_8x8 => 8,
            FontSize::_9x9 => 9,
            FontSize::_10x10 => 10,
            FontSize::_11x11 => 11,
            FontSize::_12x12 => 12,
            FontSize::_13x13 => 13,
            FontSize::_14x14 => 14,
            FontSize::_15x15 => 15,
        }
    }

    /// The glyph edge length in cells.
    pub fn cells(self) -> (n: u32)
        ensures
            n == self.cells_spec(),
    {
        match self {
            FontSize::_5x5 => 5,
            FontSize::_6x6 => 6,
            FontSize::_7x7 => 7,
            FontSize::_8x8 => 8,
            FontSize::_9x9 => 9,
            FontSize::_10x10 => 10,
            FontSize::_11x11 => 11,
            FontSize::_12x12 => 12,
            FontSize::_13x13 => 13,
            FontSize::_14x14 => 14,
            FontSize::_15x15 => 15,
        }
    }
}

/// Mathematical value of one catalog entry: the display name, the glyph
/// size class, and the key under which the asset pipeline resolves the
/// font's renderable resource.
#[verifier::ext_equal]
pub ghost struct FontEntry {
    pub name: Seq<char>,
    pub size: FontSize,
    pub asset_key: Seq<char>,
}

/// One selectable font: display name, nominal glyph size, and the opaque
/// asset key of its pre-resolved renderable resource.
#[derive(Debug)]
pub struct FontInfo {
    pub name: String,
    pub size: FontSize,
    pub asset_key: String,
}

impl View for FontInfo {
    type V = FontEntry;

    open spec fn view(&self) -> FontEntry {
        FontEntry { name: self.name@, size: self.size, asset_key: self.asset_key@ }
    }
}

impl FontInfo {
    /// Build one descriptor from its parts.
    pub fn from(name: String, size: FontSize, asset_key: String) -> (r: Self)
        ensures
            r@ == (FontEntry { name: name@, size: size, asset_key: asset_key@ }),
    {
        Self { name, size, asset_key }
    }
}

/// Shorthand for building one catalog entry value.
pub open spec fn entry(name: Seq<char>, size: FontSize, asset_key: Seq<char>) -> FontEntry {
    FontEntry { name, size, asset_key }
}

/// The compiled-in font table, in its authored order (deliberately not
/// alphabetical). Each entry pairs the display name and glyph size with
/// the asset key of the matching renderable resource, so the active-font
/// lookup and the catalog can never drift apart.
pub open spec fn compiled_catalog() -> Seq<FontEntry> {
    seq![
        entry("Acorn"@, FontSize::_8x8, "acorn"@),
        entry("Alloy"@, FontSize::_12x12, "alloy"@),
        entry("Anikki"@, FontSize::_8x8, "anikki"@),
        entry("Anikki Square"@, FontSize::_10x10, "anikkisquare"@),
        entry("Buddy"@, FontSize::_10x10, "buddy"@),
        entry("Buddy Graphical"@, FontSize::_10x10, "buddygraphical"@),
        entry("CGAThick"@, FontSize::_8x8, "cgathick"@),
        entry("CGAThin"@, FontSize::_8x8, "cgathin"@),
        entry("Cheepicus"@, FontSize::_8x8, "cheepicus8"@),
        entry("Cheepicus"@, FontSize::_12x12, "cheepicus12"@),
        entry("Cheepicus"@, FontSize::_14x14, "cheepicus14"@),
        entry("Cheepicus"@, FontSize::_15x15, "cheepicus15"@),
        entry("Curses"@, FontSize::_9x9, "curses"@),
        entry("DB"@, FontSize::_12x12, "db"@),
        entry("Ddw"@, FontSize::_10x10, "ddw"@),
        entry("Dullard Exponent"@, FontSize::_12x12, "dullard"@),
        entry("Geti"@, FontSize::_6x6, "geti"@),
        entry("Haberdash"@, FontSize::_12x12, "haberdash"@),
        entry("Herrbdog"@, FontSize::_7x7, "herrbdog7"@),
        entry("Herrbdog"@, FontSize::_12x12, "herrbdog12"@),
        entry("Jdpage"@, FontSize::_8x8, "jdpage"@),
        entry("Kein"@, FontSize::_5x5, "kein"@),
        entry("Kren"@, FontSize::_13x13, "kren"@),
        entry("LN"@, FontSize::_8x8, "ln"@),
        entry("Lord Nightmare"@, FontSize::_6x6, "nightmare"@),
        entry("Markvii"@, FontSize::_12x12, "markvii"@),
        entry("Mkv"@, FontSize::_6x6, "mkv"@),
        entry("Mkv Solid"@, FontSize::_12x12, "mkvsolid"@),
        entry("Nice"@, FontSize::_12x12, "nice"@),
        entry("Nobbins"@, FontSize::_6x6, "nobbins"@),
        entry("Nostalgia"@, FontSize::_9x9, "nostalgia"@),
        entry("Pastiche"@, FontSize::_8x8, "pastiche"@),
        entry("Paul"@, FontSize::_10x10, "paul"@),
        entry("Potash"@, FontSize::_8x8, "potash8"@),
        entry("Potash"@, FontSize::_10x10, "potash10"@),
        entry("RDE"@, FontSize::_8x8, "rde"@),
        entry("Smooth Walls"@, FontSize::_9x9, "smoothwalls"@),
        entry("Taffer"@, FontSize::_10x10, "taffer"@),
        entry("Talryth"@, FontSize::_15x15, "talryth"@),
        entry("Terbert"@, FontSize::_7x7, "terbert7"@),
        entry("Terbert"@, FontSize::_10x10, "terbert10"@),
        entry("Terminus"@, FontSize::_11x11, "terminus"@),
        entry("Tileset Unknown"@, FontSize::_12x12, "tilesetunknown"@),
        entry("Tocky Square"@, FontSize::_10x10, "tocky"@),
        entry("Unknown"@, FontSize::_12x12, "unknown"@),
        entry("Vidumec"@, FontSize::_15x15, "vidumec"@),
        entry("Yayo"@, FontSize::_8x8, "yayo8"@),
        entry("Yayo"@, FontSize::_13x13, "yayo13"@),
        entry("Zaratustra"@, FontSize::_8x8, "zaratustra8"@),
        entry("Zaratustra"@, FontSize::_5x5, "zaratustra5"@),
        entry("Zesty"@, FontSize::_12x12, "zesty"@),
    ]
}

/// The catalog entries that a list of descriptors denotes.
pub open spec fn entries_of(names: Seq<FontInfo>) -> Seq<FontEntry> {
    names.map_values(|f: FontInfo| f@)
}

/// The ordered, immutable-after-construction list of selectable fonts.
#[derive(Debug)]
pub struct FontNames {
    pub names: Vec<FontInfo>,
}

impl View for FontNames {
    type V = Seq<FontEntry>;

    open spec fn view(&self) -> Seq<FontEntry> {
        entries_of(self.names@)
    }
}

/// Append one descriptor, built from its parts, to the list.
fn push_entry(v: &mut Vec<FontInfo>, name: &str, size: FontSize, asset_key: &str)
    ensures
        entries_of(final(v)@) =~= entries_of(old(v)@).push(
            entry(name@, size, asset_key@),
        ),
{
    v.push(FontInfo::from(String::from_str(name), size, String::from_str(asset_key)));
}

impl FontNames {
    /// Build the catalog from the compiled-in table, in its authored order.
    /// The result is exactly `compiled_catalog()`, entry for entry.
    #[verifier::rlimit(60)]
    pub fn new() -> (r: FontNames)
        ensures
            r@ == compiled_catalog(),
            r@.len() == 51,
    {
        let mut v: Vec<FontInfo> = Vec::new();
        push_entry(&mut v, "Acorn", FontSize::_8x8, "acorn");
        push_entry(&mut v, "Alloy", FontSize::_12x12, "alloy");
        push_entry(&mut v, "Anikki", FontSize::_8x8, "anikki");
        push_entry(&mut v, "Anikki Square", FontSize::_10x10, "anikkisquare");
        push_entry(&mut v, "Buddy", FontSize::_10x10, "buddy");
        push_entry(&mut v, "Buddy Graphical", FontSize::_10x10, "buddygraphical");
        push_entry(&mut v, "CGAThick", FontSize::_8x8, "cgathick");
        push_entry(&mut v, "CGAThin", FontSize::_8x8, "cgathin");
        push_entry(&mut v, "Cheepicus", FontSize::_8x8, "cheepicus8");
        push_entry(&mut v, "Cheepicus", FontSize::_12x12, "cheepicus12");
        push_entry(&mut v, "Cheepicus", FontSize::_14x14, "cheepicus14");
        push_entry(&mut v, "Cheepicus", FontSize::_15x15, "cheepicus15");
        push_entry(&mut v, "Curses", FontSize::_9x9, "curses");
        push_entry(&mut v, "DB", FontSize::_12x12, "db");
        push_entry(&mut v, "Ddw", FontSize::_10x10, "ddw");
        push_entry(&mut v, "Dullard Exponent", FontSize::_12x12, "dullard");
        push_entry(&mut v, "Geti", FontSize::_6x6, "geti");
        push_entry(&mut v, "Haberdash", FontSize::_12x12, "haberdash");
        push_entry(&mut v, "Herrbdog", FontSize::_7x7, "herrbdog7");
        push_entry(&mut v, "Herrbdog", FontSize::_12x12, "herrbdog12");
        push_entry(&mut v, "Jdpage", FontSize::_8x8, "jdpage");
        push_entry(&mut v, "Kein", FontSize::_5x5, "kein");
        push_entry(&mut v, "Kren", FontSize::_13x13, "kren");
        push_entry(&mut v, "LN", FontSize::_8x8, "ln");
        push_entry(&mut v, "Lord Nightmare", FontSize::_6x6, "nightmare");
        push_entry(&mut v, "Markvii", FontSize::_12x12, "markvii");
        push_entry(&mut v, "Mkv", FontSize::_6x6, "mkv");
        push_entry(&mut v, "Mkv Solid", FontSize::_12x12, "mkvsolid");
        push_entry(&mut v, "Nice", FontSize::_12x12, "nice");
        push_entry(&mut v, "Nobbins", FontSize::_6x6, "nobbins");
        push_entry(&mut v, "Nostalgia", FontSize::_9x9, "nostalgia");
        push_entry(&mut v, "Pastiche", FontSize::_8x8, "pastiche");
        push_entry(&mut v, "Paul", FontSize::_10x10, "paul");
        push_entry(&mut v, "Potash", FontSize::_8x8, "potash8");
        push_entry(&mut v, "Potash", FontSize::_10x10, "potash10");
        push_entry(&mut v, "RDE", FontSize::_8x8, "rde");
        push_entry(&mut v, "Smooth Walls", FontSize::_9x9, "smoothwalls");
        push_entry(&mut v, "Taffer", FontSize::_10x10, "taffer");
        push_entry(&mut v, "Talryth", FontSize::_15x15, "talryth");
        push_entry(&mut v, "Terbert", FontSize::_7x7, "terbert7");
        push_entry(&mut v, "Terbert", FontSize::_10x10, "terbert10");
        push_entry(&mut v, "Terminus", FontSize::_11x11, "terminus");
        push_entry(&mut v, "Tileset Unknown", FontSize::_12x12, "tilesetunknown");
        push_entry(&mut v, "Tocky Square", FontSize::_10x10, "tocky");
        push_entry(&mut v, "Unknown", FontSize::_12x12, "unknown");
        push_entry(&mut v, "Vidumec", FontSize::_15x15, "vidumec");
        push_entry(&mut v, "Yayo", FontSize::_8x8, "yayo8");
        push_entry(&mut v, "Yayo", FontSize::_13x13, "yayo13");
        push_entry(&mut v, "Zaratustra", FontSize::_8x8, "zaratustra8");
        push_entry(&mut v, "Zaratustra", FontSize::_5x5, "zaratustra5");
        push_entry(&mut v, "Zesty", FontSize::_12x12, "zesty");
        let r = FontNames { names: v };
        proof {
            assert(r@ =~= compiled_catalog());
        }
        r
    }

    /// How many fonts the catalog holds. This, not a separately maintained
    /// constant, is the modulus for cursor wraparound.
    pub fn size(&self) -> (n: usize)
        ensures
            n == self@.len(),
    {
        self.names.len()
    }

    /// The descriptor at ordinal position `index`, by reference.
    pub fn descriptor_at(&self, index: usize) -> (r: &FontInfo)
        requires
            index < self@.len(),
        ensures
            r@ == self@[index as int],
    {
        &self.names[index]
    }
}

/// Successor of cursor position `p` in a catalog of `count` entries,
/// wrapping from the last entry back to the first.
pub open spec fn advance_spec(p: nat, count: nat) -> nat
    recommends
        1 <= count,
        p < count,
{
    if p + 1 == count {
        0
    } else {
        p + 1
    }
}

/// Predecessor of cursor position `p` in a catalog of `count` entries,
/// wrapping from the first entry to the last.
pub open spec fn retreat_spec(p: nat, count: nat) -> nat
    recommends
        1 <= count,
        p < count,
{
    if p == 0 {
        (count - 1) as nat
    } else {
        (p - 1) as nat
    }
}

/// The index of the catalog entry that is currently active.
/// Invariant (kept by every operation): the index is below the catalog
/// length that the operations are called with.
#[derive(Debug, Clone, Copy, PartialEq, Eq, Structural)]
pub struct CurrentFont(pub u32);

impl CurrentFont {
    /// A fresh cursor, starting at the first catalog entry.
    pub fn new() -> (r: CurrentFont)
        ensures
            r.0 == 0,
    {
        CurrentFont(0)
    }

    /// Step to the next catalog entry, wrapping from the last to the first.
    pub fn advance(&mut self, count: u32)
        requires
            1 <= count,
            old(self).0 < count,
        ensures
            final(self).0 == advance_spec(old(self).0 as nat, count as nat),
            final(self).0 < count,
    {
        if self.0 == count - 1 {
            self.0 = 0;
        } else {
            self.0 = self.0 + 1;
        }
    }

    /// Step to the previous catalog entry, wrapping from the first to the last.
    pub fn retreat(&mut self, count: u32)
        requires
            1 <= count,
            old(self).0 < count,
        ensures
            final(self).0 == retreat_spec(old(self).0 as nat, count as nat),
            final(self).0 < count,
    {
        if self.0 == 0 {
            self.0 = count - 1;
        } else {
            self.0 = self.0 - 1;
        }
    }
}

/// Advancing and retreating are inverse to one another: from any valid
/// position in a catalog of at least one entry, one step forward followed
/// by one step back returns to the start, and so does one step back
/// followed by one step forward.
pub proof fn lemma_advance_retreat_inverse(p: nat, count: nat)
    requires
        1 <= count,
        p < count,
    ensures
        retreat_spec(advance_spec(p, count), count) == p,
        advance_spec(retreat_spec(p, count), count) == p,
{
}

/// In a single-entry catalog both cursor steps are the identity.
pub proof fn lemma_single_entry_identity(p: nat)
    requires
        p < 1,
    ensures
        advance_spec(p, 1) == p,
        retreat_spec(p, 1) == p,
{
}

} // verus!
