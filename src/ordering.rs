//! The order of the memory report for a handle table filled from the
//! catalog.
use vstd::prelude::*;
use crate::catalog::{
    catalog, lemma_name_segments, lemma_singleton_names, name_segments, singleton_name,
    weapon_index, weapon_name,
};
use crate::names::lemma_join3_not_plain;
use crate::pack::{filled, lemma_filled_keeps_order, unique_names};
use crate::report::{
    counted_bytes, is_font_name, lemma_size_lines_prefix, lemma_size_lines_without_fonts, size_line,
    size_lines,
};

verus! {

/// The catalog's names, each paired with the handle loaded for it.
pub open spec fn catalog_with<H>(hs: Seq<H>) -> Seq<(Seq<char>, H)> {
    Seq::new(92, |k: int| (catalog()[k].0, hs[k]))
}

/// No catalog sprite is named like a font.
proof fn lemma_sprites_are_not_fonts(k: int)
    requires
        0 <= k < 84,
    ensures
        !is_font_name(catalog()[k].0),
{
    lemma_name_segments(k);
    lemma_singleton_names();
    let t = name_segments(k);
    lemma_join3_not_plain(t.0, t.1, t.2, singleton_name(0));
    lemma_join3_not_plain(t.0, t.1, t.2, singleton_name(1));
}

/// When the handle table is filled by inserting the catalog's entries in
/// catalog order, and the sizes handed to the report follow that table entry
/// by entry, the report lists each character's weapons in the fixed weapon
/// order, on every run.
pub proof fn lemma_report_lists_weapons_in_order<H>(
    hs: Seq<H>,
    sizes: Seq<(String, Option<usize>)>,
    c: int,
)
    requires
        hs.len() == 92,
        sizes.len() == 92,
        forall|k: int| 0 <= k < 92 ==> (#[trigger] sizes[k]).0@ == filled(catalog_with(hs))[k].0,
        0 <= c < 2,
    ensures
        size_lines(sizes).subrange(weapon_index(c, 0), weapon_index(c, 0) + 12) == Seq::new(
            12,
            |w: int| size_line(weapon_name(c, w), counted_bytes(sizes[weapon_index(c, w)])),
        ),
{
    crate::catalog::lemma_catalog_names_unique();
    let entries = catalog_with(hs);
    assert forall|i: int, j: int|
        0 <= i < entries.len() && 0 <= j < entries.len() && i != j implies #[trigger] entries[i].0
        != #[trigger] entries[j].0 by {
        assert(catalog()[i].0 != catalog()[j].0);
    }
    assert(unique_names(entries));
    lemma_filled_keeps_order(entries);
    assert forall|k: int| 0 <= k < 84 implies !is_font_name((#[trigger] sizes[k]).0@) by {
        lemma_sprites_are_not_fonts(k);
    }
    lemma_size_lines_without_fonts(sizes, 84);
    lemma_size_lines_prefix(sizes, 84, 92);
    assert(sizes.subrange(0, 92) =~= sizes);
    assert forall|w: int| 0 <= w < 12 implies #[trigger] size_lines(sizes)[weapon_index(c, w)]
        == size_line(weapon_name(c, w), counted_bytes(sizes[weapon_index(c, w)])) by {
        crate::catalog::lemma_weapon_order(c);
        assert(catalog()[weapon_index(c, w)].0 == weapon_name(c, w)) by {
            assert(catalog().subrange(weapon_index(c, 0), weapon_index(c, 0) + 12)[w]
                == catalog()[weapon_index(c, w)]);
        }
    }
    assert(size_lines(sizes).subrange(weapon_index(c, 0), weapon_index(c, 0) + 12) =~= Seq::new(
        12,
        |w: int| size_line(weapon_name(c, w), counted_bytes(sizes[weapon_index(c, w)])),
    ));
}

} // verus!
