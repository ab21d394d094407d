//! The fixed catalog of assets the demo loads: each entry pairs a logical name
//! (slash-separated segments) with a file path under the asset directory.
use vstd::prelude::*;
use crate::names::{lemma_join3_injective, lemma_join3_not_plain, no_slash};
use crate::pack::GraphicsPack;

verus! {

/// Number of character identifiers.
pub const N_CHARACTERS: usize = 2;

/// Number of body-part identifiers.
pub const N_PARTS: usize = 5;

/// Number of material identifiers.
pub const N_MATERIALS: usize = 6;

/// Number of weapon identifiers.
pub const N_WEAPONS: usize = 12;

/// Number of stand-alone assets (fonts, backgrounds, icon, creatures).
pub const N_SINGLETONS: usize = 8;

/// The character identifier at position `c`: male, then female.
pub open spec fn character_seg(c: int) -> Seq<char> {
    if c == 0 {
        "male"@
    } else {
        "female"@
    }
}

/// The body-part identifier at position `p`.
pub open spec fn part_seg(p: int) -> Seq<char> {
    if p == 0 {
        "feet"@
    } else if p == 1 {
        "hands"@
    } else if p == 2 {
        "head"@
    } else if p == 3 {
        "legs"@
    } else {
        "torso"@
    }
}

/// The material identifier at position `m`.
pub open spec fn material_seg(m: int) -> Seq<char> {
    if m == 0 {
        "chain"@
    } else if m == 1 {
        "default"@
    } else if m == 2 {
        "leather"@
    } else if m == 3 {
        "mage_alt1"@
    } else if m == 4 {
        "mage_alt2"@
    } else {
        "plate"@
    }
}

/// The weapon identifier at position `w`, in the fixed weapon order.
pub open spec fn weapon_seg(w: int) -> Seq<char> {
    if w == 0 {
        "buckler"@
    } else if w == 1 {
        "greatbow"@
    } else if w == 2 {
        "iron_buckler"@
    } else if w == 3 {
        "longbow"@
    } else if w == 4 {
        "longsword"@
    } else if w == 5 {
        "rod"@
    } else if w == 6 {
        "shield"@
    } else if w == 7 {
        "shortbow"@
    } else if w == 8 {
        "shortsword"@
    } else if w == 9 {
        "staff"@
    } else if w == 10 {
        "wand"@
    } else {
        "zweihander"@
    }
}

/// The segment that sits between a character and a weapon name.
pub open spec fn weapons_seg() -> Seq<char> {
    "weapons"@
}

/// The stand-alone entries, in catalog order.
pub open spec fn singleton_entry(k: int) -> (Seq<char>, Seq<char>) {
    if k == 0 {
        ("heading_font"@, "fonts/MacedoniaOld.ttf"@)
    } else if k == 1 {
        ("body_font"@, "fonts/TimesSansSerif.ttf"@)
    } else if k == 2 {
        ("light_background"@, "images/ui/parchment_texture.png"@)
    } else if k == 3 {
        ("dark_background"@, "images/ui/stone_texture.png"@)
    } else if k == 4 {
        ("loading_icon"@, "images/ui/loading.png"@)
    } else if k == 5 {
        ("minotaur"@, "images/minotaur.png"@)
    } else if k == 6 {
        ("skeleton_mage"@, "images/skeleton_mage.png"@)
    } else {
        ("skeleton"@, "images/skeleton.png"@)
    }
}

/// The name of the stand-alone entry at position `k`.
pub open spec fn singleton_name(k: int) -> Seq<char> {
    singleton_entry(k).0
}

/// Three segments joined by slashes.
pub open spec fn join3(a: Seq<char>, b: Seq<char>, c: Seq<char>) -> Seq<char> {
    a + "/"@ + b + "/"@ + c
}

/// The file that backs a catalogued sprite: `images/<name>.png`.
pub open spec fn image_path(name: Seq<char>) -> Seq<char> {
    "images/"@ + name + ".png"@
}

/// The entry for a name whose file follows the sprite convention.
pub open spec fn sprite_entry(name: Seq<char>) -> (Seq<char>, Seq<char>) {
    (name, image_path(name))
}

/// The logical name of an armor sprite: `<character>/<part>/<material>`.
pub open spec fn armor_name(c: int, p: int, m: int) -> Seq<char> {
    join3(character_seg(c), part_seg(p), material_seg(m))
}

/// The logical name of a weapon sprite: `<character>/weapons/<weapon>`.
pub open spec fn weapon_name(c: int, w: int) -> Seq<char> {
    join3(character_seg(c), weapons_seg(), weapon_seg(w))
}

/// Position in the catalog of the armor sprite for character `c`, part `p`,
/// material `m`.
pub open spec fn armor_index(c: int, p: int, m: int) -> int {
    42 * c + 6 * p + m
}

/// Position in the catalog of weapon `w` of character `c`.
pub open spec fn weapon_index(c: int, w: int) -> int {
    42 * c + 30 + w
}

/// The entry at position `k` of the full catalog: for each character its
/// armor sprites (by part, then by material) followed by its weapons, and
/// after all characters the stand-alone entries.
pub open spec fn catalog_entry(k: int) -> (Seq<char>, Seq<char>) {
    if k < 84 {
        let c = k / 42;
        let r = k % 42;
        if r < 30 {
            sprite_entry(armor_name(c, r / 6, r % 6))
        } else {
            sprite_entry(weapon_name(c, r - 30))
        }
    } else {
        singleton_entry(k - 84)
    }
}

/// The full catalog.
pub open spec fn catalog() -> Seq<(Seq<char>, Seq<char>)> {
    Seq::new(92, |k: int| catalog_entry(k))
}

/// The view of an executable entry.
pub open spec fn entry_view(e: (String, String)) -> (Seq<char>, Seq<char>) {
    (e.0@, e.1@)
}

/// The character identifier at position `c`.
pub fn character_name(c: usize) -> (r: &'static str)
    requires
        c < N_CHARACTERS,
    ensures
        r@ == character_seg(c as int),
{
    if c == 0 {
        "male"
    } else {
        "female"
    }
}

/// The body-part identifier at position `p`.
pub fn part_name(p: usize) -> (r: &'static str)
    requires
        p < N_PARTS,
    ensures
        r@ == part_seg(p as int),
{
    if p == 0 {
        "feet"
    } else if p == 1 {
        "hands"
    } else if p == 2 {
        "head"
    } else if p == 3 {
        "legs"
    } else {
        "torso"
    }
}

/// The material identifier at position `m`.
pub fn material_name(m: usize) -> (r: &'static str)
    requires
        m < N_MATERIALS,
    ensures
        r@ == material_seg(m as int),
{
    if m == 0 {
        "chain"
    } else if m == 1 {
        "default"
    } else if m == 2 {
        "leather"
    } else if m == 3 {
        "mage_alt1"
    } else if m == 4 {
        "mage_alt2"
    } else {
        "plate"
    }
}

/// The weapon identifier at position `w`.
pub fn weapon_kind_name(w: usize) -> (r: &'static str)
    requires
        w < N_WEAPONS,
    ensures
        r@ == weapon_seg(w as int),
{
    if w == 0 {
        "buckler"
    } else if w == 1 {
        "greatbow"
    } else if w == 2 {
        "iron_buckler"
    } else if w == 3 {
        "longbow"
    } else if w == 4 {
        "longsword"
    } else if w == 5 {
        "rod"
    } else if w == 6 {
        "shield"
    } else if w == 7 {
        "shortbow"
    } else if w == 8 {
        "shortsword"
    } else if w == 9 {
        "staff"
    } else if w == 10 {
        "wand"
    } else {
        "zweihander"
    }
}

/// The stand-alone entry at position `k`.
fn singleton(k: usize) -> (r: (String, String))
    requires
        k < N_SINGLETONS,
    ensures
        entry_view(r) == singleton_entry(k as int),
{
    let (n, p) = if k == 0 {
        ("heading_font", "fonts/MacedoniaOld.ttf")
    } else if k == 1 {
        ("body_font", "fonts/TimesSansSerif.ttf")
    } else if k == 2 {
        ("light_background", "images/ui/parchment_texture.png")
    } else if k == 3 {
        ("dark_background", "images/ui/stone_texture.png")
    } else if k == 4 {
        ("loading_icon", "images/ui/loading.png")
    } else if k == 5 {
        ("minotaur", "images/minotaur.png")
    } else if k == 6 {
        ("skeleton_mage", "images/skeleton_mage.png")
    } else {
        ("skeleton", "images/skeleton.png")
    };
    (String::from_str(n), String::from_str(p))
}

/// Joins three segments with slashes.
pub fn join_segments(a: &str, b: &str, c: &str) -> (r: String)
    ensures
        r@ == join3(a@, b@, c@),
{
    let mut s = String::from_str(a);
    s.append("/");
    s.append(b);
    s.append("/");
    s.append(c);
    s
}

/// The sprite entry for `name`: the name with its file `images/<name>.png`.
pub fn sprite(name: String) -> (r: (String, String))
    ensures
        entry_view(r) == sprite_entry(name@),
{
    let mut path = String::from_str("images/");
    path.append(name.as_str());
    path.append(".png");
    (name, path)
}


impl<H> GraphicsPack<H> {
    /// Every asset of the full catalog, in catalog order.
    pub fn asset_file_list() -> (r: Vec<(String, String)>)
        ensures
            r@.map_values(|e: (String, String)| entry_view(e)) == catalog(),
    {
        let mut files: Vec<(String, String)> = Vec::new();
        let mut c: usize = 0;
        while c < N_CHARACTERS
            invariant
                c <= N_CHARACTERS,
                files@.len() == 42 * c,
                forall|i: int| 0 <= i < files@.len() ==> entry_view(#[trigger] files@[i]) == catalog_entry(i),
            decreases N_CHARACTERS - c,
        {
            let character = character_name(c);
            let mut p: usize = 0;
            while p < N_PARTS
                invariant
                    c < N_CHARACTERS,
                    p <= N_PARTS,
                    character@ == character_seg(c as int),
                    files@.len() == 42 * c + 6 * p,
                    forall|i: int| 0 <= i < files@.len() ==> entry_view(#[trigger] files@[i]) == catalog_entry(i),
                decreases N_PARTS - p,
            {
                let part = part_name(p);
                let mut m: usize = 0;
                while m < N_MATERIALS
                    invariant
                        c < N_CHARACTERS,
                        p < N_PARTS,
                        m <= N_MATERIALS,
                        character@ == character_seg(c as int),
                        part@ == part_seg(p as int),
                        files@.len() == 42 * c + 6 * p + m,
                        forall|i: int| 0 <= i < files@.len() ==> entry_view(#[trigger] files@[i]) == catalog_entry(i),
                    decreases N_MATERIALS - m,
                {
                    let name = join_segments(character, part, material_name(m));
                    let entry = sprite(name);
                    proof {
                        lemma_armor_position(c as int, p as int, m as int);
                    }
                    files.push(entry);
                    m = m + 1;
                }
                p = p + 1;
            }
            let mut w: usize = 0;
            while w < N_WEAPONS
                invariant
                    c < N_CHARACTERS,
                    w <= N_WEAPONS,
                    character@ == character_seg(c as int),
                    files@.len() == 42 * c + 30 + w,
                    forall|i: int| 0 <= i < files@.len() ==> entry_view(#[trigger] files@[i]) == catalog_entry(i),
                decreases N_WEAPONS - w,
            {
                let name = join_segments(character, "weapons", weapon_kind_name(w));
                let entry = sprite(name);
                proof {
                    lemma_weapon_position(c as int, w as int);
                }
                files.push(entry);
                w = w + 1;
            }
            c = c + 1;
        }
        let mut k: usize = 0;
        while k < N_SINGLETONS
            invariant
                k <= N_SINGLETONS,
                files@.len() == 84 + k,
                forall|i: int| 0 <= i < files@.len() ==> entry_view(#[trigger] files@[i]) == catalog_entry(i),
            decreases N_SINGLETONS - k,
        {
            files.push(singleton(k));
            k = k + 1;
        }
        assert(files@.map_values(|e: (String, String)| entry_view(e)) =~= catalog());
        files
    }
}

/// The armor sprite of `(c, p, m)` sits at `armor_index(c, p, m)`.
proof fn lemma_armor_position(c: int, p: int, m: int)
    requires
        0 <= c < 2,
        0 <= p < 5,
        0 <= m < 6,
    ensures
        catalog_entry(armor_index(c, p, m)) == sprite_entry(armor_name(c, p, m)),
{
    let j = 42 * c + 6 * p + m;
    assert(j / 42 == c && j % 42 == 6 * p + m);
    assert((6 * p + m) / 6 == p && (6 * p + m) % 6 == m);
}

/// Weapon `w` of character `c` sits at `weapon_index(c, w)`.
proof fn lemma_weapon_position(c: int, w: int)
    requires
        0 <= c < 2,
        0 <= w < 12,
    ensures
        catalog_entry(weapon_index(c, w)) == sprite_entry(weapon_name(c, w)),
{
    let j = 42 * c + 30 + w;
    assert(j / 42 == c && j % 42 == 30 + w);
}


/// The character segments are slash-free and pairwise different.
pub proof fn lemma_character_segments()
    ensures
        forall|i: int| 0 <= i < 2 ==> no_slash(#[trigger] character_seg(i)),
        forall|i: int, j: int|
            0 <= i < 2 && 0 <= j < 2 && i != j ==> #[trigger] character_seg(i) != #[trigger] character_seg(j),
{
    reveal_strlit("male");
    reveal_strlit("female");
    assert(no_slash("male"@));
    assert(no_slash("female"@));
    assert("male"@[0] == 'm');
    assert("male"@.len() == 4);
    assert("female"@[0] == 'f');
    assert("female"@.len() == 6);
}

/// The part segments are slash-free and pairwise different, and none is the
/// weapons segment.
pub proof fn lemma_part_segments()
    ensures
        forall|i: int| 0 <= i < 5 ==> no_slash(#[trigger] part_seg(i)),
        forall|i: int, j: int|
            0 <= i < 5 && 0 <= j < 5 && i != j ==> #[trigger] part_seg(i) != #[trigger] part_seg(j),
        no_slash(weapons_seg()),
        forall|p: int| 0 <= p < 5 ==> #[trigger] part_seg(p) != weapons_seg(),
{
    reveal_strlit("feet");
    reveal_strlit("hands");
    reveal_strlit("head");
    reveal_strlit("legs");
    reveal_strlit("torso");
    reveal_strlit("weapons");
    assert(no_slash("feet"@));
    assert(no_slash("hands"@));
    assert(no_slash("head"@));
    assert(no_slash("legs"@));
    assert(no_slash("torso"@));
    assert(no_slash("weapons"@));
    assert("feet"@[0] == 'f');
    assert("feet"@.len() == 4);
    assert("hands"@[0] == 'h');
    assert("hands"@.len() == 5);
    assert("head"@[0] == 'h');
    assert("head"@.len() == 4);
    assert("legs"@[0] == 'l');
    assert("legs"@.len() == 4);
    assert("torso"@[0] == 't');
    assert("torso"@.len() == 5);
    assert("weapons"@[0] == 'w');
    assert("weapons"@.len() == 7);
}

/// The material segments are slash-free and pairwise different.
pub proof fn lemma_material_segments()
    ensures
        forall|i: int| 0 <= i < 6 ==> no_slash(#[trigger] material_seg(i)),
        forall|i: int, j: int|
            0 <= i < 6 && 0 <= j < 6 && i != j ==> #[trigger] material_seg(i) != #[trigger] material_seg(j),
{
    reveal_strlit("chain");
    reveal_strlit("default");
    reveal_strlit("leather");
    reveal_strlit("mage_alt1");
    reveal_strlit("mage_alt2");
    reveal_strlit("plate");
    assert(no_slash("chain"@));
    assert(no_slash("default"@));
    assert(no_slash("leather"@));
    assert(no_slash("mage_alt1"@));
    assert(no_slash("mage_alt2"@));
    assert(no_slash("plate"@));
    assert("chain"@[0] == 'c');
    assert("chain"@.len() == 5);
    assert("default"@[0] == 'd');
    assert("default"@.len() == 7);
    assert("leather"@[0] == 'l');
    assert("leather"@.len() == 7);
    assert("mage_alt1"@[0] == 'm');
    assert("mage_alt1"@.len() == 9);
    assert("mage_alt2"@[0] == 'm');
    assert("mage_alt2"@.len() == 9);
    assert("plate"@[0] == 'p');
    assert("plate"@.len() == 5);
    assert("mage_alt1"@[8] == '1');
    assert("mage_alt2"@[8] == '2');
}

/// The weapon segments are slash-free and pairwise different.
pub proof fn lemma_weapon_segments()
    ensures
        forall|i: int| 0 <= i < 12 ==> no_slash(#[trigger] weapon_seg(i)),
        forall|i: int, j: int|
            0 <= i < 12 && 0 <= j < 12 && i != j ==> #[trigger] weapon_seg(i) != #[trigger] weapon_seg(j),
{
    reveal_strlit("buckler");
    reveal_strlit("greatbow");
    reveal_strlit("iron_buckler");
    reveal_strlit("longbow");
    reveal_strlit("longsword");
    reveal_strlit("rod");
    reveal_strlit("shield");
    reveal_strlit("shortbow");
    reveal_strlit("shortsword");
    reveal_strlit("staff");
    reveal_strlit("wand");
    reveal_strlit("zweihander");
    assert(no_slash("buckler"@));
    assert(no_slash("greatbow"@));
    assert(no_slash("iron_buckler"@));
    assert(no_slash("longbow"@));
    assert(no_slash("longsword"@));
    assert(no_slash("rod"@));
    assert(no_slash("shield"@));
    assert(no_slash("shortbow"@));
    assert(no_slash("shortsword"@));
    assert(no_slash("staff"@));
    assert(no_slash("wand"@));
    assert(no_slash("zweihander"@));
    assert("buckler"@[0] == 'b');
    assert("buckler"@.len() == 7);
    assert("greatbow"@[0] == 'g');
    assert("greatbow"@.len() == 8);
    assert("iron_buckler"@[0] == 'i');
    assert("iron_buckler"@.len() == 12);
    assert("longbow"@[0] == 'l');
    assert("longbow"@.len() == 7);
    assert("longsword"@[0] == 'l');
    assert("longsword"@.len() == 9);
    assert("rod"@[0] == 'r');
    assert("rod"@.len() == 3);
    assert("shield"@[0] == 's');
    assert("shield"@.len() == 6);
    assert("shortbow"@[0] == 's');
    assert("shortbow"@.len() == 8);
    assert("shortsword"@[0] == 's');
    assert("shortsword"@.len() == 10);
    assert("staff"@[0] == 's');
    assert("staff"@.len() == 5);
    assert("wand"@[0] == 'w');
    assert("wand"@.len() == 4);
    assert("zweihander"@[0] == 'z');
    assert("zweihander"@.len() == 10);
}

/// The stand-alone names are slash-free and pairwise different.
pub proof fn lemma_singleton_names()
    ensures
        forall|i: int| 0 <= i < 8 ==> no_slash(#[trigger] singleton_name(i)),
        forall|i: int, j: int|
            0 <= i < 8 && 0 <= j < 8 && i != j ==> #[trigger] singleton_name(i) != #[trigger] singleton_name(j),
{
    reveal_strlit("heading_font");
    reveal_strlit("body_font");
    reveal_strlit("light_background");
    reveal_strlit("dark_background");
    reveal_strlit("loading_icon");
    reveal_strlit("minotaur");
    reveal_strlit("skeleton_mage");
    reveal_strlit("skeleton");
    assert(no_slash("heading_font"@));
    assert(no_slash("body_font"@));
    assert(no_slash("light_background"@));
    assert(no_slash("dark_background"@));
    assert(no_slash("loading_icon"@));
    assert(no_slash("minotaur"@));
    assert(no_slash("skeleton_mage"@));
    assert(no_slash("skeleton"@));
    assert("heading_font"@[0] == 'h');
    assert("heading_font"@.len() == 12);
    assert("body_font"@[0] == 'b');
    assert("body_font"@.len() == 9);
    assert("light_background"@[0] == 'l');
    assert("light_background"@.len() == 16);
    assert("dark_background"@[0] == 'd');
    assert("dark_background"@.len() == 15);
    assert("loading_icon"@[0] == 'l');
    assert("loading_icon"@.len() == 12);
    assert("minotaur"@[0] == 'm');
    assert("minotaur"@.len() == 8);
    assert("skeleton_mage"@[0] == 's');
    assert("skeleton_mage"@.len() == 13);
    assert("skeleton"@[0] == 's');
    assert("skeleton"@.len() == 8);
}

/// The three segments of the name at position `k < 84` of the catalog.
pub open spec fn name_segments(k: int) -> (Seq<char>, Seq<char>, Seq<char>) {
    let c = k / 42;
    let r = k % 42;
    if r < 30 {
        (character_seg(c), part_seg(r / 6), material_seg(r % 6))
    } else {
        (character_seg(c), weapons_seg(), weapon_seg(r - 30))
    }
}

/// Every sprite name is three segments, the first two slash-free.
pub proof fn lemma_name_segments(k: int)
    requires
        0 <= k < 84,
    ensures
        catalog_entry(k).0 == join3(name_segments(k).0, name_segments(k).1, name_segments(k).2),
        no_slash(name_segments(k).0),
        no_slash(name_segments(k).1),
{
    lemma_character_segments();
    lemma_part_segments();
}

/// Entries at different positions have different names.
proof fn lemma_names_differ(i: int, j: int)
    requires
        0 <= i < 92,
        0 <= j < 92,
        i != j,
    ensures
        catalog_entry(i).0 != catalog_entry(j).0,
{
    lemma_singleton_names();
    if i >= 84 && j >= 84 {
        assert(singleton_name(i - 84) != singleton_name(j - 84));
    } else if i >= 84 {
        lemma_name_segments(j);
        let t = name_segments(j);
        lemma_join3_not_plain(t.0, t.1, t.2, singleton_name(i - 84));
    } else if j >= 84 {
        lemma_name_segments(i);
        let t = name_segments(i);
        lemma_join3_not_plain(t.0, t.1, t.2, singleton_name(j - 84));
    } else {
        lemma_name_segments(i);
        lemma_name_segments(j);
        let t = name_segments(i);
        let u = name_segments(j);
        if catalog_entry(i).0 == catalog_entry(j).0 {
            lemma_join3_injective(t.0, t.1, t.2, u.0, u.1, u.2);
            lemma_character_segments();
            lemma_part_segments();
            lemma_material_segments();
            lemma_weapon_segments();
            let ri = i % 42;
            let rj = j % 42;
            assert(i / 42 == j / 42);
            if ri < 30 && rj < 30 {
                assert(ri / 6 == rj / 6);
                assert(ri % 6 == rj % 6);
            } else if ri >= 30 && rj >= 30 {
                assert(ri == rj);
            } else if ri < 30 {
                assert(part_seg(ri / 6) != weapons_seg());
            } else {
                assert(part_seg(rj / 6) != weapons_seg());
            }
        }
    }
}

/// The full catalog has 92 entries, and no logical name occurs in it twice.
pub proof fn lemma_catalog_names_unique()
    ensures
        catalog().len() == 92,
        forall|i: int, j: int|
            0 <= i < catalog().len() && 0 <= j < catalog().len() && i != j
                ==> #[trigger] catalog()[i].0 != #[trigger] catalog()[j].0,
{
    assert forall|i: int, j: int|
        0 <= i < catalog().len() && 0 <= j < catalog().len() && i != j implies #[trigger] catalog()[i].0
        != #[trigger] catalog()[j].0 by {
        lemma_names_differ(i, j);
    }
}

/// For every character, part and material, the catalog holds exactly one
/// entry named by the three slash-joined segments, and its file is
/// `images/<name>.png`.
pub proof fn lemma_armor_entry_unique(c: int, p: int, m: int)
    requires
        0 <= c < 2,
        0 <= p < 5,
        0 <= m < 6,
    ensures
        0 <= armor_index(c, p, m) < catalog().len(),
        catalog()[armor_index(c, p, m)] == (armor_name(c, p, m), image_path(armor_name(c, p, m))),
        forall|k: int|
            0 <= k < catalog().len() && (#[trigger] catalog()[k]).0 == armor_name(c, p, m) ==> k
                == armor_index(c, p, m),
{
    lemma_armor_position(c, p, m);
    assert forall|k: int|
        0 <= k < catalog().len() && (#[trigger] catalog()[k]).0 == armor_name(c, p, m) implies k
        == armor_index(c, p, m) by {
        if k != armor_index(c, p, m) {
            lemma_names_differ(k, armor_index(c, p, m));
        }
    }
}

/// For each character, its twelve weapon entries stand together in the
/// catalog, in the fixed weapon order, and no other entry bears one of their
/// names.
pub proof fn lemma_weapon_order(c: int)
    requires
        0 <= c < 2,
    ensures
        catalog().subrange(weapon_index(c, 0), weapon_index(c, 0) + 12) == Seq::new(
            12,
            |w: int| sprite_entry(weapon_name(c, w)),
        ),
        forall|k: int, w: int|
            0 <= k < catalog().len() && 0 <= w < 12 && (#[trigger] catalog()[k]).0
                == #[trigger] weapon_name(c, w) ==> k == weapon_index(c, w),
{
    assert forall|w: int| 0 <= w < 12 implies catalog()[weapon_index(c, w)] == sprite_entry(
        #[trigger] weapon_name(c, w),
    ) by {
        lemma_weapon_position(c, w);
    }
    assert(catalog().subrange(weapon_index(c, 0), weapon_index(c, 0) + 12) =~= Seq::new(
        12,
        |w: int| sprite_entry(weapon_name(c, w)),
    ));
    assert forall|k: int, w: int|
        0 <= k < catalog().len() && 0 <= w < 12 && (#[trigger] catalog()[k]).0
            == #[trigger] weapon_name(c, w) implies k == weapon_index(c, w) by {
        lemma_weapon_position(c, w);
        if k != weapon_index(c, w) {
            lemma_names_differ(k, weapon_index(c, w));
        }
    }
}

/// Which assets the application loads.
#[derive(Debug, Clone, Copy, PartialEq, Eq, Structural)]
pub enum AssetSet {
    /// The full catalog.
    Full,
    /// The heading font alone.
    FontOnly,
}

/// The entries an asset set loads.
pub open spec fn asset_set_entries(set: AssetSet) -> Seq<(Seq<char>, Seq<char>)> {
    match set {
        AssetSet::Full => catalog(),
        AssetSet::FontOnly => seq![singleton_entry(0)],
    }
}

impl AssetSet {
    /// The (name, path) pairs to load for this set, in order.
    pub fn file_list(&self) -> (r: Vec<(String, String)>)
        ensures
            r@.map_values(|e: (String, String)| entry_view(e)) == asset_set_entries(*self),
    {
        match self {
            AssetSet::Full => GraphicsPack::<()>::asset_file_list(),
            AssetSet::FontOnly => {
                let mut v: Vec<(String, String)> = Vec::new();
                v.push(singleton(0));
                assert(v@.map_values(|e: (String, String)| entry_view(e)) =~= seq![singleton_entry(0)]);
                v
            },
        }
    }
}

} // verus!
