use ram_usage::catalog::AssetSet;
use ram_usage::pack::GraphicsPack;

fn full() -> Vec<(String, String)> {
    GraphicsPack::<()>::asset_file_list()
}

#[test]
fn full_catalog_has_92_entries() {
    assert_eq!(full().len(), 92);
}

#[test]
fn catalog_names_are_unique() {
    let files = full();
    for i in 0..files.len() {
        for j in (i + 1)..files.len() {
            assert_ne!(files[i].0, files[j].0);
        }
    }
}

#[test]
fn every_armor_combination_appears_once_with_its_path() {
    let files = full();
    for c in ["male", "female"] {
        for p in ["feet", "hands", "head", "legs", "torso"] {
            for m in ["chain", "default", "leather", "mage_alt1", "mage_alt2", "plate"] {
                let name = format!("{}/{}/{}", c, p, m);
                let hits: Vec<&(String, String)> = files.iter().filter(|e| e.0 == name).collect();
                assert_eq!(hits.len(), 1);
                assert_eq!(hits[0].1, format!("images/{}.png", name));
            }
        }
    }
}

#[test]
fn torso_chain_entry() {
    let files = full();
    assert!(files
        .iter()
        .any(|e| e.0 == "male/torso/chain" && e.1 == "images/male/torso/chain.png"));
}

#[test]
fn weapons_follow_fixed_order() {
    let weapons = [
        "buckler", "greatbow", "iron_buckler", "longbow", "longsword", "rod", "shield", "shortbow",
        "shortsword", "staff", "wand", "zweihander",
    ];
    let files = full();
    for c in ["male", "female"] {
        let prefix = format!("{}/weapons/", c);
        let got: Vec<String> = files
            .iter()
            .filter(|e| e.0.starts_with(&prefix))
            .map(|e| e.0[prefix.len()..].to_string())
            .collect();
        assert_eq!(got, weapons.to_vec());
    }
}

#[test]
fn singletons_come_last() {
    let files = full();
    assert_eq!(files[0].0, "male/feet/chain");
    assert_eq!(files[83].0, "female/weapons/zweihander");
    let names: Vec<&str> = files[84..92].iter().map(|e| e.0.as_str()).collect();
    assert_eq!(
        names,
        vec![
            "heading_font",
            "body_font",
            "light_background",
            "dark_background",
            "loading_icon",
            "minotaur",
            "skeleton_mage",
            "skeleton",
        ]
    );
    assert_eq!(files[84], ("heading_font".to_string(), "fonts/MacedoniaOld.ttf".to_string()));
    assert_eq!(files[85], ("body_font".to_string(), "fonts/TimesSansSerif.ttf".to_string()));
    assert_eq!(files[91], ("skeleton".to_string(), "images/skeleton.png".to_string()));
}

#[test]
fn font_only_set_loads_heading_font() {
    let files = AssetSet::FontOnly.file_list();
    assert_eq!(files, vec![("heading_font".to_string(), "fonts/MacedoniaOld.ttf".to_string())]);
}

#[test]
fn full_set_is_the_catalog() {
    assert_eq!(AssetSet::Full.file_list(), full());
}
