use ram_usage::pack::GraphicsPack;
use ram_usage::phase::Phase;

#[test]
fn insert_then_get() {
    let mut pack: GraphicsPack<u32> = GraphicsPack::new();
    pack.insert("a".to_string(), 1);
    pack.insert("b".to_string(), 2);
    assert_eq!(pack.len(), 2);
    assert_eq!(pack.get("a"), Some(&1));
    assert_eq!(pack.get("b"), Some(&2));
    assert_eq!(pack.get("c"), None);
}

#[test]
fn insert_same_name_replaces_handle_in_place() {
    let mut pack: GraphicsPack<u32> = GraphicsPack::new();
    pack.insert("a".to_string(), 1);
    pack.insert("b".to_string(), 2);
    pack.insert("a".to_string(), 3);
    assert_eq!(pack.len(), 2);
    assert_eq!(pack.entry(0), (&"a".to_string(), &3));
    assert_eq!(pack.entry(1), (&"b".to_string(), &2));
}

#[test]
fn title_font_is_the_heading_font() {
    let mut pack: GraphicsPack<u32> = GraphicsPack::new();
    assert!(!pack.contains("heading_font"));
    pack.insert("body_font".to_string(), 7);
    assert!(!pack.contains("heading_font"));
    assert!(pack.contains("body_font"));
    pack.insert("heading_font".to_string(), 9);
    assert!(pack.contains("heading_font"));
    assert_eq!(pack.title_font(), &9);
}

#[test]
fn phases_advance_once_loading_completes() {
    let start = Phase::initial();
    assert_eq!(start, Phase::SplashScreen);
    assert_eq!(start.after_progress(false), Phase::SplashScreen);
    let menu = start.after_progress(true);
    assert_eq!(menu, Phase::MainMenu);
    assert_eq!(menu.after_progress(false), Phase::MainMenu);
    assert_eq!(menu.after_progress(true), Phase::MainMenu);
}
