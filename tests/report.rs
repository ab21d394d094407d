use ram_usage::pack::GraphicsPack;
use ram_usage::report::{memory_report, ReportError};

fn entry(name: &str, bytes: Option<usize>) -> (String, Option<usize>) {
    (name.to_string(), bytes)
}

#[test]
fn reports_images_and_skips_fonts() {
    let sizes = vec![
        entry("a", Some(2_000_000)),
        entry("b", Some(500_000)),
        entry("heading_font", Some(123)),
    ];
    let lines = memory_report(&sizes).unwrap();
    assert_eq!(lines, vec!["a: 2.000MB", "b: 0.500MB", "Total: 2.500MB"]);
}

#[test]
fn empty_table_reports_only_total() {
    let lines = memory_report(&Vec::new()).unwrap();
    assert_eq!(lines, vec!["Total: 0.000MB"]);
}

#[test]
fn missing_buffer_is_an_error() {
    let sizes = vec![entry("a", Some(1_000)), entry("b", None), entry("c", None)];
    assert_eq!(memory_report(&sizes), Err(ReportError::MissingBuffer("b".to_string())));
}

#[test]
fn font_without_buffer_is_skipped() {
    let sizes = vec![entry("body_font", None), entry("heading_font", None)];
    assert_eq!(memory_report(&sizes).unwrap(), vec!["Total: 0.000MB"]);
}

#[test]
fn sizes_round_to_three_places() {
    let sizes = vec![
        entry("half", Some(500)),
        entry("under", Some(499)),
        entry("big", Some(1_234_567_890)),
    ];
    let lines = memory_report(&sizes).unwrap();
    assert_eq!(
        lines,
        vec!["half: 0.001MB", "under: 0.000MB", "big: 1234.568MB", "Total: 1234.569MB"]
    );
}

#[test]
fn lines_keep_table_order() {
    let sizes = vec![entry("z", Some(3_000_000)), entry("m", Some(10_000)), entry("a", Some(0))];
    let lines = memory_report(&sizes).unwrap();
    assert_eq!(lines, vec!["z: 3.000MB", "m: 0.010MB", "a: 0.000MB", "Total: 3.010MB"]);
}

#[test]
fn report_of_catalog_table_lists_weapons_in_fixed_order() {
    let mut pack: GraphicsPack<usize> = GraphicsPack::new();
    for (k, (name, _path)) in GraphicsPack::<()>::asset_file_list().into_iter().enumerate() {
        pack.insert(name, k);
    }
    let mut sizes = Vec::new();
    for i in 0..pack.len() {
        let (name, bytes) = pack.entry(i);
        sizes.push((name.clone(), Some(*bytes * 1_000)));
    }
    let lines = memory_report(&sizes).unwrap();
    assert_eq!(lines.len(), 91);
    let weapons = [
        "buckler", "greatbow", "iron_buckler", "longbow", "longsword", "rod", "shield", "shortbow",
        "shortsword", "staff", "wand", "zweihander",
    ];
    for c in ["male", "female"] {
        let prefix = format!("{}/weapons/", c);
        let got: Vec<String> = lines
            .iter()
            .filter(|l| l.starts_with(&prefix))
            .map(|l| l[prefix.len()..].split(':').next().unwrap().to_string())
            .collect();
        assert_eq!(got, weapons.to_vec());
    }
    assert_eq!(lines[30], "male/weapons/buckler: 0.030MB");
    assert_eq!(lines[90], "Total: 4.017MB");
}
