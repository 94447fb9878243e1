use rpmpack::manifest::{is_eligible, select_members, Package, Target};

fn pkg(name: &str, kinds: &[&str]) -> Package {
    Package {
        name: name.to_string(),
        version: "1.0.0".to_string(),
        license: Some("MIT".to_string()),
        description: Some("d".to_string()),
        authors: vec![],
        targets: kinds
            .iter()
            .map(|k| Target { name: name.to_string(), kind: vec![k.to_string()] })
            .collect(),
        manifest_path: format!("/ws/{}/Cargo.toml", name),
        options: None,
        homepage: None,
        repository: None,
    }
}

#[test]
fn only_bin_targets_make_a_member_eligible() {
    assert!(is_eligible(&pkg("a", &["bin"])));
    assert!(!is_eligible(&pkg("b", &["lib"])));
    assert!(!is_eligible(&pkg("c", &[])));
    assert!(is_eligible(&pkg("d", &["lib", "bin"])));
}

#[test]
fn selection_without_filter_takes_all_eligible() {
    let packages = vec![pkg("a", &["bin"]), pkg("b", &["lib"]), pkg("c", &["bin"])];
    assert_eq!(select_members(&packages, &None), vec![0, 2]);
}

#[test]
fn selection_with_filter_takes_the_matching_member() {
    let packages = vec![pkg("a", &["bin"]), pkg("b", &["bin"])];
    assert_eq!(select_members(&packages, &Some("b".to_string())), vec![1]);
}

#[test]
fn filter_matching_an_ineligible_member_selects_nothing() {
    let packages = vec![pkg("a", &["bin"]), pkg("b", &["lib"])];
    assert_eq!(select_members(&packages, &Some("b".to_string())), Vec::<usize>::new());
}

#[test]
fn filter_matching_nothing_selects_nothing() {
    let packages = vec![pkg("a", &["bin"])];
    assert_eq!(select_members(&packages, &Some("zz".to_string())), Vec::<usize>::new());
}
