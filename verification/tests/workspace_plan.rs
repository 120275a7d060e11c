use agent::submission::ContractCode;
use agent::workspace::{workspace_plan, WorkspacePlan};

fn sub(code: &str, move_toml: &str) -> ContractCode {
    ContractCode { code: code.to_string(), move_toml: move_toml.to_string() }
}

fn count_root_manifests(p: &WorkspacePlan) -> usize {
    p.files.iter().filter(|f| f.path.len() == 1 && f.path[0] == "Move.toml").count()
}

fn count_source_files(p: &WorkspacePlan) -> usize {
    p.files.iter().filter(|f| f.path.len() == 2 && f.path[0] == "sources").count()
}

#[test]
fn plan_places_manifest_at_root() {
    let p = workspace_plan(&sub("module 0x1::M {}", "[package]\nname=\"M\""));
    assert_eq!(p.root_dir, "new_folder");
    assert_eq!(p.files[0].path, vec!["Move.toml".to_string()]);
    assert_eq!(p.files[0].contents, "[package]\nname=\"M\"");
}

#[test]
fn plan_places_one_source_under_sources() {
    let p = workspace_plan(&sub("module 0x1::M {}", "[package]\nname=\"M\""));
    assert_eq!(p.dirs, vec![vec!["sources".to_string()]]);
    assert_eq!(
        p.files[1].path,
        vec!["sources".to_string(), "contract.move".to_string()]
    );
    assert_eq!(p.files[1].contents, "module 0x1::M {}");
}

#[test]
fn plan_is_well_formed_for_ordinary_input() {
    let p = workspace_plan(&sub("module 0x1::M {}", "[package]"));
    assert_eq!(p.files.len(), 2);
    assert_eq!(count_root_manifests(&p), 1);
    assert_eq!(count_source_files(&p), 1);
}

#[test]
fn plan_is_well_formed_for_empty_input() {
    // validation bypassed on purpose: the layout must not depend on content
    let p = workspace_plan(&sub("", ""));
    assert_eq!(p.files.len(), 2);
    assert_eq!(count_root_manifests(&p), 1);
    assert_eq!(count_source_files(&p), 1);
    assert_eq!(p.files[0].contents, "");
    assert_eq!(p.files[1].contents, "");
}

#[test]
fn plan_is_well_formed_for_adversarial_names_in_content() {
    // content that mentions path-like text changes nothing about the layout
    let p = workspace_plan(&sub("../../etc/passwd", "sources/contract.move"));
    assert_eq!(count_root_manifests(&p), 1);
    assert_eq!(count_source_files(&p), 1);
    assert_eq!(p.files[0].contents, "sources/contract.move");
    assert_eq!(p.files[1].contents, "../../etc/passwd");
}
