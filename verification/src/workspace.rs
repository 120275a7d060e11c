//! The on-disk layout that the external `aptos` tool expects of a Move
//! package: a `Move.toml` manifest at the project root and the contract
//! source in a `sources/` subdirectory.
//!
//! This module plans that layout as plain data. The caller (outside this
//! crate) creates a fresh uniquely-named temporary directory, applies the
//! plan under it, runs the tool, and removes the whole tree afterwards on
//! every path; the plan itself is proved to contain exactly one manifest at
//! the root and exactly one source file under `sources/`, whatever the
//! submitted texts are.

use vstd::prelude::*;
use crate::submission::ContractCode;

verus! {

/// One file to create: its path, as components relative to the project
/// root, and the text to write into it.
pub struct PlannedFile {
    pub path: Vec<String>,
    pub contents: String,
}

/// A project tree to materialize under a fresh directory: the name of the
/// project root folder, the directories to create under it, and the files
/// to write, each path relative to that root.
pub struct WorkspacePlan {
    pub root_dir: String,
    pub dirs: Vec<Vec<String>>,
    pub files: Vec<PlannedFile>,
}

/// A manifest entry: the file named `Move.toml` directly at the project
/// root.
pub open spec fn is_manifest_file(f: PlannedFile) -> bool {
    f.path@.len() == 1 && f.path@[0]@ == "Move.toml"@
}

/// A source entry: a file directly under the `sources/` subdirectory.
pub open spec fn is_source_file(f: PlannedFile) -> bool {
    f.path@.len() == 2 && f.path@[0]@ == "sources"@
}

/// There is exactly one manifest file at the project root.
pub open spec fn has_unique_manifest(files: Seq<PlannedFile>) -> bool {
    &&& exists|i: int| 0 <= i < files.len() && is_manifest_file(#[trigger] files[i])
    &&& forall|i: int, j: int|
        0 <= i < files.len() && 0 <= j < files.len() && is_manifest_file(#[trigger] files[i])
            && is_manifest_file(#[trigger] files[j]) ==> i == j
}

/// There is exactly one source file under `sources/`.
pub open spec fn has_unique_source(files: Seq<PlannedFile>) -> bool {
    &&& exists|i: int| 0 <= i < files.len() && is_source_file(#[trigger] files[i])
    &&& forall|i: int, j: int|
        0 <= i < files.len() && 0 <= j < files.len() && is_source_file(#[trigger] files[i])
            && is_source_file(#[trigger] files[j]) ==> i == j
}

/// A well-formed plan holds exactly one root manifest and exactly one
/// source file, and nothing else.
pub open spec fn plan_well_formed(p: WorkspacePlan) -> bool {
    &&& has_unique_manifest(p.files@)
    &&& has_unique_source(p.files@)
    &&& forall|i: int|
        0 <= i < p.files@.len() ==> is_manifest_file(#[trigger] p.files@[i]) || is_source_file(
            p.files@[i],
        )
}

/// The plan lays out exactly the given submission: the manifest text in
/// `Move.toml` at the root, the contract text in `sources/contract.move`,
/// and the one directory `sources` to create first.
pub open spec fn is_plan_for(p: WorkspacePlan, code: Seq<char>, move_toml: Seq<char>) -> bool {
    &&& p.root_dir@ == "new_folder"@
    &&& p.dirs@.len() == 1
    &&& p.dirs@[0]@.len() == 1
    &&& p.dirs@[0]@[0]@ == "sources"@
    &&& p.files@.len() == 2
    &&& p.files@[0].path@.len() == 1
    &&& p.files@[0].path@[0]@ == "Move.toml"@
    &&& p.files@[0].contents@ == move_toml
    &&& p.files@[1].path@.len() == 2
    &&& p.files@[1].path@[0]@ == "sources"@
    &&& p.files@[1].path@[1]@ == "contract.move"@
    &&& p.files@[1].contents@ == code
}

/// Builds the workspace plan for a submission: `Move.toml` carrying the
/// manifest text at the root, and `sources/contract.move` carrying the
/// contract text. Whatever the two texts hold, the plan is well formed.
pub fn workspace_plan(sub: &ContractCode) -> (p: WorkspacePlan)
    ensures
        is_plan_for(p, sub.code@, sub.move_toml@),
        plan_well_formed(p),
{
    let root_dir = String::from_str("new_folder");

    let mut sources_dir: Vec<String> = Vec::new();
    sources_dir.push(String::from_str("sources"));
    let mut dirs: Vec<Vec<String>> = Vec::new();
    dirs.push(sources_dir);

    let mut manifest_path: Vec<String> = Vec::new();
    manifest_path.push(String::from_str("Move.toml"));
    let manifest = PlannedFile { path: manifest_path, contents: sub.move_toml.clone() };

    let mut source_path: Vec<String> = Vec::new();
    source_path.push(String::from_str("sources"));
    source_path.push(String::from_str("contract.move"));
    let source = PlannedFile { path: source_path, contents: sub.code.clone() };

    let mut files: Vec<PlannedFile> = Vec::new();
    files.push(manifest);
    files.push(source);

    let p = WorkspacePlan { root_dir, dirs, files };
    proof {
        lemma_plan_layout(p, sub.code@, sub.move_toml@);
    }
    p
}

/// The law of the materializer: every plan the builder can return carries
/// exactly one manifest at the project root and exactly one source file
/// under `sources/`, for every pair of submitted texts, blank ones
/// included.
pub proof fn lemma_plan_layout(p: WorkspacePlan, code: Seq<char>, move_toml: Seq<char>)
    requires
        is_plan_for(p, code, move_toml),
    ensures
        plan_well_formed(p),
{
    assert(is_manifest_file(p.files@[0]));
    assert(is_source_file(p.files@[1]));
    assert(forall|i: int|
        0 <= i < p.files@.len() && is_manifest_file(#[trigger] p.files@[i]) ==> i == 0);
    assert(forall|i: int|
        0 <= i < p.files@.len() && is_source_file(#[trigger] p.files@[i]) ==> i == 1);
}

} // verus!
