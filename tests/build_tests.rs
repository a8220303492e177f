use fs_extra::copy_items;
use fs_extra::dir::{create_all, CopyOptions};
use fs_extra::file::write_all;
use omnicopy_to_output::{copy_to_output, BuildEnv, CopyRequest, KindRule};
use std::path::{Path, PathBuf};
use tempfile::TempDir;

const TEST_TARGET: &str = "x86_64-unknown-linux-gnu";

struct Environment {
    _handle: TempDir,
    /// The project root, where the lock file sits.
    root: PathBuf,
    /// The crate whose build script copies its resources.
    krate: PathBuf,
}

fn write_resources(krate: &Path) {
    let res = krate.join("res");
    for dir in [
        res.join("empty"),
        res.join("nested").join("emptier"),
        res.join("nested").join("doublenested").join("emptiest"),
    ] {
        create_all(&dir, false).unwrap();
    }
    for (file, content) in [
        (res.join("nested").join("doublenested").join("seconddoublenested.txt"), "sdn"),
        (res.join("nested").join("doublenested").join("test3.txt"), "t3"),
        (res.join("nested").join("secondnested.txt"), "sn"),
        (res.join("nested").join("test2.txt"), "abc"),
        (res.join("second.txt"), "second"),
        (res.join("test.dat"), "dat"),
        (res.join("test.txt"), "xyz"),
    ] {
        write_all(&file, content).unwrap();
    }
}

fn fake_crate_in_tempdir() -> Environment {
    let dir = TempDir::new().unwrap();
    let krate = dir.path().join("fake_crate");
    write_resources(&krate);
    Environment { root: krate.clone(), krate, _handle: dir }
}

fn fake_workspace_in_tempdir() -> Environment {
    let dir = TempDir::new().unwrap();
    let root = dir.path().join("fake_workspace");
    let krate = root.join("fake_crate");
    write_resources(&krate);
    Environment { root, krate, _handle: dir }
}

fn build_env(environment: &Environment, target: Option<&str>) -> BuildEnv {
    let root = environment.root.to_str().unwrap().to_string();
    let out_dir = match target {
        Some(t) => format!("{}/target/{}/debug/build/fake_crate-1f2e3d/out", root, t),
        None => format!("{}/target/debug/build/fake_crate-1f2e3d/out", root),
    };
    BuildEnv {
        profile: Some("debug".to_string()),
        out_dir: Some(out_dir),
        target_dir: None,
        target_triple: Some(TEST_TARGET.to_string()),
        project_root: Some(root),
        separator: "/".to_string(),
        rule: KindRule::Substring,
    }
}

fn carry_out(request: &CopyRequest) {
    let mut options = CopyOptions::new();
    options.overwrite = request.overwrite;
    options.copy_inside = request.copy_inside;
    create_all(&request.destination, false).unwrap();
    copy_items(&[&request.source], &request.destination, &options).unwrap();
}

/// Runs what the fake crate's build script does.
fn build(environment: &Environment, target: Option<&str>) {
    let env = build_env(environment, target);
    let res = environment.krate.join("res");
    for item in ["nested", "empty", "test.dat", "test.txt", "second.txt"] {
        let request = copy_to_output(res.join(item).to_str().unwrap(), &env).unwrap();
        carry_out(&request);
    }
}

fn validate(environment: &Environment, target: Option<&str>) {
    let mut base_path = environment.root.join("target");
    if let Some(t) = target {
        base_path = base_path.join(t);
    }
    let base_path = base_path.join("debug");

    assert!(base_path.join("empty").exists());
    assert!(base_path.join("nested").exists());
    assert!(base_path.join("nested").join("doublenested").exists());
    assert!(base_path.join("nested").join("doublenested").join("emptiest").exists());
    assert!(base_path
        .join("nested")
        .join("doublenested")
        .join("seconddoublenested.txt")
        .exists());
    assert!(base_path.join("nested").join("doublenested").join("test3.txt").exists());
    assert!(base_path.join("nested").join("emptier").exists());
    assert!(base_path.join("nested").join("secondnested.txt").exists());
    assert!(base_path.join("nested").join("test2.txt").exists());
    assert!(base_path.join("second.txt").exists());
    assert!(base_path.join("test.dat").exists());
    assert!(base_path.join("test.txt").exists());
}

#[test]
fn build_crate() {
    let environment = fake_crate_in_tempdir();
    build(&environment, None);
    validate(&environment, None);
}

#[test]
fn build_crate_target_specified() {
    let environment = fake_crate_in_tempdir();
    build(&environment, Some(TEST_TARGET));
    validate(&environment, Some(TEST_TARGET));
}

#[test]
fn build_workspace() {
    let environment = fake_workspace_in_tempdir();
    build(&environment, None);
    validate(&environment, None);
}

#[test]
fn build_workspace_target_specified() {
    let environment = fake_workspace_in_tempdir();
    build(&environment, Some(TEST_TARGET));
    validate(&environment, Some(TEST_TARGET));
}
