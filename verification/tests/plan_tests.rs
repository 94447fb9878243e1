use rpmpack::assets::FileKind;
use rpmpack::errors::{PackError, RequiredField};
use rpmpack::manifest::{Asset, Compression, Manifest, Package, RpmOptions, Target};
use rpmpack::plan::{
    build_args, build_package_spec, check_build_status, crate_dir_of, output_file_name,
    resolve_compression, resolve_signing_key,
};
use rpmpack::manifest::select_members;
use rpmpack::triplet::Triplet;

fn bin_target(name: &str) -> Target {
    Target { name: name.to_string(), kind: vec!["bin".to_string()] }
}

fn member(name: &str) -> Package {
    Package {
        name: name.to_string(),
        version: "0.1.0".to_string(),
        license: Some("MIT".to_string()),
        description: Some("a tool".to_string()),
        authors: vec![],
        targets: vec![bin_target(name)],
        manifest_path: format!("/ws/{}/Cargo.toml", name),
        options: None,
        homepage: None,
        repository: None,
    }
}

#[test]
fn missing_license_fails_with_missing_field() {
    let mut p = member("alpha");
    p.license = None;
    let r = build_package_spec(
        &p,
        &Some("/ws".to_string()),
        &"x86_64".to_string(),
        None,
        &None,
        &None,
        &vec![],
    );
    assert_eq!(
        r.unwrap_err(),
        PackError::MissingField { member: "alpha".to_string(), field: RequiredField::License }
    );
}

#[test]
fn missing_description_fails_with_missing_field() {
    let mut p = member("alpha");
    p.description = None;
    let r = build_package_spec(
        &p,
        &Some("/ws".to_string()),
        &"x86_64".to_string(),
        None,
        &None,
        &None,
        &vec![],
    );
    assert_eq!(
        r.unwrap_err(),
        PackError::MissingField {
            member: "alpha".to_string(),
            field: RequiredField::Description
        }
    );
}

#[test]
fn full_spec_is_assembled() {
    let mut p = member("alpha");
    p.authors = vec!["Ada".to_string(), "Grace".to_string()];
    p.homepage = Some("https://example.org".to_string());
    p.repository = Some("https://example.org/repo.git".to_string());
    p.options = Some(RpmOptions {
        compression: Compression::Zstd,
        signing_key: Some("keys/pkg.asc".to_string()),
        dependencies: Some(vec!["openssl".to_string()]),
        conflicts: Some(vec!["alpha-legacy".to_string()]),
        assets: Some(vec![Asset {
            source: "conf/alpha.toml".to_string(),
            dest: "/etc/alpha/alpha.toml".to_string(),
            mode: "644".to_string(),
        }]),
        preinstall: Some("echo pre".to_string()),
        postinstall: Some("echo post".to_string()),
        preuninstall: None,
        postuninstall: None,
    });
    let s = build_package_spec(
        &p,
        &None,
        &"x86_64".to_string(),
        None,
        &None,
        &None,
        &vec![FileKind::Regular],
    )
    .unwrap();
    assert_eq!(s.name, "alpha");
    assert_eq!(s.version, "0.1.0");
    assert_eq!(s.license, "MIT");
    assert_eq!(s.description, "a tool");
    assert_eq!(s.arch, "x86_64");
    assert_eq!(s.compression, Compression::Zstd);
    assert_eq!(s.vendor.as_deref(), Some("Ada, Grace"));
    assert_eq!(s.url.as_deref(), Some("https://example.org"));
    assert_eq!(s.vcs.as_deref(), Some("git:https://example.org/repo.git"));
    assert_eq!(s.preinstall.as_deref(), Some("echo pre"));
    assert_eq!(s.postinstall.as_deref(), Some("echo post"));
    assert_eq!(s.preuninstall, None);
    assert_eq!(s.postuninstall, None);
    assert_eq!(s.dependencies, vec!["openssl".to_string()]);
    assert_eq!(s.conflicts, vec!["alpha-legacy".to_string()]);
    // workspace root is absent, so the member dir is the manifest's parent
    assert_eq!(s.signing_key_path.as_deref(), Some("/ws/alpha/keys/pkg.asc"));
    assert_eq!(s.rpm_dir, "/ws/alpha/target//rpm");
    assert_eq!(s.output_path, "/ws/alpha/target//rpm/alpha-0.1.0.x86_64.rpm");
    assert_eq!(s.files.len(), 2);
    assert_eq!(s.files[0].source, "/ws/alpha/target//release/alpha");
    assert_eq!(s.files[0].dest, "/usr/bin/alpha");
    assert_eq!(s.files[0].mode, 0o100755);
    assert_eq!(s.files[1].source, "/ws/alpha/conf/alpha.toml");
    assert_eq!(s.files[1].dest, "/etc/alpha/alpha.toml");
    assert_eq!(s.files[1].mode, 0o100644);
}

#[test]
fn explicit_target_shapes_the_paths() {
    let p = member("alpha");
    let s = build_package_spec(
        &p,
        &Some("/ws".to_string()),
        &"aarch64".to_string(),
        None,
        &Some("aarch64-unknown-linux-gnu".to_string()),
        &None,
        &vec![],
    )
    .unwrap();
    assert_eq!(s.files[0].source, "/ws/target/aarch64-unknown-linux-gnu/release/alpha");
    assert_eq!(s.output_path, "/ws/target/aarch64-unknown-linux-gnu/rpm/alpha-0.1.0.aarch64.rpm");
}

#[test]
fn bad_asset_kind_fails_the_member() {
    let mut p = member("alpha");
    p.options = Some(RpmOptions {
        compression: Compression::Gzip,
        signing_key: None,
        dependencies: None,
        conflicts: None,
        assets: Some(vec![Asset {
            source: "dev/fifo".to_string(),
            dest: "/etc/fifo".to_string(),
            mode: "644".to_string(),
        }]),
        preinstall: None,
        postinstall: None,
        preuninstall: None,
        postuninstall: None,
    });
    let r = build_package_spec(
        &p,
        &Some("/ws".to_string()),
        &"x86_64".to_string(),
        None,
        &None,
        &None,
        &vec![FileKind::Other],
    );
    assert_eq!(r.unwrap_err(), PackError::InvalidFileType);
}

#[test]
fn bad_asset_mode_fails_the_member() {
    let mut p = member("alpha");
    p.options = Some(RpmOptions {
        compression: Compression::Gzip,
        signing_key: None,
        dependencies: None,
        conflicts: None,
        assets: Some(vec![Asset {
            source: "conf/x".to_string(),
            dest: "/etc/x".to_string(),
            mode: "9z".to_string(),
        }]),
        preinstall: None,
        postinstall: None,
        preuninstall: None,
        postuninstall: None,
    });
    let r = build_package_spec(
        &p,
        &Some("/ws".to_string()),
        &"x86_64".to_string(),
        None,
        &None,
        &None,
        &vec![FileKind::Regular],
    );
    assert_eq!(r.unwrap_err(), PackError::ManifestError);
}

#[test]
fn compression_precedence_cli_then_member_then_gzip() {
    assert_eq!(
        resolve_compression(Some(Compression::Xz), Some(Compression::Zstd)),
        Compression::Xz
    );
    assert_eq!(resolve_compression(None, Some(Compression::Zstd)), Compression::Zstd);
    assert_eq!(resolve_compression(None, None), Compression::Gzip);
}

#[test]
fn signing_key_precedence_cli_then_member() {
    assert_eq!(
        resolve_signing_key(&Some("/cli/key.asc".to_string()), &Some("k.asc".to_string()), "/ws"),
        Some("/cli/key.asc".to_string())
    );
    assert_eq!(
        resolve_signing_key(&None, &Some("k.asc".to_string()), "/ws"),
        Some("/ws/k.asc".to_string())
    );
    assert_eq!(resolve_signing_key(&None, &None, "/ws"), None);
}

#[test]
fn crate_dir_prefers_workspace_root() {
    assert_eq!(
        crate_dir_of(&Some("/root/ws".to_string()), "/elsewhere/Cargo.toml"),
        Ok("/root/ws".to_string())
    );
    assert_eq!(crate_dir_of(&None, "/a/b/Cargo.toml"), Ok("/a/b".to_string()));
    assert_eq!(crate_dir_of(&None, "Cargo.toml"), Err(PackError::ManifestError));
}

#[test]
fn build_arguments_are_assembled_in_order() {
    let args = build_args(
        &Some("x86_64-unknown-linux-gnu".to_string()),
        &Some("alpha".to_string()),
        &vec!["--features".to_string(), "tls".to_string()],
    );
    assert_eq!(
        args,
        vec![
            "build".to_string(),
            "--release".to_string(),
            "--target".to_string(),
            "x86_64-unknown-linux-gnu".to_string(),
            "-p".to_string(),
            "alpha".to_string(),
            "--features".to_string(),
            "tls".to_string(),
        ]
    );
    assert_eq!(build_args(&None, &None, &vec![]), vec!["build".to_string(), "--release".to_string()]);
}

#[test]
fn nonzero_build_status_is_fatal() {
    assert!(check_build_status(true).is_ok());
    assert_eq!(check_build_status(false), Err(PackError::BuildFailure));
}

#[test]
fn rerun_yields_byte_identical_names() {
    let first = {
        let t = Triplet::parse("powerpc64le-unknown-linux-gnu").unwrap();
        let arch = t.rpm_arch().unwrap();
        output_file_name("alpha", "0.1.0", &arch)
    };
    let second = {
        let t = Triplet::parse("powerpc64le-unknown-linux-gnu").unwrap();
        let arch = t.rpm_arch().unwrap();
        output_file_name("alpha", "0.1.0", &arch)
    };
    assert_eq!(first, second);
    assert_eq!(first, "alpha-0.1.0.ppc64le.rpm");
}

#[test]
fn one_artifact_per_filtered_member() {
    let a = member("alpha");
    let b = member("beta");
    let m = Manifest { packages: vec![a, b], workspace_root: Some("/ws".to_string()) };
    let picked = select_members(&m.packages, &Some("beta".to_string()));
    assert_eq!(picked, vec![1]);
    let s = build_package_spec(
        &m.packages[picked[0]],
        &m.workspace_root,
        &"x86_64".to_string(),
        None,
        &None,
        &None,
        &vec![],
    )
    .unwrap();
    assert_eq!(s.output_path, "/ws/target//rpm/beta-0.1.0.x86_64.rpm");
}
