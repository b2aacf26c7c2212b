use binstalk_resolve::bins::{collect_bin_files, resolve_bin_dir, verify_sources, BinFile};
use binstalk_resolve::engine::{ProbeOutcome, RaceEngine};
use binstalk_resolve::errors::BinstallError;
use binstalk_resolve::manifest::{
    get_package, resolve_manifest_path, take_binaries, take_meta, Manifest, Package, Product,
};
use binstalk_resolve::matrix::{backend_kinds, build_probe_matrix, BackendKind};
use binstalk_resolve::meta::{PkgMeta, PkgOverride};
use binstalk_resolve::version::{
    check_curr_version, parse_version, select_version_req, version_equal, Version,
};

fn over(bin_dir: Option<&str>) -> PkgOverride {
    PkgOverride {
        pkg_url: None,
        pkg_fmt: None,
        bin_dir: bin_dir.map(|s| s.to_string()),
        pub_key: None,
    }
}

fn ver(major: u64, minor: u64, patch: u64) -> Version {
    Version {
        major,
        minor,
        patch,
        pre: String::new(),
        build: String::new(),
    }
}

#[test]
fn select_version_req_prefers_the_single_given_form() {
    assert_eq!(
        select_version_req(&Some("1.0".to_string()), &None).unwrap(),
        "1.0"
    );
    assert_eq!(
        select_version_req(&None, &Some("^2".to_string())).unwrap(),
        "^2"
    );
}

#[test]
fn select_version_req_defaults_to_wildcard() {
    assert_eq!(select_version_req(&None, &None).unwrap(), "*");
}

#[test]
fn select_version_req_rejects_both_forms() {
    assert_eq!(
        select_version_req(&Some("1.0".to_string()), &Some("2.0".to_string())).unwrap_err(),
        BinstallError::SuperfluousVersionOption
    );
}

#[test]
fn parse_version_reads_all_components() {
    let v = parse_version("1.2.3-beta.1+exp.sha.5114f85").unwrap();
    assert_eq!(v.major, 1);
    assert_eq!(v.minor, 2);
    assert_eq!(v.patch, 3);
    assert_eq!(v.pre, "beta.1");
    assert_eq!(v.build, "exp.sha.5114f85");
    assert!(parse_version("not-a-version").is_none());
}

#[test]
fn version_equality_is_component_wise() {
    let plain = parse_version("1.2.0").unwrap();
    assert!(version_equal(&plain, &ver(1, 2, 0)));
    assert!(!version_equal(&plain, &ver(1, 2, 1)));
    let pre = parse_version("1.2.0-rc.1").unwrap();
    assert!(!version_equal(&plain, &pre));
}

#[test]
fn check_curr_version_without_installed_version_skips_parsing() {
    assert_eq!(
        check_curr_version(&"garbage".to_string(), &None).unwrap(),
        false
    );
}

#[test]
fn check_curr_version_detects_equality() {
    assert_eq!(
        check_curr_version(&"1.2.0".to_string(), &Some(ver(1, 2, 0))).unwrap(),
        true
    );
    assert_eq!(
        check_curr_version(&"1.2.1".to_string(), &Some(ver(1, 2, 0))).unwrap(),
        false
    );
    assert_eq!(
        check_curr_version(&"garbage".to_string(), &Some(ver(1, 2, 0))).unwrap_err(),
        BinstallError::VersionParse {
            v: "garbage".to_string()
        }
    );
}

#[test]
fn get_package_requires_the_package_section() {
    let manifest = Manifest {
        package: None,
        bin: vec![],
    };
    assert_eq!(
        get_package(manifest, &"foo".to_string()).unwrap_err(),
        BinstallError::CargoTomlMissingPackage {
            name: "foo".to_string()
        }
    );
}

#[test]
fn take_binaries_keeps_named_entries_in_order() {
    let bins = vec![
        Product { name: None },
        Product {
            name: Some("a".to_string()),
        },
        Product { name: None },
        Product {
            name: Some("b".to_string()),
        },
    ];
    let kept = take_binaries(&bins).unwrap();
    assert_eq!(kept.len(), 2);
    assert_eq!(kept[0].name.as_deref(), Some("a"));
    assert_eq!(kept[1].name.as_deref(), Some("b"));
}

#[test]
fn take_binaries_rejects_an_unnamed_only_list() {
    let bins = vec![Product { name: None }];
    assert_eq!(
        take_binaries(&bins).unwrap_err(),
        BinstallError::UnspecifiedBinaries
    );
    assert_eq!(
        take_binaries(&vec![]).unwrap_err(),
        BinstallError::UnspecifiedBinaries
    );
}

#[test]
fn resolve_manifest_path_appends_for_directories() {
    assert_eq!(
        resolve_manifest_path("/src/foo".to_string(), true, false).unwrap(),
        "/src/foo/Cargo.toml"
    );
    assert_eq!(
        resolve_manifest_path("/src/foo/Cargo.toml".to_string(), false, true).unwrap(),
        "/src/foo/Cargo.toml"
    );
    assert_eq!(
        resolve_manifest_path("/nope".to_string(), false, false).unwrap_err(),
        BinstallError::CargoManifestPath
    );
}

#[test]
fn merge_precedence_command_line_beats_target_beats_base() {
    let base = PkgMeta {
        pkg_url: Some("https://base.example/{ name }".to_string()),
        pkg_fmt: None,
        bin_dir: Some("base-dir".to_string()),
        pub_key: None,
        overrides: vec![("t1".to_string(), over(Some("target-dir")))],
    };
    // Command line wins over the per-target override.
    let eff = base.merged_for_target(&"t1".to_string(), &over(Some("cli-dir")));
    assert_eq!(eff.bin_dir.as_deref(), Some("cli-dir"));
    assert_eq!(
        eff.pkg_url.as_deref(),
        Some("https://base.example/{ name }")
    );
    // The per-target override wins over the base.
    let eff = base.merged_for_target(&"t1".to_string(), &over(None));
    assert_eq!(eff.bin_dir.as_deref(), Some("target-dir"));
    // Another target's override never leaks.
    let eff = base.merged_for_target(&"t2".to_string(), &over(None));
    assert_eq!(eff.bin_dir.as_deref(), Some("base-dir"));
    // The effective metadata carries no override table of its own.
    assert!(eff.overrides.is_empty());
}

#[test]
fn take_meta_defaults_when_the_manifest_has_no_metadata() {
    let package = Package {
        name: "foo".to_string(),
        version: "1.0.0".to_string(),
        repository: None,
        binstall: None,
    };
    let meta = take_meta(&package);
    assert_eq!(meta.bin_dir, None);
    assert!(meta.overrides.is_empty());
}

#[test]
fn probe_matrix_is_target_major_backend_minor() {
    let package = Package {
        name: "foo".to_string(),
        version: "1.0.0".to_string(),
        repository: Some("https://example.com/foo".to_string()),
        binstall: None,
    };
    let base = take_meta(&package);
    let targets = vec!["t1".to_string(), "t2".to_string()];
    let pairs = build_probe_matrix(&package, &base, &targets, &over(None));
    assert_eq!(pairs.len(), 4);
    let expect = [
        ("t1", BackendKind::GhCrateMeta),
        ("t1", BackendKind::QuickInstall),
        ("t2", BackendKind::GhCrateMeta),
        ("t2", BackendKind::QuickInstall),
    ];
    for (pair, (target, kind)) in pairs.iter().zip(expect.iter()) {
        assert_eq!(pair.0.target, *target);
        assert_eq!(pair.1, *kind);
        assert_eq!(pair.0.name, "foo");
        assert_eq!(pair.0.version, "1.0.0");
        assert_eq!(pair.0.repo.as_deref(), Some("https://example.com/foo"));
    }
    assert_eq!(
        backend_kinds(),
        vec![BackendKind::GhCrateMeta, BackendKind::QuickInstall]
    );
}

#[test]
fn race_engine_steps_through_pairs_in_order() {
    let package = Package {
        name: "foo".to_string(),
        version: "1.0.0".to_string(),
        repository: None,
        binstall: None,
    };
    let base = take_meta(&package);
    let targets = vec!["t1".to_string(), "t2".to_string()];
    let pairs = build_probe_matrix(&package, &base, &targets, &over(None));
    let mut engine = RaceEngine::new(pairs);
    assert_eq!(engine.cursor, 0);
    assert!(!engine.on_probe(ProbeOutcome::NotFound));
    assert_eq!(engine.cursor, 1);
    assert!(!engine.on_probe(ProbeOutcome::ProbeError));
    assert_eq!(engine.cursor, 2);
    // A hit holds the cursor for the pipeline; a failed pipeline releases it.
    assert!(engine.on_probe(ProbeOutcome::Exists));
    assert_eq!(engine.cursor, 2);
    engine.on_pipeline(false);
    assert_eq!(engine.cursor, 3);
    assert!(!engine.done());
    // A successful pipeline commits to the pair under the cursor.
    assert!(engine.on_probe(ProbeOutcome::Exists));
    engine.on_pipeline(true);
    assert_eq!(engine.committed, Some(3));
    assert!(engine.done());
}

#[test]
fn race_engine_exhaustion_means_no_winner() {
    let package = Package {
        name: "foo".to_string(),
        version: "1.0.0".to_string(),
        repository: None,
        binstall: None,
    };
    let base = take_meta(&package);
    let targets = vec!["t1".to_string()];
    let pairs = build_probe_matrix(&package, &base, &targets, &over(None));
    let mut engine = RaceEngine::new(pairs);
    assert!(!engine.on_probe(ProbeOutcome::NotFound));
    assert!(!engine.on_probe(ProbeOutcome::NotFound));
    assert!(engine.done());
    assert_eq!(engine.committed, None);
}

#[test]
fn duplicate_source_paths_are_rejected() {
    let binaries = vec![
        Product {
            name: Some("a".to_string()),
        },
        Product {
            name: Some("b".to_string()),
        },
        Product {
            name: Some("c".to_string()),
        },
    ];
    let sources = vec![
        "/unpack/bin/a".to_string(),
        "/unpack/bin/shared".to_string(),
        "/unpack/bin/shared".to_string(),
    ];
    let dests = vec![
        "/bin/a".to_string(),
        "/bin/b".to_string(),
        "/bin/c".to_string(),
    ];
    assert_eq!(
        collect_bin_files(&binaries, &sources, &dests).unwrap_err(),
        BinstallError::DuplicateSourceFilePath {
            path: "/unpack/bin/shared".to_string()
        }
    );
}

#[test]
fn distinct_source_paths_are_collected_in_order() {
    let binaries = vec![
        Product {
            name: Some("a".to_string()),
        },
        Product {
            name: Some("b".to_string()),
        },
    ];
    let sources = vec!["/unpack/bin/a".to_string(), "/unpack/bin/b".to_string()];
    let dests = vec!["/bin/a".to_string(), "/bin/b".to_string()];
    let files = collect_bin_files(&binaries, &sources, &dests).unwrap();
    assert_eq!(files.len(), 2);
    assert_eq!(files[0].base_name, "a");
    assert_eq!(files[0].source, "/unpack/bin/a");
    assert_eq!(files[0].dest, "/bin/a");
    assert_eq!(files[1].base_name, "b");
}

#[test]
fn verify_sources_reports_the_first_missing_file() {
    let files = vec![
        BinFile {
            base_name: "a".to_string(),
            source: "/unpack/a".to_string(),
            dest: "/bin/a".to_string(),
        },
        BinFile {
            base_name: "b".to_string(),
            source: "/unpack/b".to_string(),
            dest: "/bin/b".to_string(),
        },
    ];
    assert!(verify_sources(&files, &vec![true, true]).is_ok());
    assert_eq!(
        verify_sources(&files, &vec![true, false]).unwrap_err(),
        BinstallError::BinFileNotFound {
            path: "/unpack/b".to_string()
        }
    );
}

#[test]
fn bin_dir_template_prefers_the_explicit_one() {
    assert_eq!(
        resolve_bin_dir(
            &Some("{ bin }{ binary-ext }".to_string()),
            "inferred".to_string()
        ),
        "{ bin }{ binary-ext }"
    );
    assert_eq!(resolve_bin_dir(&None, "inferred".to_string()), "inferred");
}

#[test]
fn crate_context_carries_the_package_name() {
    let err = BinstallError::UnspecifiedBinaries.crate_context("foo".to_string());
    assert_eq!(
        err,
        BinstallError::CrateContext {
            name: "foo".to_string(),
            err: Box::new(BinstallError::UnspecifiedBinaries),
        }
    );
}
