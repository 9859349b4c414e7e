use cargo_trust::{DelayedWarning, LibKind, ManifestMetadata, SourcePath, Target, TargetKind, Warnings};
use std::collections::hash_map::DefaultHasher;
use std::collections::BTreeMap;
use std::hash::{Hash, Hasher};
use std::path::PathBuf;

fn source(path: &str) -> SourcePath {
    SourcePath::new(PathBuf::from(path)).unwrap()
}

fn hash_of<T: Hash>(value: &T) -> u64 {
    let mut hasher = DefaultHasher::new();
    value.hash(&mut hasher);
    hasher.finish()
}

fn lib(kinds: Vec<LibKind>) -> Target {
    Target::lib_target("my-lib", kinds, source("/pkg/src/lib.rs"))
}

#[test]
fn lib_kind_from_its_name() {
    assert_eq!(LibKind::from_str("lib"), LibKind::Lib);
    assert_eq!(LibKind::from_str("rlib"), LibKind::Rlib);
    assert_eq!(LibKind::from_str("dylib"), LibKind::Dylib);
    assert_eq!(LibKind::from_str("proc-macro"), LibKind::ProcMacro);
    assert_eq!(LibKind::from_str("cdylib"), LibKind::Other(String::from("cdylib")));
    assert_eq!(LibKind::from_str(""), LibKind::Other(String::new()));
    assert_eq!(LibKind::from_str("Lib"), LibKind::Other(String::from("Lib")));
}

#[test]
fn lib_kind_gives_its_name_back() {
    for name in ["lib", "rlib", "dylib", "proc-macro", "cdylib", "staticlib", ""] {
        assert_eq!(LibKind::from_str(name).crate_type(), name);
    }
    assert_eq!(LibKind::Other(String::from("lib")).crate_type(), "lib");
}

#[test]
fn known_lib_kinds_are_linkable() {
    assert!(LibKind::Lib.linkable());
    assert!(LibKind::Rlib.linkable());
    assert!(LibKind::Dylib.linkable());
    assert!(LibKind::ProcMacro.linkable());
    assert!(!LibKind::Other(String::from("cdylib")).linkable());
    assert!(!LibKind::Other(String::from("lib")).linkable());
}

#[test]
fn lib_kinds_compare_by_kind_and_name() {
    assert!(LibKind::Lib.same_as(&LibKind::Lib));
    assert!(!LibKind::Lib.same_as(&LibKind::Rlib));
    assert!(!LibKind::Lib.same_as(&LibKind::Other(String::from("lib"))));
    assert!(LibKind::Other(String::from("a")).same_as(&LibKind::Other(String::from("a"))));
    assert!(!LibKind::Other(String::from("a")).same_as(&LibKind::Other(String::from("b"))));
}

#[test]
fn relative_path_is_no_source_path() {
    assert!(SourcePath::new(PathBuf::from("src/lib.rs")).is_none());
    assert!(SourcePath::new(PathBuf::new()).is_none());
    let absolute = SourcePath::new(PathBuf::from("/pkg/src/lib.rs")).unwrap();
    assert_eq!(absolute.path(), &PathBuf::from("/pkg/src/lib.rs"));
}

#[test]
fn lib_target_defaults() {
    let target = lib(vec![LibKind::Lib]);
    assert_eq!(target.name(), "my-lib");
    assert_eq!(target.kind(), &TargetKind::Lib(vec![LibKind::Lib]));
    assert_eq!(target.src_path(), &PathBuf::from("/pkg/src/lib.rs"));
    assert!(target.required_features().is_none());
    assert!(target.tested());
    assert!(target.benched());
    assert!(target.documented());
    assert!(target.doctested());
    assert!(target.harness());
    assert!(!target.for_host());
    assert!(target.is_lib());
    assert!(!target.is_bin());
}

#[test]
fn bin_target_defaults() {
    let features = Some(vec![String::from("cli")]);
    let target = Target::bin_target("tool", source("/pkg/src/main.rs"), features.clone());
    assert_eq!(target.kind(), &TargetKind::Bin);
    assert_eq!(target.name(), "tool");
    assert_eq!(target.required_features(), features.as_ref());
    assert!(target.tested());
    assert!(target.benched());
    assert!(target.documented());
    assert!(!target.doctested());
    assert!(target.harness());
    assert!(!target.for_host());
    assert!(target.is_bin());
    assert!(target.allows_underscores());
}

#[test]
fn custom_build_target_defaults() {
    let target = Target::custom_build_target("build-script-build", source("/pkg/build.rs"));
    assert_eq!(target.kind(), &TargetKind::CustomBuild);
    assert!(!target.tested());
    assert!(!target.benched());
    assert!(!target.documented());
    assert!(!target.doctested());
    assert!(target.harness());
    assert!(target.for_host());
    assert!(target.is_custom_build());
    assert!(target.allows_underscores());
    assert!(target.required_features().is_none());
}

#[test]
fn example_target_is_binary_without_kinds() {
    let target = Target::example_target("demo", Vec::new(), source("/pkg/examples/demo.rs"), None);
    assert_eq!(target.kind(), &TargetKind::ExampleBin);
    assert!(target.is_example());
    assert!(target.is_bin_example());
    assert!(!target.tested());
    assert!(!target.benched());
    assert!(!target.documented());
    assert!(target.allows_underscores());
    assert_eq!(target.rustc_crate_types(), vec!["bin"]);
}

#[test]
fn example_target_is_library_with_kinds() {
    let kinds = vec![LibKind::Dylib, LibKind::Other(String::from("staticlib"))];
    let target = Target::example_target(
        "demo",
        kinds.clone(),
        source("/pkg/examples/demo.rs"),
        Some(Vec::new()),
    );
    assert_eq!(target.kind(), &TargetKind::ExampleLib(kinds));
    assert!(target.is_example());
    assert!(!target.is_bin_example());
    assert!(!target.is_lib());
    assert!(!target.is_dylib());
    assert!(!target.linkable());
    assert!(target.can_lto());
    assert_eq!(target.required_features(), Some(&Vec::new()));
    assert_eq!(target.rustc_crate_types(), vec!["dylib", "staticlib"]);
}

#[test]
fn test_target_defaults() {
    let target = Target::test_target("it", source("/pkg/tests/it.rs"), None);
    assert_eq!(target.kind(), &TargetKind::Test);
    assert!(target.is_test());
    assert!(target.tested());
    assert!(!target.benched());
    assert!(!target.documented());
    assert!(!target.allows_underscores());
    assert_eq!(target.rustc_crate_types(), vec!["bin"]);
}

#[test]
fn bench_target_defaults() {
    let target = Target::bench_target("speed", source("/pkg/benches/speed.rs"), None);
    assert_eq!(target.kind(), &TargetKind::Bench);
    assert!(target.is_bench());
    assert!(!target.tested());
    assert!(target.benched());
    assert!(!target.documented());
    assert!(!target.allows_underscores());
}

#[test]
fn crate_name_has_no_hyphen() {
    assert_eq!(lib(vec![LibKind::Lib]).crate_name(), "my_lib");
    let target = Target::bin_target("a-b--c_d-", source("/p/main.rs"), None);
    assert_eq!(target.crate_name(), "a_b__c_d_");
    assert_eq!(target.name(), "a-b--c_d-");
    let target = Target::bin_target("", source("/p/main.rs"), None);
    assert_eq!(target.crate_name(), "");
    let target = Target::bin_target("naïve-é", source("/p/main.rs"), None);
    assert_eq!(target.crate_name(), "naïve_é");
}

#[test]
fn doctests_need_a_rust_library() {
    assert!(lib(vec![LibKind::Lib]).doctested());
    assert!(lib(vec![LibKind::Rlib]).doctested());
    assert!(lib(vec![LibKind::ProcMacro]).doctested());
    assert!(lib(vec![LibKind::Dylib, LibKind::Rlib]).doctested());
    assert!(!lib(vec![LibKind::Dylib]).doctested());
    assert!(!lib(vec![LibKind::Other(String::from("cdylib"))]).doctested());
    assert!(!lib(Vec::new()).doctested());
    let mut target = lib(vec![LibKind::Lib]);
    target.set_doctest(false);
    assert!(!target.doctested());
}

#[test]
fn dylib_and_cdylib() {
    assert!(lib(vec![LibKind::Dylib]).is_dylib());
    assert!(lib(vec![LibKind::Lib, LibKind::Dylib]).is_dylib());
    assert!(!lib(vec![LibKind::Lib]).is_dylib());
    assert!(!lib(vec![LibKind::Other(String::from("dylib"))]).is_dylib());
    assert!(lib(vec![LibKind::Other(String::from("cdylib"))]).is_cdylib());
    assert!(lib(vec![LibKind::Lib, LibKind::from_str("cdylib")]).is_cdylib());
    assert!(!lib(vec![LibKind::Dylib]).is_cdylib());
    assert!(!lib(Vec::new()).is_cdylib());
    let bin = Target::bin_target("tool", source("/p/main.rs"), None);
    assert!(!bin.is_dylib());
    assert!(!bin.is_cdylib());
}

#[test]
fn linkable_needs_a_known_kind() {
    assert!(lib(vec![LibKind::Lib]).linkable());
    assert!(lib(vec![LibKind::Other(String::from("cdylib")), LibKind::ProcMacro]).linkable());
    assert!(!lib(vec![LibKind::Other(String::from("cdylib"))]).linkable());
    assert!(!lib(Vec::new()).linkable());
    assert!(!Target::bin_target("tool", source("/p/main.rs"), None).linkable());
}

#[test]
fn lto_excludes_rust_and_dynamic_libraries() {
    assert!(!lib(vec![LibKind::Lib]).can_lto());
    assert!(!lib(vec![LibKind::Rlib]).can_lto());
    assert!(!lib(vec![LibKind::Dylib]).can_lto());
    assert!(!lib(vec![LibKind::ProcMacro, LibKind::Rlib]).can_lto());
    assert!(lib(vec![LibKind::ProcMacro]).can_lto());
    assert!(lib(vec![LibKind::Other(String::from("cdylib"))]).can_lto());
    assert!(lib(Vec::new()).can_lto());
    assert!(Target::bin_target("tool", source("/p/main.rs"), None).can_lto());
    assert!(Target::test_target("it", source("/p/it.rs"), None).can_lto());
}

#[test]
fn crate_types_follow_the_kinds() {
    let target = lib(vec![LibKind::Rlib, LibKind::from_str("cdylib"), LibKind::ProcMacro]);
    assert_eq!(target.rustc_crate_types(), vec!["rlib", "cdylib", "proc-macro"]);
    assert!(lib(Vec::new()).rustc_crate_types().is_empty());
    let target = Target::custom_build_target("build", source("/p/build.rs"));
    assert_eq!(target.rustc_crate_types(), vec!["bin"]);
    let target = Target::bench_target("b", source("/p/b.rs"), None);
    assert_eq!(target.rustc_crate_types(), vec!["bin"]);
}

#[test]
fn setters_change_one_flag_and_chain() {
    let mut target = Target::bin_target("tool", source("/p/main.rs"), None);
    target.set_tested(false).set_benched(false).set_harness(false);
    assert!(!target.tested());
    assert!(!target.benched());
    assert!(!target.harness());
    assert!(target.documented());
    assert!(!target.for_host());
    target.set_for_host(true).set_doc(false).set_tested(true);
    assert!(target.for_host());
    assert!(!target.documented());
    assert!(target.tested());
    assert!(!target.benched());
    assert_eq!(target.name(), "tool");
    assert_eq!(target.kind(), &TargetKind::Bin);
}

#[test]
fn description_names_kind_and_target() {
    assert_eq!(lib(vec![LibKind::Lib]).description(), "Target(lib)");
    let path = "/p/x.rs";
    assert_eq!(Target::bin_target("tool", source(path), None).description(), "Target(bin: tool)");
    assert_eq!(Target::test_target("it", source(path), None).description(), "Target(test: it)");
    assert_eq!(Target::bench_target("b", source(path), None).description(), "Target(bench: b)");
    assert_eq!(
        Target::example_target("demo", Vec::new(), source(path), None).description(),
        "Target(example: demo)"
    );
    assert_eq!(
        Target::example_target("demo", vec![LibKind::Lib], source(path), None).description(),
        "Target(example: demo)"
    );
    assert_eq!(Target::custom_build_target("build", source(path)).description(), "Target(script)");
    assert_eq!(Target::bin_target("", source(path), None).description(), "Target(bin: )");
}

#[test]
fn source_path_takes_no_part_in_the_hash() {
    let here = Target::bin_target("tool", source("/here/main.rs"), None);
    let there = Target::bin_target("tool", source("/there/main.rs"), None);
    assert_eq!(hash_of(&here), hash_of(&there));
    assert_ne!(here, there);
    assert_eq!(here, here.clone());
    let other = Target::bin_target("other", source("/here/main.rs"), None);
    assert_ne!(hash_of(&here), hash_of(&other));
    assert_eq!(hash_of(&source("/a")), hash_of(&source("/b")));
}

#[test]
fn warnings_keep_their_order() {
    let mut warnings = Warnings::new();
    assert!(warnings.warnings().is_empty());
    warnings.add_warning(String::from("unused key"));
    warnings.add_critical_warning(String::from("will break"));
    warnings.add_warning(String::from("another"));
    let listed: Vec<(&str, bool)> = warnings
        .warnings()
        .iter()
        .map(|warning: &DelayedWarning| (warning.message.as_str(), warning.is_critical))
        .collect();
    assert_eq!(listed, vec![("unused key", false), ("will break", true), ("another", false)]);
}

#[test]
fn metadata_compares_by_its_fields() {
    let mut badges = BTreeMap::new();
    badges.insert(String::from("ci"), BTreeMap::new());
    let metadata = ManifestMetadata {
        authors: vec![String::from("someone")],
        keywords: Vec::new(),
        categories: Vec::new(),
        license: Some(String::from("MIT")),
        license_file: None,
        description: None,
        readme: None,
        homepage: None,
        repository: None,
        documentation: None,
        badges,
        links: None,
    };
    let mut other = metadata.clone();
    assert_eq!(metadata, other);
    other.links = Some(String::from("z"));
    assert_ne!(metadata, other);
}

#[test]
fn kind_names_for_writing_out() {
    let kinds = vec![LibKind::Rlib, LibKind::from_str("cdylib")];
    assert_eq!(TargetKind::Lib(kinds.clone()).names(), vec!["rlib", "cdylib"]);
    assert!(TargetKind::Lib(Vec::new()).names().is_empty());
    assert_eq!(TargetKind::Bin.names(), vec!["bin"]);
    assert_eq!(TargetKind::ExampleBin.names(), vec!["example"]);
    assert_eq!(TargetKind::ExampleLib(kinds).names(), vec!["example"]);
    assert_eq!(TargetKind::Test.names(), vec!["test"]);
    assert_eq!(TargetKind::CustomBuild.names(), vec!["custom-build"]);
    assert_eq!(TargetKind::Bench.names(), vec!["bench"]);
}
