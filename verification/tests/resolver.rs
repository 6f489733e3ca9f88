use prest::target_dir::{
    find_target_dir, sw_target_dir, DirLevel, OverrideDir, TargetDirResolution,
};

fn plain() -> DirLevel {
    DirLevel {
        compiler_cache_marker: false,
        build_cache_marker: false,
        named_target: false,
        project_manifest: false,
    }
}

#[test]
fn target_directory_under_a_manifest_is_found() {
    // <project>/target/debug/build/out ascends to the "target" directory
    // whose parent holds the project manifest.
    let chain = vec![
        plain(), // out
        plain(), // build
        plain(), // debug
        DirLevel { named_target: true, ..plain() },
        DirLevel { project_manifest: true, ..plain() },
    ];
    match find_target_dir(&None, &chain) {
        Some(TargetDirResolution::Ancestor(i)) => assert_eq!(i, 3),
        other => panic!("expected the named target ancestor, got {other:?}",),
    }
}

#[test]
fn no_marker_anywhere_resolves_to_none() {
    let chain = vec![plain(), plain(), plain(), plain()];
    assert!(find_target_dir(&None, &chain).is_none());
    assert!(find_target_dir(&None, &Vec::new()).is_none());
}

#[test]
fn compiler_cache_marker_wins_at_the_first_level_it_appears() {
    let chain = vec![
        plain(),
        DirLevel { compiler_cache_marker: true, ..plain() },
        DirLevel { build_cache_marker: true, ..plain() },
    ];
    match find_target_dir(&None, &chain) {
        Some(TargetDirResolution::Ancestor(i)) => assert_eq!(i, 1),
        other => panic!("expected the marked ancestor, got {other:?}"),
    }
}

#[test]
fn build_cache_marker_is_enough_on_its_own() {
    let chain = vec![DirLevel { build_cache_marker: true, ..plain() }];
    match find_target_dir(&None, &chain) {
        Some(TargetDirResolution::Ancestor(i)) => assert_eq!(i, 0),
        other => panic!("expected the marked ancestor, got {other:?}"),
    }
}

#[test]
fn a_target_directory_without_a_manifest_parent_does_not_count() {
    let chain = vec![DirLevel { named_target: true, ..plain() }, plain()];
    assert!(find_target_dir(&None, &chain).is_none());
    // The root itself has no parent at all.
    let rootward = vec![DirLevel { named_target: true, ..plain() }];
    assert!(find_target_dir(&None, &rootward).is_none());
}

#[test]
fn absolute_override_is_used_directly() {
    let over = Some(OverrideDir { path: "/abs/target".to_string(), absolute: true });
    let chain = vec![DirLevel { compiler_cache_marker: true, ..plain() }];
    match find_target_dir(&over, &chain) {
        Some(TargetDirResolution::Configured(p)) => assert_eq!(p, "/abs/target"),
        other => panic!("expected the configured override, got {other:?}"),
    }
}

#[test]
fn relative_override_makes_resolution_fail() {
    let over = Some(OverrideDir { path: "rel/target".to_string(), absolute: false });
    let chain = vec![DirLevel { compiler_cache_marker: true, ..plain() }];
    assert!(find_target_dir(&over, &chain).is_none());
}

#[test]
fn nested_target_dir_differs_from_the_resolved_root() {
    assert_eq!(sw_target_dir(Some("/w/target".to_string())), "/w/target/service-worker");
    assert_eq!(sw_target_dir(None), "target/service-worker");
}
