use alicia_physics::status::{InfoResult, StatusInfo, from_arguments};

fn args(list: &[&str]) -> Vec<String> {
    list.iter().map(|s| s.to_string()).collect()
}

#[test]
fn no_flags_pick_nothing() {
    let a = args(&["alicia"]);
    let (safe, path, picked) = from_arguments(&a);
    assert!(safe);
    assert_eq!(path, ".");
    assert!(!picked);
}

#[test]
fn no_safe_flag_clears_the_sandbox() {
    let a = args(&["alicia", "--no-safe"]);
    let (safe, path, picked) = from_arguments(&a);
    assert!(!safe);
    assert_eq!(path, ".");
    assert!(picked);
}

#[test]
fn path_flag_takes_the_next_argument() {
    let a = args(&["alicia", "--path", "demo", "--no-safe"]);
    let (safe, path, picked) = from_arguments(&a);
    assert!(!safe);
    assert_eq!(path, "demo");
    assert!(picked);
}

#[test]
fn path_flag_consumes_its_argument() {
    // the path value is not re-read as a flag
    let a = args(&["alicia", "--path", "--no-safe"]);
    let (safe, path, picked) = from_arguments(&a);
    assert!(safe);
    assert_eq!(path, "--no-safe");
    assert!(picked);
}

#[test]
fn trailing_path_flag_still_counts_as_a_pick() {
    let a = args(&["alicia", "--path"]);
    let (safe, path, picked) = from_arguments(&a);
    assert!(safe);
    assert_eq!(path, ".");
    assert!(picked);
}

#[test]
fn arguments_override_every_other_source() {
    let a = args(&["alicia", "--path", "elsewhere"]);
    let manifest = StatusInfo { safe: false, path: "from-file".to_string() };
    let r = StatusInfo::resolve(true, true, true, Some(Some(manifest)), &a).unwrap();
    assert!(r.safe);
    assert_eq!(r.path, "elsewhere");
}

#[test]
fn manifest_file_overrides_the_disk_probes() {
    let a = args(&["alicia"]);
    let manifest = StatusInfo { safe: false, path: "from-file".to_string() };
    let r = StatusInfo::resolve(true, true, true, Some(Some(manifest)), &a).unwrap();
    assert!(!r.safe);
    assert_eq!(r.path, "from-file");
}

#[test]
fn an_unreadable_manifest_refuses_the_launch() {
    let a = args(&["alicia", "--path", "elsewhere"]);
    let r = StatusInfo::resolve(true, true, true, Some(None), &a);
    match r {
        Err(InfoResult::Failure(m)) => {
            assert_eq!(m, "StatusInfo::new(): Error reading file.");
        }
        other => panic!("expected a failure, got {:?}", other),
    }
}

#[test]
fn disk_probes_rank_embed_then_directory_then_file() {
    let a = args(&["alicia"]);
    let r = StatusInfo::resolve(true, true, true, None, &a).unwrap();
    assert!(r.safe);
    assert_eq!(r.path, ".");
    let r = StatusInfo::resolve(true, true, false, None, &a).unwrap();
    assert_eq!(r.path, "main");
    let r = StatusInfo::resolve(true, false, false, None, &a).unwrap();
    assert_eq!(r.path, ".");
}

#[test]
fn nothing_found_is_missing() {
    let a = args(&["alicia"]);
    match StatusInfo::resolve(false, false, false, None, &a) {
        Err(InfoResult::Missing) => {}
        other => panic!("expected missing, got {:?}", other),
    }
}

#[test]
fn default_manifest_is_empty() {
    let d = StatusInfo::default();
    assert!(!d.safe);
    assert_eq!(d.path, "");
}
