use gpui_port_tst::sidecar::{
    begin_sidecar_lookup, build_profile, repo_root_for_sidecar, root_or_current_dir,
    search_outcome, sidecar_exit_outcome, sidecar_filename, LookupStep, SidecarProbe,
    SidecarReply, SIDECAR_BIN_ENV,
};

/// Drives a lookup to its end, answering each probe from `exists`, and
/// records the probed paths.
fn run(env: Option<&str>, manifest: &str, windows: bool, exists: &[&str]) -> (Result<String, String>, Vec<String>) {
    let mut probed = Vec::new();
    let mut step = begin_sidecar_lookup(env.map(|s| s.to_string()), manifest, windows);
    loop {
        match step {
            LookupStep::Check(probe) => {
                let p = probe.path().to_string();
                let found = exists.contains(&p.as_str());
                probed.push(p);
                step = probe.advance(found);
            }
            LookupStep::Found(p) => return (Ok(p), probed),
            LookupStep::Failed(m) => return (Err(m), probed),
        }
    }
}

#[test]
fn sidecar_filename_per_platform() {
    assert_eq!(sidecar_filename(true), "the-search-thing-sidecar.exe");
    assert_eq!(sidecar_filename(false), "the-search-thing-sidecar");
    assert_eq!(SIDECAR_BIN_ENV, "THE_SEARCH_THING_SIDECAR");
    assert_eq!(build_profile(0), "debug");
    assert_eq!(build_profile(1), "release");
}

#[test]
fn repo_root_is_three_levels_up() {
    assert_eq!(
        repo_root_for_sidecar("/repo/target/debug/the-search-thing-sidecar"),
        "/repo"
    );
    assert_eq!(repo_root_for_sidecar("a/b/c/d"), "a");
    assert_eq!(repo_root_for_sidecar("b/c/d"), "");
    assert_eq!(repo_root_for_sidecar("c/d"), ".");
    assert_eq!(repo_root_for_sidecar("d"), ".");
    assert_eq!(repo_root_for_sidecar(""), ".");
    assert_eq!(repo_root_for_sidecar("/"), ".");
    assert_eq!(root_or_current_dir(Some("/x")), "/x");
    assert_eq!(root_or_current_dir(None), ".");
}

#[test]
fn env_override_found() {
    let (res, probed) = run(Some("/opt/bin/sidecar"), "/repo/gpui", false, &["/opt/bin/sidecar"]);
    assert_eq!(res, Ok("/opt/bin/sidecar".to_string()));
    assert_eq!(probed, vec!["/opt/bin/sidecar".to_string()]);
}

#[test]
fn env_override_missing_does_not_fall_back() {
    let (res, probed) = run(
        Some("/nowhere"),
        "/repo/gpui",
        false,
        &["/repo/target/debug/the-search-thing-sidecar"],
    );
    assert_eq!(
        res,
        Err("THE_SEARCH_THING_SIDECAR is set but path does not exist: /nowhere".to_string())
    );
    assert_eq!(probed.len(), 1);
}

#[test]
fn debug_build_preferred() {
    let (res, probed) = run(
        None,
        "/repo/gpui",
        false,
        &[
            "/repo/target/debug/the-search-thing-sidecar",
            "/repo/target/release/the-search-thing-sidecar",
        ],
    );
    assert_eq!(res, Ok("/repo/target/debug/the-search-thing-sidecar".to_string()));
    assert_eq!(probed.len(), 1);
}

#[test]
fn release_build_after_debug() {
    let (res, probed) = run(
        None,
        "/repo/gpui",
        true,
        &["/repo/target/release/the-search-thing-sidecar.exe"],
    );
    assert_eq!(res, Ok("/repo/target/release/the-search-thing-sidecar.exe".to_string()));
    assert_eq!(
        probed,
        vec![
            "/repo/target/debug/the-search-thing-sidecar.exe".to_string(),
            "/repo/target/release/the-search-thing-sidecar.exe".to_string(),
        ]
    );
}

#[test]
fn not_found_message() {
    let (res, probed) = run(None, "/repo/gpui", false, &[]);
    assert_eq!(
        res,
        Err("sidecar binary not found under /repotarget/{debug,release}/the-search-thing-sidecar. Build it from the repo root (`cargo build -p the_search_thing --bin the-search-thing-sidecar`) or set THE_SEARCH_THING_SIDECAR.".to_string())
    );
    assert_eq!(probed.len(), 2);
}

#[test]
fn manifest_without_parent() {
    for manifest in ["", "/"] {
        let (res, probed) = run(None, manifest, false, &[]);
        assert_eq!(
            res,
            Err("gpui crate manifest has no parent (expected repo root)".to_string())
        );
        assert!(probed.is_empty());
    }
}

#[test]
fn probe_paths() {
    match begin_sidecar_lookup(None, "/r/gpui", false) {
        LookupStep::Check(p) => {
            assert_eq!(p.path(), "/r/target/debug/the-search-thing-sidecar");
            assert!(matches!(p, SidecarProbe::BuildOutput { profile: 0, .. }));
        }
        other => panic!("unexpected {other:?}"),
    }
    match begin_sidecar_lookup(Some("x".to_string()), "/r/gpui", false) {
        LookupStep::Check(p) => assert_eq!(p, SidecarProbe::EnvOverride { path: "x".to_string() }),
        other => panic!("unexpected {other:?}"),
    }
}

#[test]
fn exit_outcome() {
    assert_eq!(sidecar_exit_outcome(true, "exit status: 0"), Ok(()));
    assert_eq!(
        sidecar_exit_outcome(false, "exit status: 3"),
        Err("sidecar exited with exit status: 3; stderr logged above".to_string())
    );
}

#[test]
fn reply_outcome() {
    assert_eq!(
        search_outcome(SidecarReply::SearchQueryResult(vec![1u32, 2])),
        Ok(vec![1, 2])
    );
    assert_eq!(
        search_outcome::<u32>(SidecarReply::Error { message: "helix down".to_string() }),
        Err("helix down".to_string())
    );
    assert_eq!(
        search_outcome::<u32>(SidecarReply::Other { description: "Pong".to_string() }),
        Err("unexpected native IPC response: Pong".to_string())
    );
}
