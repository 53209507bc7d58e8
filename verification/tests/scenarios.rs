use boxrun::engine::{
    plan_invocation, start, step, Action, Config, EnterOutcome, Event, State, DEVICE_MODE,
};
use boxrun::errors::RunError;
use boxrun::registry::Layer;
use std::io::Write;

fn gzip(data: &[u8]) -> Vec<u8> {
    let mut enc = flate2::write::GzEncoder::new(Vec::new(), flate2::Compression::default());
    enc.write_all(data).unwrap();
    enc.finish().unwrap()
}

fn cfg_skip(command: &str) -> Config {
    plan_invocation("skip", command, vec![]).unwrap()
}

fn expect_fail(r: (State, Action), want: RunError) {
    match r.0 {
        State::Failed { error } => assert_eq!(error, want),
        other => panic!("expected failure state, got {:?}", other),
    }
    match r.1 {
        Action::Fail { error } => assert_eq!(error, want),
        other => panic!("expected fail action, got {:?}", other),
    }
}

#[test]
fn skip_run_reaches_exit_zero_without_network() {
    let cfg = cfg_skip("/bin/true");
    assert!(cfg.pull.is_none());

    let (s, a) = start();
    assert!(matches!(a, Action::BuildRoot));

    let (s, a) = step(&cfg, s, Event::RootBuilt { ok: true });
    match &a {
        Action::StageCommand { rel_path } => assert_eq!(rel_path, "bin/true"),
        other => panic!("expected staging, got {:?}", other),
    }

    let (s, a) = step(&cfg, s, Event::CommandStaged { ok: true });
    match &a {
        Action::CreateDevice { mode } => assert_eq!(*mode, 0o555),
        other => panic!("expected device creation, got {:?}", other),
    }

    // no image: the machine moves straight to the root switch, no fetch
    let (s, a) = step(&cfg, s, Event::DeviceCreated { ok: true });
    assert!(matches!(a, Action::EnterRoot));

    let (s, a) = step(&cfg, s, Event::RootEntered { outcome: EnterOutcome::Entered });
    assert!(matches!(a, Action::IsolateNamespace));

    let (s, a) = step(&cfg, s, Event::NamespaceIsolated { ok: true });
    match &a {
        Action::Spawn { command, args } => {
            assert_eq!(command, "/bin/true");
            assert!(args.is_empty());
        }
        other => panic!("expected spawn, got {:?}", other),
    }

    let (s, a) = step(&cfg, s, Event::Spawned { ok: true });
    assert!(matches!(a, Action::Wait));

    let (s, a) = step(&cfg, s, Event::ChildExited { code: Some(0) });
    assert!(matches!(s, State::Exited { code: 0 }));
    assert!(matches!(a, Action::Report { code: 0 }));
}

#[test]
fn pull_run_fetches_and_extracts_in_manifest_order() {
    let cfg = plan_invocation(
        "alpine:latest",
        "/bin/echo",
        vec!["hello".to_string()],
    )
    .unwrap();
    let img = cfg.pull.as_ref().unwrap();
    assert_eq!(img.name, "alpine");
    assert_eq!(img.tag, "latest");

    let (s, _) = start();
    let (s, _) = step(&cfg, s, Event::RootBuilt { ok: true });
    let (s, _) = step(&cfg, s, Event::CommandStaged { ok: true });

    let (s, a) = step(&cfg, s, Event::DeviceCreated { ok: true });
    match &a {
        Action::FetchToken { url } => assert_eq!(
            url,
            "https://auth.docker.io/token?service=registry.docker.io&scope=repository:library/alpine:pull"
        ),
        other => panic!("expected token fetch, got {:?}", other),
    }

    let (s, a) = step(
        &cfg,
        s,
        Event::TokenResponse { token: Some("tok-123".to_string()) },
    );
    match &a {
        Action::FetchManifest { url, token, accept } => {
            assert_eq!(url, "https://registry.hub.docker.com/v2/library/alpine/manifests/latest");
            assert_eq!(token, "tok-123");
            assert_eq!(accept, "application/vnd.docker.distribution.manifest.v2+json");
        }
        other => panic!("expected manifest fetch, got {:?}", other),
    }

    let layers = vec![
        Layer {
            media_type: "application/vnd.docker.image.rootfs.diff.tar.gzip".to_string(),
            digest: "sha256:first".to_string(),
        },
        Layer {
            media_type: "application/vnd.docker.image.rootfs.diff.tar.gzip".to_string(),
            digest: "sha256:second".to_string(),
        },
    ];
    let (s, a) = step(&cfg, s, Event::ManifestResponse { layers: Some(layers) });
    match &a {
        Action::FetchBlob { url, token } => {
            assert_eq!(
                url,
                "https://registry.hub.docker.com/v2/library/alpine/blobs/sha256:first"
            );
            assert_eq!(token, "tok-123");
        }
        other => panic!("expected first blob fetch, got {:?}", other),
    }

    // the decompressed stream handed out is the gunzipped blob, not the blob
    let payload_one = b"tar stream of the first layer".to_vec();
    let blob_one = gzip(&payload_one);
    assert_ne!(blob_one, payload_one);
    let (s, a) = step(&cfg, s, Event::BlobResponse { data: Some(blob_one) });
    match &a {
        Action::ExtractLayer { data } => assert_eq!(data, &payload_one),
        other => panic!("expected extraction, got {:?}", other),
    }

    // only after the first layer is extracted is the second one fetched
    let (s, a) = step(&cfg, s, Event::LayerExtracted { ok: true });
    match &a {
        Action::FetchBlob { url, token } => {
            assert_eq!(
                url,
                "https://registry.hub.docker.com/v2/library/alpine/blobs/sha256:second"
            );
            assert_eq!(token, "tok-123");
        }
        other => panic!("expected second blob fetch, got {:?}", other),
    }

    let payload_two = b"tar stream of the second layer".to_vec();
    let (s, a) = step(&cfg, s, Event::BlobResponse { data: Some(gzip(&payload_two)) });
    match &a {
        Action::ExtractLayer { data } => assert_eq!(data, &payload_two),
        other => panic!("expected extraction, got {:?}", other),
    }

    let (s, a) = step(&cfg, s, Event::LayerExtracted { ok: true });
    assert!(matches!(a, Action::EnterRoot));

    let (s, _) = step(&cfg, s, Event::RootEntered { outcome: EnterOutcome::Entered });
    let (s, a) = step(&cfg, s, Event::NamespaceIsolated { ok: true });
    match &a {
        Action::Spawn { command, args } => {
            assert_eq!(command, "/bin/echo");
            assert_eq!(args, &vec!["hello".to_string()]);
        }
        other => panic!("expected spawn, got {:?}", other),
    }
    let (s, _) = step(&cfg, s, Event::Spawned { ok: true });
    let (s, a) = step(&cfg, s, Event::ChildExited { code: Some(0) });
    assert!(matches!(s, State::Exited { code: 0 }));
    assert!(matches!(a, Action::Report { code: 0 }));
}

#[test]
fn empty_manifest_pulls_nothing_and_enters_root() {
    let cfg = plan_invocation("alpine:latest", "/bin/true", vec![]).unwrap();
    let (s, _) = start();
    let (s, _) = step(&cfg, s, Event::RootBuilt { ok: true });
    let (s, _) = step(&cfg, s, Event::CommandStaged { ok: true });
    let (s, _) = step(&cfg, s, Event::DeviceCreated { ok: true });
    let (s, _) = step(&cfg, s, Event::TokenResponse { token: Some("t".to_string()) });
    let (_, a) = step(&cfg, s, Event::ManifestResponse { layers: Some(vec![]) });
    assert!(matches!(a, Action::EnterRoot));
}

#[test]
fn corrupt_gzip_aborts_the_pull() {
    let cfg = plan_invocation("alpine:latest", "/bin/true", vec![]).unwrap();
    let (s, _) = start();
    let (s, _) = step(&cfg, s, Event::RootBuilt { ok: true });
    let (s, _) = step(&cfg, s, Event::CommandStaged { ok: true });
    let (s, _) = step(&cfg, s, Event::DeviceCreated { ok: true });
    let (s, _) = step(&cfg, s, Event::TokenResponse { token: Some("t".to_string()) });
    let layers = vec![
        Layer { media_type: "m".to_string(), digest: "sha256:one".to_string() },
        Layer { media_type: "m".to_string(), digest: "sha256:two".to_string() },
    ];
    let (s, _) = step(&cfg, s, Event::ManifestResponse { layers: Some(layers) });
    let garbage = b"this is not a gzip stream".to_vec();
    let r = step(&cfg, s, Event::BlobResponse { data: Some(garbage) });
    // the whole pull aborts; the terminal state accepts no further event,
    // so the second layer is never fetched
    expect_fail(r, RunError::Decompress);
}

#[test]
fn truncated_gzip_aborts_the_pull() {
    let cfg = plan_invocation("alpine:latest", "/bin/true", vec![]).unwrap();
    let (s, _) = start();
    let (s, _) = step(&cfg, s, Event::RootBuilt { ok: true });
    let (s, _) = step(&cfg, s, Event::CommandStaged { ok: true });
    let (s, _) = step(&cfg, s, Event::DeviceCreated { ok: true });
    let (s, _) = step(&cfg, s, Event::TokenResponse { token: Some("t".to_string()) });
    let layers = vec![Layer { media_type: "m".to_string(), digest: "sha256:one".to_string() }];
    let (s, _) = step(&cfg, s, Event::ManifestResponse { layers: Some(layers) });
    let mut blob = gzip(b"payload");
    blob.truncate(blob.len() / 2);
    let r = step(&cfg, s, Event::BlobResponse { data: Some(blob) });
    expect_fail(r, RunError::Decompress);
}

#[test]
fn missing_command_fails_before_isolation() {
    // the host has no such file: staging reports failure, the invocation
    // ends with a filesystem error before any isolation step
    let cfg = cfg_skip("/no/such/file");
    let (s, _) = start();
    let (s, _) = step(&cfg, s, Event::RootBuilt { ok: true });
    let r = step(&cfg, s, Event::CommandStaged { ok: false });
    expect_fail(r, RunError::Io);
}

#[test]
fn unauthorized_token_endpoint_fails_with_auth_error() {
    // the registry answered the token request with an error status: no
    // manifest or layer request follows
    let cfg = plan_invocation("alpine:latest", "/bin/true", vec![]).unwrap();
    let (s, _) = start();
    let (s, _) = step(&cfg, s, Event::RootBuilt { ok: true });
    let (s, _) = step(&cfg, s, Event::CommandStaged { ok: true });
    let (s, _) = step(&cfg, s, Event::DeviceCreated { ok: true });
    let r = step(&cfg, s, Event::TokenResponse { token: None });
    expect_fail(r, RunError::Auth);
}

#[test]
fn bad_image_reference_is_rejected_before_anything_runs() {
    assert_eq!(
        plan_invocation("alpine", "/bin/true", vec![]).unwrap_err(),
        RunError::Usage
    );
    assert_eq!(
        plan_invocation("a:b:c", "/bin/true", vec![]).unwrap_err(),
        RunError::Usage
    );
}

#[test]
fn every_failure_event_maps_to_its_error() {
    let cfg = plan_invocation("alpine:latest", "/bin/true", vec![]).unwrap();
    let layers = vec![Layer { media_type: "m".to_string(), digest: "d".to_string() }];

    let (s, _) = start();
    let r = step(&cfg, s, Event::RootBuilt { ok: false });
    expect_fail(r, RunError::Io);

    let r = step(&cfg, State::CreatingDevice, Event::DeviceCreated { ok: false });
    expect_fail(r, RunError::Io);

    let r = step(&cfg, State::AwaitToken, Event::TokenResponse { token: None });
    expect_fail(r, RunError::Auth);

    let r = step(
        &cfg,
        State::AwaitManifest { token: "t".to_string() },
        Event::ManifestResponse { layers: None },
    );
    expect_fail(r, RunError::Manifest);

    let r = step(
        &cfg,
        State::AwaitBlob { token: "t".to_string(), layers: layers.clone(), next: 0 },
        Event::BlobResponse { data: None },
    );
    expect_fail(r, RunError::LayerFetch);

    let r = step(
        &cfg,
        State::AwaitExtract { token: "t".to_string(), layers, next: 0 },
        Event::LayerExtracted { ok: false },
    );
    expect_fail(r, RunError::Extract);

    let r = step(
        &cfg,
        State::EnteringRoot,
        Event::RootEntered { outcome: EnterOutcome::PermissionDenied },
    );
    expect_fail(r, RunError::Permission);

    let r = step(
        &cfg,
        State::EnteringRoot,
        Event::RootEntered { outcome: EnterOutcome::IoFailure },
    );
    expect_fail(r, RunError::Io);

    let r = step(&cfg, State::Spawning, Event::Spawned { ok: false });
    expect_fail(r, RunError::Spawn);
}

#[test]
fn failed_namespace_isolation_does_not_abort_the_run() {
    let cfg = cfg_skip("/bin/true");
    let (_, a) = step(&cfg, State::Isolating, Event::NamespaceIsolated { ok: false });
    assert!(matches!(a, Action::Spawn { .. }));
}

#[test]
fn signal_killed_child_reports_exit_code_one() {
    let cfg = cfg_skip("/bin/true");
    let (s, a) = step(&cfg, State::Running, Event::ChildExited { code: None });
    assert!(matches!(s, State::Exited { code: 1 }));
    assert!(matches!(a, Action::Report { code: 1 }));
}

#[test]
fn child_exit_code_is_propagated() {
    let cfg = cfg_skip("/bin/true");
    let (s, a) = step(&cfg, State::Running, Event::ChildExited { code: Some(7) });
    assert!(matches!(s, State::Exited { code: 7 }));
    assert!(matches!(a, Action::Report { code: 7 }));
}

#[test]
fn device_mode_grants_no_write_permission() {
    assert_eq!(DEVICE_MODE, 0o555);
    assert_eq!(DEVICE_MODE & 0o222, 0);
}

#[test]
fn error_step_names_are_exact() {
    assert_eq!(RunError::Usage.step_name(), "usage");
    assert_eq!(RunError::Auth.step_name(), "token fetch");
    assert_eq!(RunError::Manifest.step_name(), "manifest fetch");
    assert_eq!(RunError::LayerFetch.step_name(), "layer fetch");
    assert_eq!(RunError::Decompress.step_name(), "layer decompression");
    assert_eq!(RunError::Extract.step_name(), "layer extraction");
    assert_eq!(RunError::Io.step_name(), "filesystem");
    assert_eq!(RunError::Permission.step_name(), "privilege");
    assert_eq!(RunError::Spawn.step_name(), "spawn");
}
