use base64::Engine;
use promote_release::{
    remove_newlines, version_from_manifest_content, Action, Channel, Config, Context, DecodeStep,
    Event, ManifestField, Phase, PromoteError, S3Copy,
};

fn config(channel: Channel, override_commit: Option<&str>) -> Config {
    Config {
        channel,
        override_commit: override_commit.map(String::from),
        download_bucket: "rustup-builds".to_string(),
        download_dir: "builds".to_string(),
        upload_bucket: "static".to_string(),
        upload_dir: "rustup".to_string(),
        scratch_dir: "/tmp/promote".to_string(),
    }
}

fn encode(text: &str) -> String {
    base64::engine::general_purpose::STANDARD.encode(text.as_bytes())
}

fn copy(recursive: bool, source: &str, destination: &str) -> Action {
    Action::Copy(S3Copy {
        recursive,
        source: source.to_string(),
        destination: destination.to_string(),
    })
}

fn manifest_write(version: &str) -> Action {
    Action::WriteFile {
        path: "/tmp/promote/release-stable.toml".to_string(),
        contents: format!("\nschema-version = '1'\nversion = '{}'\n", version),
    }
}

/// Runs a whole promotion, answering every action with the given events.
fn run(cfg: Config, events: Vec<Event>) -> (Vec<Action>, Phase) {
    let mut ctx = Context::new(cfg);
    let mut actions = vec![ctx.promote_rustup()];
    for ev in events {
        actions.push(ctx.resume(ev));
    }
    (actions, ctx.phase())
}

fn completions(n: usize) -> Vec<Event> {
    (0..n).map(|_| Event::Completed).collect()
}

#[test]
fn stable_promotion_resolves_and_publishes() {
    let mut events = vec![
        Event::Revision("abc".to_string()),
        Event::CargoManifest(encode("[package]\nversion = \"1.27.1\"\n")),
    ];
    events.extend(completions(6));
    let (actions, phase) = run(config(Channel::Stable, None), events);
    let expected = vec![
        Action::FetchRevision {
            url: "https://api.github.com/repos/rust-lang/rustup/commits/stable".to_string(),
        },
        Action::FetchCargoManifest {
            url: "https://api.github.com/repos/rust-lang/rustup/contents/Cargo.toml?ref=abc"
                .to_string(),
        },
        Action::ResetDir { path: "/tmp/promote/dist".to_string() },
        copy(true, "s3://rustup-builds/builds/abc/", "/tmp/promote/dist/"),
        copy(true, "/tmp/promote/dist/", "s3://static/rustup/archive/1.27.1/"),
        copy(true, "/tmp/promote/dist/", "s3://static/rustup/dist/"),
        manifest_write("1.27.1"),
        copy(false, "/tmp/promote/release-stable.toml", "s3://static/rustup/release-stable.toml"),
        Action::Finish,
    ];
    assert_eq!(actions, expected);
    assert_eq!(phase, Phase::Done);
}

#[test]
fn beta_promotion_archives_without_publishing() {
    let mut events = vec![Event::CargoManifest(encode(
        "[package]\nversion = \"1.27.1-beta.2\"\n",
    ))];
    events.extend(completions(5));
    let (actions, phase) = run(config(Channel::Beta, Some("def")), events);
    let expected = vec![
        Action::FetchCargoManifest {
            url: "https://api.github.com/repos/rust-lang/rustup/contents/Cargo.toml?ref=def"
                .to_string(),
        },
        Action::ResetDir { path: "/tmp/promote/dist".to_string() },
        copy(true, "s3://rustup-builds/builds/def/", "/tmp/promote/dist/"),
        copy(true, "/tmp/promote/dist/", "s3://static/rustup/archive/1.27.1-beta.2/"),
        manifest_write("1.27.1-beta.2"),
        copy(false, "/tmp/promote/release-stable.toml", "s3://static/rustup/release-stable.toml"),
        Action::Finish,
    ];
    assert_eq!(actions, expected);
    assert_eq!(phase, Phase::Done);
    assert!(!actions.iter().any(|a| matches!(a, Action::FetchRevision { .. })));
}

#[test]
fn nightly_is_rejected_before_any_work() {
    let (actions, phase) = run(
        config(Channel::Nightly, None),
        vec![Event::Revision("abc".to_string()), Event::Completed],
    );
    assert_eq!(actions[0], Action::Abort(PromoteError::UnsupportedChannel));
    assert_eq!(phase, Phase::Failed);
    assert!(actions.iter().all(|a| matches!(a, Action::Abort(_) | Action::Finish)));
}

#[test]
fn override_commit_skips_the_branch_lookup() {
    let mut ctx = Context::new(config(Channel::Stable, Some("0123abcd")));
    assert_eq!(ctx.get_commit_sha_for_rustup_release(), Some("0123abcd".to_string()));
    let first = ctx.promote_rustup();
    assert_eq!(
        first,
        Action::FetchCargoManifest {
            url: "https://api.github.com/repos/rust-lang/rustup/contents/Cargo.toml?ref=0123abcd"
                .to_string()
        }
    );
    let no_override = Context::new(config(Channel::Stable, None));
    assert_eq!(no_override.get_commit_sha_for_rustup_release(), None);
}

#[test]
fn base64_with_interleaved_newlines_is_decoded() {
    let text = "[package]\nname = \"rustup\"\nversion = \"1.27.1\"\nedition = \"2021\"\n\
                description = \"Manage multiple rust installations with ease\"\n";
    let encoded = encode(text);
    assert!(encoded.len() > 128);
    let mut wrapped = String::new();
    for (i, c) in encoded.chars().enumerate() {
        if i > 0 && i % 64 == 0 {
            wrapped.push('\n');
        }
        wrapped.push(c);
    }
    wrapped.push('\n');
    assert_eq!(version_from_manifest_content(&wrapped), Ok("1.27.1".to_string()));
    assert_eq!(version_from_manifest_content(&encoded), Ok("1.27.1".to_string()));
}

#[test]
fn missing_version_stops_before_staging() {
    let (actions, phase) = run(
        config(Channel::Stable, Some("abc")),
        vec![
            Event::CargoManifest(encode("[package]\nname = \"rustup\"\n")),
            Event::Completed,
        ],
    );
    assert_eq!(
        actions[1],
        Action::Abort(PromoteError::ManifestShape(ManifestField::PackageVersion))
    );
    assert_eq!(actions[2], Action::Abort(PromoteError::UnexpectedEvent));
    assert_eq!(phase, Phase::Failed);
    assert!(!actions.iter().any(|a| matches!(a, Action::ResetDir { .. } | Action::Copy(_))));
}

#[test]
fn archive_failure_stops_before_publishing() {
    let failure = PromoteError::Subprocess("aws s3 cp --recursive".to_string());
    let (actions, phase) = run(
        config(Channel::Stable, Some("abc")),
        vec![
            Event::CargoManifest(encode("[package]\nversion = \"1.27.1\"\n")),
            Event::Completed,
            Event::Completed,
            Event::Failed(failure.clone()),
            Event::Completed,
            Event::Completed,
        ],
    );
    assert_eq!(actions[3], copy(true, "/tmp/promote/dist/", "s3://static/rustup/archive/1.27.1/"));
    assert_eq!(actions[4], Action::Abort(failure));
    assert_eq!(actions[5], Action::Abort(PromoteError::UnexpectedEvent));
    assert_eq!(phase, Phase::Failed);
    assert!(!actions.iter().any(|a| matches!(a, Action::WriteFile { .. })));
    assert_eq!(actions.iter().filter(|a| matches!(a, Action::Copy(_))).count(), 2);
}

#[test]
fn decode_errors_name_their_step() {
    assert_eq!(
        version_from_manifest_content("not base64!"),
        Err(PromoteError::Decode(DecodeStep::Base64))
    );
    let invalid_utf8 = base64::engine::general_purpose::STANDARD.encode([0xffu8, 0xfe, 0x41]);
    assert_eq!(
        version_from_manifest_content(&invalid_utf8),
        Err(PromoteError::Decode(DecodeStep::Utf8))
    );
    assert_eq!(
        version_from_manifest_content(&encode("[package\nversion = 1")),
        Err(PromoteError::Decode(DecodeStep::Toml))
    );
    assert_eq!(
        version_from_manifest_content(&encode("[package]\nversion = 3\n")),
        Err(PromoteError::ManifestShape(ManifestField::PackageVersion))
    );
    assert_eq!(
        version_from_manifest_content(&encode("version = \"1.0.0\"\n")),
        Err(PromoteError::ManifestShape(ManifestField::PackageVersion))
    );
}

#[test]
fn newlines_are_removed_from_bytes() {
    assert_eq!(remove_newlines(b"ab\ncd\n\nef"), b"abcdef".to_vec());
    assert_eq!(remove_newlines(b""), Vec::<u8>::new());
    assert_eq!(remove_newlines(b"\n\n"), Vec::<u8>::new());
}

#[test]
fn rerun_asks_for_identical_actions() {
    let events = || {
        let mut e = vec![
            Event::Revision("abc".to_string()),
            Event::CargoManifest(encode("[package]\nversion = \"1.27.1\"\n")),
        ];
        e.extend(completions(6));
        e
    };
    let (first, _) = run(config(Channel::Stable, None), events());
    let (second, _) = run(config(Channel::Stable, None), events());
    assert_eq!(first, second);
}

#[test]
fn restarting_a_context_starts_over() {
    let mut ctx = Context::new(config(Channel::Beta, None));
    assert!(matches!(ctx.promote_rustup(), Action::FetchRevision { .. }));
    assert_eq!(ctx.resume(Event::Revision("abc".to_string())), Action::FetchCargoManifest {
        url: "https://api.github.com/repos/rust-lang/rustup/contents/Cargo.toml?ref=abc".to_string()
    });
    assert_eq!(
        ctx.promote_rustup(),
        Action::FetchRevision {
            url: "https://api.github.com/repos/rust-lang/rustup/commits/beta".to_string()
        }
    );
    assert_eq!(ctx.phase(), Phase::AwaitingRevision);
}

#[test]
fn events_out_of_order_are_refused() {
    let mut ctx = Context::new(config(Channel::Stable, None));
    assert_eq!(ctx.resume(Event::Completed), Action::Abort(PromoteError::UnexpectedEvent));
    assert_eq!(ctx.phase(), Phase::Idle);
    ctx.promote_rustup();
    assert_eq!(ctx.resume(Event::Completed), Action::Abort(PromoteError::UnexpectedEvent));
    assert_eq!(ctx.phase(), Phase::Failed);
}

#[test]
fn finished_promotion_stays_finished() {
    let mut events = vec![Event::CargoManifest(encode("[package]\nversion = \"2.0.0\"\n"))];
    events.extend(completions(5));
    let mut ctx = Context::new(config(Channel::Beta, Some("abc")));
    ctx.promote_rustup();
    for ev in events {
        ctx.resume(ev);
    }
    assert_eq!(ctx.phase(), Phase::Done);
    assert_eq!(ctx.resume(Event::Completed), Action::Finish);
}

#[test]
fn builders_give_exact_paths() {
    let ctx = Context::new(config(Channel::Stable, None));
    assert_eq!(
        ctx.upload_rustup_artifacts("/x/dist", "archive/1.0.0/"),
        S3Copy {
            recursive: true,
            source: "/x/dist/".to_string(),
            destination: "s3://static/rustup/archive/1.0.0/".to_string(),
        }
    );
    assert_eq!(ctx.archive_rustup_artifacts("/x/dist", "1.0.0").destination,
        "s3://static/rustup/archive/1.0.0/");
    assert_eq!(ctx.promote_rustup_artifacts("/x/dist").destination, "s3://static/rustup/dist/");
    assert_eq!(ctx.head_sha_url(), "https://api.github.com/repos/rust-lang/rustup/commits/stable");
    assert_eq!(ctx.enforce_rustup_channel(), Ok(()));
    let nightly = Context::new(config(Channel::Nightly, None));
    assert_eq!(nightly.enforce_rustup_channel(), Err(PromoteError::UnsupportedChannel));
    let mut cfg = config(Channel::Beta, None);
    cfg.scratch_dir = String::new();
    assert_eq!(Context::new(cfg).staging_dir(), "dist");
    assert_eq!(Channel::Beta.name(), "beta");
    assert_eq!(Channel::Nightly.name(), "nightly");
}

#[test]
fn copy_arguments_follow_the_tool_contract() {
    let recursive = S3Copy {
        recursive: true,
        source: "a/".to_string(),
        destination: "s3://b/c/".to_string(),
    };
    assert_eq!(
        recursive.args(),
        vec!["cp", "--recursive", "--only-show-errors", "a/", "s3://b/c/"]
    );
    let single = S3Copy { recursive: false, source: "f".to_string(), destination: "s3://b/f".to_string() };
    assert_eq!(single.args(), vec!["cp", "--only-show-errors", "f", "s3://b/f"]);
}
