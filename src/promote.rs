use vstd::prelude::*;
use vstd::string::StringExecFns;

use crate::config::{Channel, Config};
use crate::error::PromoteError;
use crate::paths::{
    archive_target, artifacts_url, concat, contents_url, head_sha_url, join_path_exec,
    manifest_path, manifest_text, staging_dir, upload_url, CopyView, S3Copy,
};
use crate::version::{version_from_content, version_from_manifest_content};

verus! {

/// Where a promotion stands: each phase but the last two waits for the
/// outcome of the action that led to it.
#[derive(Clone, Copy, Debug, PartialEq, Eq, Structural)]
pub enum Phase {
    Idle,
    AwaitingRevision,
    AwaitingCargoManifest,
    AwaitingStagingDir,
    AwaitingArtifacts,
    AwaitingArchive,
    AwaitingPublish,
    AwaitingManifestWrite,
    AwaitingManifestUpload,
    Done,
    Failed,
}

/// The outcome of an action, handed back to the promotion.
#[derive(Debug, PartialEq, Eq)]
pub enum Event {
    /// The revision at the tip of the channel's branch (the `sha` field).
    Revision(String),
    /// The `content` field of the repository's answer for the source manifest.
    CargoManifest(String),
    /// The action succeeded.
    Completed,
    /// The action failed.
    Failed(PromoteError),
}

pub ghost enum EventView {
    Revision(Seq<char>),
    CargoManifest(Seq<char>),
    Completed,
    Failed(PromoteError),
}

impl View for Event {
    type V = EventView;

    open spec fn view(&self) -> EventView {
        match self {
            Event::Revision(s) => EventView::Revision(s@),
            Event::CargoManifest(s) => EventView::CargoManifest(s@),
            Event::Completed => EventView::Completed,
            Event::Failed(e) => EventView::Failed(*e),
        }
    }
}

/// What the promotion asks to be done next.
#[derive(Debug, PartialEq, Eq)]
pub enum Action {
    /// Fetch the tip of the channel's branch from this URL.
    FetchRevision { url: String },
    /// Fetch the source manifest from this URL.
    FetchCargoManifest { url: String },
    /// Remove this directory if it exists, then create it with its parents.
    ResetDir { path: String },
    /// Run the object-store copy tool.
    Copy(S3Copy),
    /// Write a local file.
    WriteFile { path: String, contents: String },
    /// The promotion is complete.
    Finish,
    /// The promotion stopped.
    Abort(PromoteError),
}

pub ghost enum ActionView {
    FetchRevision(Seq<char>),
    FetchCargoManifest(Seq<char>),
    ResetDir(Seq<char>),
    Copy(CopyView),
    WriteFile(Seq<char>, Seq<char>),
    Finish,
    Abort(PromoteError),
}

impl View for Action {
    type V = ActionView;

    open spec fn view(&self) -> ActionView {
        match self {
            Action::FetchRevision { url } => ActionView::FetchRevision(url@),
            Action::FetchCargoManifest { url } => ActionView::FetchCargoManifest(url@),
            Action::ResetDir { path } => ActionView::ResetDir(path@),
            Action::Copy(c) => ActionView::Copy(c@),
            Action::WriteFile { path, contents } => ActionView::WriteFile(path@, contents@),
            Action::Finish => ActionView::Finish,
            Action::Abort(e) => ActionView::Abort(*e),
        }
    }
}

/// A promotion of the installer: its settings and how far it has come.
pub struct Context {
    pub config: Config,
    pub phase: Phase,
    /// The revision being promoted, once known.
    pub revision: String,
    /// Its version, once known.
    pub version: String,
}

pub ghost struct ContextView {
    pub phase: Phase,
    /// The revision being promoted, once known.
    pub revision: Seq<char>,
    /// Its version, once known.
    pub version: Seq<char>,
}

impl View for Context {
    type V = ContextView;

    open spec fn view(&self) -> ContextView {
        ContextView { phase: self.phase, revision: self.revision@, version: self.version@ }
    }
}

/// The copy that stages the artifacts of a revision.
pub open spec fn download_copy(cfg: Config, sha: Seq<char>) -> CopyView {
    CopyView { recursive: true, source: artifacts_url(cfg, sha), destination: staging_dir(cfg) + "/"@ }
}

/// The copy of the staged artifacts to a location under the publishing prefix.
pub open spec fn upload_copy(cfg: Config, target: Seq<char>) -> CopyView {
    CopyView { recursive: true, source: staging_dir(cfg) + "/"@, destination: upload_url(cfg, target) }
}

pub open spec fn archive_copy(cfg: Config, version: Seq<char>) -> CopyView {
    upload_copy(cfg, archive_target(version))
}

pub open spec fn dist_copy(cfg: Config) -> CopyView {
    upload_copy(cfg, "dist/"@)
}

/// The copy that publishes the release manifest.
pub open spec fn manifest_upload(cfg: Config) -> CopyView {
    CopyView {
        recursive: false,
        source: manifest_path(cfg),
        destination: upload_url(cfg, "release-stable.toml"@),
    }
}

pub open spec fn manifest_write(cfg: Config, version: Seq<char>) -> ActionView {
    ActionView::WriteFile(manifest_path(cfg), manifest_text(version))
}

pub open spec fn accepted_channel(c: Channel) -> bool {
    c == Channel::Stable || c == Channel::Beta
}

/// How a promotion starts: the channel gate, then the revision.
pub open spec fn start(cfg: Config) -> (ContextView, ActionView) {
    if !accepted_channel(cfg.channel) {
        (
            ContextView { phase: Phase::Failed, revision: seq![], version: seq![] },
            ActionView::Abort(PromoteError::UnsupportedChannel),
        )
    } else {
        match cfg.override_commit {
            Some(sha) => (
                ContextView { phase: Phase::AwaitingCargoManifest, revision: sha@, version: seq![] },
                ActionView::FetchCargoManifest(contents_url(sha@)),
            ),
            None => (
                ContextView { phase: Phase::AwaitingRevision, revision: seq![], version: seq![] },
                ActionView::FetchRevision(head_sha_url(cfg.channel)),
            ),
        }
    }
}

pub open spec fn with_phase(s: ContextView, p: Phase) -> ContextView {
    ContextView { phase: p, ..s }
}

/// The answer to an event that the promotion was not waiting for.
pub open spec fn unexpected(s: ContextView) -> (ContextView, ActionView) {
    (with_phase(s, Phase::Failed), ActionView::Abort(PromoteError::UnexpectedEvent))
}

/// How a promotion goes on from an event.
pub open spec fn step(cfg: Config, s: ContextView, ev: EventView) -> (ContextView, ActionView) {
    match s.phase {
        Phase::Done => (s, ActionView::Finish),
        Phase::Idle | Phase::Failed => (s, ActionView::Abort(PromoteError::UnexpectedEvent)),
        _ => match ev {
            EventView::Failed(e) => (with_phase(s, Phase::Failed), ActionView::Abort(e)),
            EventView::Revision(sha) => if s.phase == Phase::AwaitingRevision {
                (
                    ContextView { phase: Phase::AwaitingCargoManifest, revision: sha, ..s },
                    ActionView::FetchCargoManifest(contents_url(sha)),
                )
            } else {
                unexpected(s)
            },
            EventView::CargoManifest(content) => if s.phase == Phase::AwaitingCargoManifest {
                match version_from_content(content) {
                    Ok(v) => (
                        ContextView { phase: Phase::AwaitingStagingDir, version: v, ..s },
                        ActionView::ResetDir(staging_dir(cfg)),
                    ),
                    Err(e) => (with_phase(s, Phase::Failed), ActionView::Abort(e)),
                }
            } else {
                unexpected(s)
            },
            EventView::Completed => match s.phase {
                Phase::AwaitingStagingDir => (
                    with_phase(s, Phase::AwaitingArtifacts),
                    ActionView::Copy(download_copy(cfg, s.revision)),
                ),
                Phase::AwaitingArtifacts => (
                    with_phase(s, Phase::AwaitingArchive),
                    ActionView::Copy(archive_copy(cfg, s.version)),
                ),
                Phase::AwaitingArchive => if cfg.channel == Channel::Stable {
                    (with_phase(s, Phase::AwaitingPublish), ActionView::Copy(dist_copy(cfg)))
                } else {
                    (with_phase(s, Phase::AwaitingManifestWrite), manifest_write(cfg, s.version))
                },
                Phase::AwaitingPublish => (
                    with_phase(s, Phase::AwaitingManifestWrite),
                    manifest_write(cfg, s.version),
                ),
                Phase::AwaitingManifestWrite => (
                    with_phase(s, Phase::AwaitingManifestUpload),
                    ActionView::Copy(manifest_upload(cfg)),
                ),
                Phase::AwaitingManifestUpload => (with_phase(s, Phase::Done), ActionView::Finish),
                _ => unexpected(s),
            },
        },
    }
}

impl Context {
    /// A promotion with these settings that has not started.
    pub fn new(config: Config) -> (r: Context)
        ensures
            r.config == config,
            r@ == (ContextView { phase: Phase::Idle, revision: seq![], version: seq![] }),
    {
        Context { config, phase: Phase::Idle, revision: String::new(), version: String::new() }
    }

    pub fn phase(&self) -> (r: Phase)
        ensures
            r == self@.phase,
    {
        self.phase
    }

    /// Only the stable and beta channels can be promoted.
    pub fn enforce_rustup_channel(&self) -> (r: Result<(), PromoteError>)
        ensures
            r is Ok <==> accepted_channel(self.config.channel),
            r matches Err(e) ==> e == PromoteError::UnsupportedChannel,
    {
        match self.config.channel {
            Channel::Stable | Channel::Beta => Ok(()),
            Channel::Nightly => Err(PromoteError::UnsupportedChannel),
        }
    }

    /// The revision to promote where the settings fix one; `None` where the
    /// tip of the channel's branch has to be looked up at `head_sha_url`.
    pub fn get_commit_sha_for_rustup_release(&self) -> (r: Option<String>)
        ensures
            match self.config.override_commit {
                Some(s) => r matches Some(x) && x@ == s@,
                None => r is None,
            },
    {
        match &self.config.override_commit {
            Some(sha) => Some(sha.clone()),
            None => None,
        }
    }

    pub fn head_sha_url(&self) -> (r: String)
        ensures
            r@ == head_sha_url(self.config.channel),
    {
        let mut r = String::from_str("https://api.github.com/repos/rust-lang/rustup");
        r.append("/commits/");
        r.append(self.config.channel.name());
        r
    }

    pub fn contents_url(&self, sha: &str) -> (r: String)
        ensures
            r@ == contents_url(sha@),
    {
        let mut r = String::from_str("https://api.github.com/repos/rust-lang/rustup");
        r.append("/contents/Cargo.toml?ref=");
        r.append(sha);
        r
    }

    pub fn staging_dir(&self) -> (r: String)
        ensures
            r@ == staging_dir(self.config),
    {
        join_path_exec(self.config.scratch_dir.as_str(), "dist")
    }

    /// The copy of the artifacts of a revision into the staging directory.
    pub fn download_rustup_artifacts(&self, sha: &str) -> (r: S3Copy)
        ensures
            r@ == download_copy(self.config, sha@),
    {
        let mut source = String::from_str("s3://");
        source.append(self.config.download_bucket.as_str());
        source.append("/");
        source.append(self.config.download_dir.as_str());
        source.append("/");
        source.append(sha);
        source.append("/");
        let staging = self.staging_dir();
        S3Copy { recursive: true, source, destination: concat(staging.as_str(), "/") }
    }

    /// The recursive copy of the directory `dist_dir` to `target_path` under
    /// the publishing prefix.
    pub fn upload_rustup_artifacts(&self, dist_dir: &str, target_path: &str) -> (r: S3Copy)
        ensures
            r@ == (CopyView {
                recursive: true,
                source: dist_dir@ + "/"@,
                destination: upload_url(self.config, target_path@),
            }),
    {
        S3Copy {
            recursive: true,
            source: concat(dist_dir, "/"),
            destination: self.upload_url(target_path),
        }
    }

    fn upload_url(&self, target: &str) -> (r: String)
        ensures
            r@ == upload_url(self.config, target@),
    {
        let mut r = String::from_str("s3://");
        r.append(self.config.upload_bucket.as_str());
        r.append("/");
        r.append(self.config.upload_dir.as_str());
        r.append("/");
        r.append(target);
        r
    }

    /// The copy of `dist_dir` to the archive location of `version`.
    pub fn archive_rustup_artifacts(&self, dist_dir: &str, version: &str) -> (r: S3Copy)
        ensures
            r@ == (CopyView {
                recursive: true,
                source: dist_dir@ + "/"@,
                destination: upload_url(self.config, archive_target(version@)),
            }),
    {
        let mut target = String::from_str("archive/");
        target.append(version);
        target.append("/");
        self.upload_rustup_artifacts(dist_dir, target.as_str())
    }

    /// The copy of `dist_dir` to the current-release location.
    pub fn promote_rustup_artifacts(&self, dist_dir: &str) -> (r: S3Copy)
        ensures
            r@ == (CopyView {
                recursive: true,
                source: dist_dir@ + "/"@,
                destination: upload_url(self.config, "dist/"@),
            }),
    {
        self.upload_rustup_artifacts(dist_dir, "dist/")
    }

    /// The writing of the release manifest that names `version`.
    pub fn update_rustup_release(&self, version: &str) -> (r: Action)
        ensures
            r@ == manifest_write(self.config, version@),
    {
        let path = join_path_exec(self.config.scratch_dir.as_str(), "release-stable.toml");
        let mut contents = String::from_str("\nschema-version = '1'\nversion = '");
        contents.append(version);
        contents.append("'\n");
        Action::WriteFile { path, contents }
    }

    /// The copy that publishes the written release manifest.
    pub fn upload_rustup_release(&self) -> (r: S3Copy)
        ensures
            r@ == manifest_upload(self.config),
    {
        S3Copy {
            recursive: false,
            source: join_path_exec(self.config.scratch_dir.as_str(), "release-stable.toml"),
            destination: self.upload_url("release-stable.toml"),
        }
    }

    fn fail(&mut self, e: PromoteError) -> (r: Action)
        ensures
            final(self).config == old(self).config,
            final(self)@ == with_phase(old(self)@, Phase::Failed),
            r@ == ActionView::Abort(e),
    {
        self.phase = Phase::Failed;
        Action::Abort(e)
    }

    /// Starts the promotion over: checks the channel, then asks for the
    /// revision, or for the source manifest where the settings fix the
    /// revision.
    pub fn promote_rustup(&mut self) -> (r: Action)
        ensures
            final(self).config == old(self).config,
            (final(self)@, r@) == start(old(self).config),
    {
        self.revision = String::new();
        self.version = String::new();
        if let Err(e) = self.enforce_rustup_channel() {
            return self.fail(e);
        }
        match self.get_commit_sha_for_rustup_release() {
            Some(sha) => {
                let url = self.contents_url(sha.as_str());
                self.revision = sha;
                self.phase = Phase::AwaitingCargoManifest;
                Action::FetchCargoManifest { url }
            },
            None => {
                self.phase = Phase::AwaitingRevision;
                Action::FetchRevision { url: self.head_sha_url() }
            },
        }
    }

    /// Takes the outcome of the last action and says what to do next.
    pub fn resume(&mut self, event: Event) -> (r: Action)
        ensures
            final(self).config == old(self).config,
            (final(self)@, r@) == step(old(self).config, old(self)@, event@),
    {
        match self.phase {
            Phase::Done => {
                return Action::Finish;
            },
            Phase::Idle | Phase::Failed => {
                return Action::Abort(PromoteError::UnexpectedEvent);
            },
            _ => {},
        }
        match event {
            Event::Failed(e) => self.fail(e),
            Event::Revision(sha) => {
                if self.phase == Phase::AwaitingRevision {
                    let url = self.contents_url(sha.as_str());
                    self.revision = sha;
                    self.phase = Phase::AwaitingCargoManifest;
                    Action::FetchCargoManifest { url }
                } else {
                    self.fail(PromoteError::UnexpectedEvent)
                }
            },
            Event::CargoManifest(content) => {
                if self.phase == Phase::AwaitingCargoManifest {
                    match version_from_manifest_content(content.as_str()) {
                        Ok(v) => {
                            self.version = v;
                            self.phase = Phase::AwaitingStagingDir;
                            Action::ResetDir { path: self.staging_dir() }
                        },
                        Err(e) => self.fail(e),
                    }
                } else {
                    self.fail(PromoteError::UnexpectedEvent)
                }
            },
            Event::Completed => match self.phase {
                Phase::AwaitingStagingDir => {
                    self.phase = Phase::AwaitingArtifacts;
                    Action::Copy(self.download_rustup_artifacts(self.revision.as_str()))
                },
                Phase::AwaitingArtifacts => {
                    self.phase = Phase::AwaitingArchive;
                    let dist_dir = self.staging_dir();
                    Action::Copy(
                        self.archive_rustup_artifacts(dist_dir.as_str(), self.version.as_str()),
                    )
                },
                Phase::AwaitingArchive => {
                    if self.config.channel == Channel::Stable {
                        self.phase = Phase::AwaitingPublish;
                        let dist_dir = self.staging_dir();
                        Action::Copy(self.promote_rustup_artifacts(dist_dir.as_str()))
                    } else {
                        self.phase = Phase::AwaitingManifestWrite;
                        self.update_rustup_release(self.version.as_str())
                    }
                },
                Phase::AwaitingPublish => {
                    self.phase = Phase::AwaitingManifestWrite;
                    self.update_rustup_release(self.version.as_str())
                },
                Phase::AwaitingManifestWrite => {
                    self.phase = Phase::AwaitingManifestUpload;
                    Action::Copy(self.upload_rustup_release())
                },
                Phase::AwaitingManifestUpload => {
                    self.phase = Phase::Done;
                    Action::Finish
                },
                _ => self.fail(PromoteError::UnexpectedEvent),
            },
        }
    }
}

} // verus!
