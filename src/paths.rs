use vstd::prelude::*;
use vstd::string::StringExecFns;

use crate::config::{channel_name, Channel, Config};

verus! {

/// The repository API that holds the installer's sources.
pub open spec fn repo_api() -> Seq<char> {
    "https://api.github.com/repos/rust-lang/rustup"@
}

/// Where the tip of the branch of a channel is looked up.
pub open spec fn head_sha_url(c: Channel) -> Seq<char> {
    repo_api() + "/commits/"@ + channel_name(c)
}

/// Where the source manifest at a revision is fetched.
pub open spec fn contents_url(sha: Seq<char>) -> Seq<char> {
    repo_api() + "/contents/Cargo.toml?ref="@ + sha
}

/// A file or directory `name` inside the local directory `dir`.
pub open spec fn join_path(dir: Seq<char>, name: Seq<char>) -> Seq<char> {
    if dir.len() == 0 {
        name
    } else {
        dir + "/"@ + name
    }
}

/// The local directory into which the artifacts of a revision are staged.
pub open spec fn staging_dir(cfg: Config) -> Seq<char> {
    join_path(cfg.scratch_dir@, "dist"@)
}

/// The local file into which the release manifest is written.
pub open spec fn manifest_path(cfg: Config) -> Seq<char> {
    join_path(cfg.scratch_dir@, "release-stable.toml"@)
}

/// The build-store location of the artifacts of a revision.
pub open spec fn artifacts_url(cfg: Config, sha: Seq<char>) -> Seq<char> {
    "s3://"@ + cfg.download_bucket@ + "/"@ + cfg.download_dir@ + "/"@ + sha + "/"@
}

/// A location under the publishing prefix.
pub open spec fn upload_url(cfg: Config, target: Seq<char>) -> Seq<char> {
    "s3://"@ + cfg.upload_bucket@ + "/"@ + cfg.upload_dir@ + "/"@ + target
}

/// The archive location of a version, relative to the publishing prefix.
pub open spec fn archive_target(version: Seq<char>) -> Seq<char> {
    "archive/"@ + version + "/"@
}

/// The text of the release manifest for a version.
pub open spec fn manifest_text(version: Seq<char>) -> Seq<char> {
    "\nschema-version = '1'\nversion = '"@ + version + "'\n"@
}

/// One invocation of the object-store copy tool.
#[derive(Clone, Debug, PartialEq, Eq)]
pub struct S3Copy {
    pub recursive: bool,
    pub source: String,
    pub destination: String,
}

/// What an `S3Copy` says, in plain values.
pub ghost struct CopyView {
    pub recursive: bool,
    pub source: Seq<char>,
    pub destination: Seq<char>,
}

impl View for S3Copy {
    type V = CopyView;

    open spec fn view(&self) -> CopyView {
        CopyView { recursive: self.recursive, source: self.source@, destination: self.destination@ }
    }
}

/// The arguments handed to the copy tool for a copy.
pub open spec fn copy_args(c: CopyView) -> Seq<Seq<char>> {
    let head = if c.recursive {
        seq!["cp"@, "--recursive"@]
    } else {
        seq!["cp"@]
    };
    head + seq!["--only-show-errors"@, c.source, c.destination]
}

impl S3Copy {
    /// The arguments of the copy tool, errors only being reported.
    pub fn args(&self) -> (r: Vec<String>)
        ensures
            r@.map_values(|s: String| s@) == copy_args(self@),
    {
        let mut r: Vec<String> = Vec::new();
        r.push(String::from_str("cp"));
        if self.recursive {
            r.push(String::from_str("--recursive"));
        }
        r.push(String::from_str("--only-show-errors"));
        r.push(self.source.clone());
        r.push(self.destination.clone());
        assert(r@.map_values(|s: String| s@) =~= copy_args(self@));
        r
    }
}

/// The concatenation of two strings.
pub fn concat(a: &str, b: &str) -> (r: String)
    ensures
        r@ == a@ + b@,
{
    let mut r = a.to_owned();
    r.append(b);
    r
}

pub fn join_path_exec(dir: &str, name: &str) -> (r: String)
    ensures
        r@ == join_path(dir@, name@),
{
    if dir.is_empty() {
        name.to_owned()
    } else {
        let mut r = dir.to_owned();
        r.append("/");
        r.append(name);
        r
    }
}

} // verus!
