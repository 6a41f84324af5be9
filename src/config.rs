use vstd::prelude::*;

verus! {

/// A release track.
#[derive(Clone, Copy, Debug, PartialEq, Eq, Structural)]
pub enum Channel {
    Stable,
    Beta,
    Nightly,
}

/// The name of a channel, which is also the name of its source branch.
pub open spec fn channel_name(c: Channel) -> Seq<char> {
    match c {
        Channel::Stable => "stable"@,
        Channel::Beta => "beta"@,
        Channel::Nightly => "nightly"@,
    }
}

impl Channel {
    pub fn name(&self) -> (r: &'static str)
        ensures
            r@ == channel_name(*self),
    {
        match self {
            Channel::Stable => "stable",
            Channel::Beta => "beta",
            Channel::Nightly => "nightly",
        }
    }
}

/// The settings of one promotion; built once and never changed.
#[derive(Clone, Debug)]
pub struct Config {
    pub channel: Channel,
    /// A revision to promote instead of the tip of the channel's branch.
    pub override_commit: Option<String>,
    pub download_bucket: String,
    pub download_dir: String,
    pub upload_bucket: String,
    pub upload_dir: String,
    /// The local working directory.
    pub scratch_dir: String,
}

} // verus!
