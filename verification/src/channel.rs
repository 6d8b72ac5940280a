//! Release channels: which pre-built sandbox image a request targets.

use vstd::prelude::*;
use crate::error::StringError;

verus! {

/// A named build variant determining which sandbox image is used.
///
/// Exactly these three variants exist; unknown text is a parse error,
/// never a silent default.
#[derive(Debug, Hash, PartialEq, Eq, Copy, Clone, Structural)]
pub enum ReleaseChannel {
    Stable,
    Beta,
    Nightly,
}

/// The short textual name of a channel, as accepted by `from_str`.
pub open spec fn spec_channel_name(c: ReleaseChannel) -> Seq<char> {
    match c {
        ReleaseChannel::Stable => "stable"@,
        ReleaseChannel::Beta => "beta"@,
        ReleaseChannel::Nightly => "nightly"@,
    }
}

/// Compares two string slices by contents.
pub(crate) fn str_eq(a: &str, b: &str) -> (r: bool)
    ensures
        r == (a@ == b@),
{
    let sa = String::from_str(a);
    let sb = String::from_str(b);
    sa.eq(&sb)
}

impl ReleaseChannel {
    /// Parses the short textual name of a channel.
    ///
    /// Returns the channel whose name is exactly `s`; any other text is
    /// rejected with an error naming the unknown channel.
    pub fn from_str(s: &str) -> (r: Result<ReleaseChannel, StringError>)
        ensures
            s@ == spec_channel_name(ReleaseChannel::Stable) ==> r == Ok::<ReleaseChannel,
                StringError>(ReleaseChannel::Stable),
            s@ == spec_channel_name(ReleaseChannel::Beta) ==> r == Ok::<ReleaseChannel,
                StringError>(ReleaseChannel::Beta),
            s@ == spec_channel_name(ReleaseChannel::Nightly) ==> r == Ok::<ReleaseChannel,
                StringError>(ReleaseChannel::Nightly),
            !(s@ == spec_channel_name(ReleaseChannel::Stable) || s@ == spec_channel_name(
                ReleaseChannel::Beta,
            ) || s@ == spec_channel_name(ReleaseChannel::Nightly)) ==> (r matches Err(e)
                && e.0@ == "unknown release channel "@ + s@),
    {
        proof {
            reveal_strlit("stable");
            reveal_strlit("beta");
            reveal_strlit("nightly");
            assert("stable"@.len() == 6);
            assert("beta"@.len() == 4);
            assert("nightly"@.len() == 7);
        }
        if str_eq(s, "stable") {
            Ok(ReleaseChannel::Stable)
        } else if str_eq(s, "beta") {
            Ok(ReleaseChannel::Beta)
        } else if str_eq(s, "nightly") {
            Ok(ReleaseChannel::Nightly)
        } else {
            Err(StringError(String::from_str("unknown release channel ").concat(s)))
        }
    }

    /// The short textual name of this channel.
    pub fn as_str(&self) -> (r: &'static str)
        ensures
            r@ == spec_channel_name(*self),
    {
        match *self {
            ReleaseChannel::Stable => "stable",
            ReleaseChannel::Beta => "beta",
            ReleaseChannel::Nightly => "nightly",
        }
    }
}

/// The name of the sandbox image that serves a channel.
pub open spec fn spec_image_name(c: ReleaseChannel) -> Seq<char> {
    "rust-playpen-"@ + spec_channel_name(c)
}

/// Maps a channel to the sandbox image it targets.
pub fn image_name(channel: ReleaseChannel) -> (r: String)
    ensures
        r@ == spec_image_name(channel),
{
    String::from_str("rust-playpen-").concat(channel.as_str())
}

} // verus!
