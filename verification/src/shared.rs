//! What several of the tools share: the release channels and the error type.

use vstd::prelude::*;
use vstd::string::*;

use crate::text::str_eq;

verus! {

/// An error: the message that the user sees, and the messages of its causes, the nearest first.
#[derive(Debug, Clone, PartialEq, Eq)]
pub struct AnyError {
    pub message: String,
    pub causes: Vec<String>,
}

impl View for AnyError {
    type V = Seq<Seq<char>>;

    /// The message, followed by those of the causes.
    open spec fn view(&self) -> Seq<Seq<char>> {
        seq![self.message@] + crate::text::texts(self.causes@)
    }
}

impl AnyError {
    /// An error without a cause.
    pub fn new(message: String) -> (r: AnyError)
        ensures
            r@ == seq![message@],
    {
        let r = AnyError { message, causes: Vec::new() };
        assert(r@ =~= seq![message@]);
        r
    }

    /// An error whose cause is this error.
    pub fn context(self, message: String) -> (r: AnyError)
        ensures
            r@ == seq![message@] + self@,
    {
        let AnyError { message: cause, causes: rest } = self;
        let mut causes: Vec<String> = Vec::new();
        let mut rest = rest;
        causes.push(cause);
        let ghost first = causes@;
        let ghost tail = rest@;
        causes.append(&mut rest);
        let r = AnyError { message, causes };
        assert(crate::text::texts(r.causes@) =~= seq![cause@] + crate::text::texts(tail));
        r
    }
}

/// The version of the running executable.
#[derive(Debug, Clone)]
pub struct VersionInfo {
    /// The version of Deno, as it is shown.
    pub deno: String,
    /// The commit that the executable was built from.
    pub git_commit_hash: String,
    /// The version of a release, the commit of a canary build.
    pub release_version_or_canary_commit_hash: String,
    /// Whether this is a canary build.
    pub is_canary: bool,
}

#[derive(Debug, Clone, Copy, PartialEq, Eq, Structural)]
pub enum ReleaseChannel {
    /// Stable version, eg. 1.45.4, 2.0.0, 2.1.0
    Stable,
    /// Pointing to a git hash
    Canary,
    /// Long term support release
    Lts,
    /// Release candidate, pointing to a git hash
    Rc,
}

/// The name of a channel in messages.
pub open spec fn channel_name(channel: ReleaseChannel) -> Seq<char> {
    match channel {
        ReleaseChannel::Stable => "latest"@,
        ReleaseChannel::Canary => "canary"@,
        ReleaseChannel::Rc => "release candidate"@,
        ReleaseChannel::Lts => "LTS (long term support)"@,
    }
}

/// The identifier of a channel, on which other tools rely.
pub open spec fn channel_id(channel: ReleaseChannel) -> Seq<char> {
    match channel {
        ReleaseChannel::Stable => "stable"@,
        ReleaseChannel::Canary => "canary"@,
        ReleaseChannel::Rc => "rc"@,
        ReleaseChannel::Lts => "lts"@,
    }
}

/// The text is the identifier of a channel.
pub open spec fn is_channel_id(text: Seq<char>) -> bool {
    exists|channel: ReleaseChannel| #[trigger] channel_id(channel) == text
}

impl ReleaseChannel {
    /// The name of the channel in messages.
    pub fn name(&self) -> (r: &'static str)
        ensures
            r@ == channel_name(*self),
    {
        match self {
            Self::Stable => "latest",
            Self::Canary => "canary",
            Self::Rc => "release candidate",
            Self::Lts => "LTS (long term support)",
        }
    }

    /// The identifier of the channel. Other tools rely on these values: they never change.
    pub fn serialize(&self) -> (r: String)
        ensures
            r@ == channel_id(*self),
    {
        (match self {
            Self::Stable => "stable",
            Self::Canary => "canary",
            Self::Rc => "rc",
            Self::Lts => "lts",
        }).to_owned()
    }

    /// The channel with the given identifier.
    pub fn deserialize(str_: &str) -> (r: Result<Self, AnyError>)
        ensures
            r is Ok <==> is_channel_id(str_@),
            r matches Ok(channel) ==> channel_id(channel) == str_@,
            r matches Err(e) ==> e@ == seq!["Unrecognized release channel: "@ + str_@],
    {
        if str_eq(str_, "stable") {
            assert(channel_id(ReleaseChannel::Stable) == str_@);
            Ok(Self::Stable)
        } else if str_eq(str_, "canary") {
            assert(channel_id(ReleaseChannel::Canary) == str_@);
            Ok(Self::Canary)
        } else if str_eq(str_, "rc") {
            assert(channel_id(ReleaseChannel::Rc) == str_@);
            Ok(Self::Rc)
        } else if str_eq(str_, "lts") {
            assert(channel_id(ReleaseChannel::Lts) == str_@);
            Ok(Self::Lts)
        } else {
            let mut message: String = "Unrecognized release channel: ".to_owned();
            message.append(str_);
            Err(AnyError::new(message))
        }
    }
}

/// An identifier belongs to one channel only, so that reading back what was written gives the
/// channel that was written.
pub proof fn channel_ids_are_distinct(a: ReleaseChannel, b: ReleaseChannel)
    requires
        channel_id(a) == channel_id(b),
    ensures
        a == b,
{
    reveal_strlit("stable");
    reveal_strlit("canary");
    reveal_strlit("rc");
    reveal_strlit("lts");
    assert("stable"@[0] == 's');
    assert("canary"@[0] == 'c');
    assert("rc"@.len() == 2);
    assert("lts"@.len() == 3);
}

/// What [`ReleaseChannel::serialize`] writes, [`ReleaseChannel::deserialize`] accepts, and the
/// only channel that it can then return is the one that was written.
pub proof fn channel_round_trip(channel: ReleaseChannel, read: ReleaseChannel)
    ensures
        is_channel_id(channel_id(channel)),
        channel_id(read) == channel_id(channel) ==> read == channel,
{
    if channel_id(read) == channel_id(channel) {
        channel_ids_are_distinct(read, channel);
    }
}

/// What is written for a channel is read as that channel, and a text that is written for none is refused
/// with an error that names it.
pub proof fn written_channel_is_read(
    channel: &ReleaseChannel,
    written: String,
    text: &str,
    r: Result<ReleaseChannel, AnyError>,
)
    requires
        call_ensures(ReleaseChannel::serialize, (channel,), written),
        call_ensures(ReleaseChannel::deserialize, (text,), r),
    ensures
        written@ == match channel {
            ReleaseChannel::Stable => "stable"@,
            ReleaseChannel::Canary => "canary"@,
            ReleaseChannel::Rc => "rc"@,
            ReleaseChannel::Lts => "lts"@,
        },
        text@ == written@ ==> r == Ok::<ReleaseChannel, AnyError>(*channel),
        text@ != "stable"@ && text@ != "canary"@ && text@ != "rc"@ && text@ != "lts"@ ==> (
        r matches Err(e) && e@ == seq!["Unrecognized release channel: "@ + text@]),
{
    channel_round_trip(*channel, *channel);
    if text@ == written@ {
        assert(channel_id(*channel) == text@);
        channel_ids_are_distinct(r->Ok_0, *channel);
    }
}

/// The names of the channels in messages.
pub proof fn channels_have_their_names(channel: &ReleaseChannel, r: &'static str)
    requires
        call_ensures(ReleaseChannel::name, (channel,), r),
    ensures
        channel is Stable ==> r@ == "latest"@,
        channel is Canary ==> r@ == "canary"@,
        channel is Rc ==> r@ == "release candidate"@,
        channel is Lts ==> r@ == "LTS (long term support)"@,
{
}

/// The context of an error comes before the error, which stays as it is.
pub proof fn context_comes_first(cause: AnyError, message: String, r: AnyError)
    requires
        call_ensures(AnyError::context, (cause, message), r),
    ensures
        r@.len() == cause@.len() + 1,
        r@[0] == message@,
        r@.skip(1) == cause@,
        r.message@ == message@,
{
    assert((seq![message@] + cause@).skip(1) =~= cause@);
    assert(r@[0] == r.message@);
}

} // verus!
