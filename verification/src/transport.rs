//! Direct-peer decisions: the STUN server, which data channels are attached to which
//! handler, and when media starts and stops.
use crate::text::{text_eq, text_starts_with};
use std::path::PathBuf;
use vstd::prelude::*;

verus! {

#[verifier::external_type_specification]
#[verifier::external_body]
pub struct ExPathBuf(PathBuf);

/// Local desktop capabilities passed to a session.
pub struct DesktopOptions {
    pub clipboard: bool,
    pub monitor_id: Option<u32>,
    pub file_root: Option<PathBuf>,
    pub audio: bool,
    pub state: PathBuf,
}

/// The configured STUN server, kept only when it is a `stun:` or `stuns:` URI.
pub fn stun_server(configured: Option<String>) -> (r: Option<String>)
    ensures
        r is Some <==> (configured is Some && (crate::text::has_prefix(configured->0@, "stun:"@)
            || crate::text::has_prefix(configured->0@, "stuns:"@))),
        r is Some ==> r == configured,
{
    match configured {
        Some(url) => {
            if text_starts_with(url.as_str(), "stun:") || text_starts_with(url.as_str(), "stuns:") {
                Some(url)
            } else {
                None
            }
        },
        None => None,
    }
}

/// Where an incoming data channel goes.
#[derive(Clone, Copy, PartialEq, Eq, Structural, Debug)]
pub enum ChannelRoute {
    Files,
    Input,
    Terminal,
    Close,
}

/// Which data channels a peer has already attached.
pub struct Channels {
    files_used: bool,
    used: bool,
}

/// The attachment record.
pub struct ChannelsView {
    pub files_used: bool,
    pub used: bool,
}

impl View for Channels {
    type V = ChannelsView;

    closed spec fn view(&self) -> ChannelsView {
        ChannelsView { files_used: self.files_used, used: self.used }
    }
}

/// The route of a channel labelled `label` and the record afterwards.
pub open spec fn spec_route(v: ChannelsView, label: Seq<char>, desktop: bool, files: bool) -> (ChannelRoute, ChannelsView) {
    if desktop && label == "remvora.files.v1"@ {
        if files && !v.files_used {
            (ChannelRoute::Files, ChannelsView { files_used: true, ..v })
        } else {
            (ChannelRoute::Close, v)
        }
    } else if label != (if desktop { "remvora.input.v1"@ } else { "remvora.terminal.v1"@ }) {
        (ChannelRoute::Close, v)
    } else if v.used {
        (ChannelRoute::Close, v)
    } else if desktop {
        (ChannelRoute::Input, ChannelsView { used: true, ..v })
    } else {
        (ChannelRoute::Terminal, ChannelsView { used: true, ..v })
    }
}

impl Channels {
    pub fn new() -> (c: Self)
        ensures
            !c@.files_used,
            !c@.used,
    {
        Channels { files_used: false, used: false }
    }

    /// Routes an incoming channel: one input channel for a desktop session or one terminal
    /// channel for a terminal session, plus one file channel where a folder is shared;
    /// anything else is closed.
    pub fn route(&mut self, label: &str, desktop: bool, files: bool) -> (r: ChannelRoute)
        ensures
            (r, final(self)@) == spec_route(old(self)@, label@, desktop, files),
    {
        if desktop && text_eq(label, "remvora.files.v1") {
            if files && !self.files_used {
                self.files_used = true;
                return ChannelRoute::Files;
            }
            return ChannelRoute::Close;
        }
        let expected = if desktop { "remvora.input.v1" } else { "remvora.terminal.v1" };
        if !text_eq(label, expected) || self.used {
            return ChannelRoute::Close;
        }
        self.used = true;
        if desktop {
            ChannelRoute::Input
        } else {
            ChannelRoute::Terminal
        }
    }
}

/// A peer attaches at most one input or terminal channel and at most one file channel.
pub proof fn law_one_channel_of_each_kind(v: ChannelsView, label: Seq<char>, desktop: bool, files: bool)
    ensures
        v.used ==> spec_route(v, label, desktop, files).0 != ChannelRoute::Input
            && spec_route(v, label, desktop, files).0 != ChannelRoute::Terminal,
        v.files_used ==> spec_route(v, label, desktop, files).0 != ChannelRoute::Files,
        !files ==> spec_route(v, label, desktop, files).0 != ChannelRoute::Files,
        !desktop ==> spec_route(v, label, desktop, files).0 != ChannelRoute::Files
            && spec_route(v, label, desktop, files).0 != ChannelRoute::Input,
{
}

/// A desktop session attaches its first `remvora.input.v1` channel to the desktop input
/// and, where a folder is shared, its first `remvora.files.v1` channel to the files; a
/// terminal session attaches its first `remvora.terminal.v1` channel to the terminal and
/// never a file or input channel.
pub proof fn law_channels_reach_their_handlers(v: ChannelsView, files: bool)
    ensures
        !v.used ==> spec_route(v, "remvora.input.v1"@, true, files).0 == ChannelRoute::Input,
        !v.used ==> spec_route(v, "remvora.terminal.v1"@, false, files).0 == ChannelRoute::Terminal,
        files && !v.files_used ==> spec_route(v, "remvora.files.v1"@, true, files).0 == ChannelRoute::Files,
        spec_route(v, "remvora.terminal.v1"@, true, files).0 == ChannelRoute::Close,
        spec_route(v, "remvora.input.v1"@, false, files).0 == ChannelRoute::Close,
        spec_route(v, "remvora.files.v1"@, false, files).0 == ChannelRoute::Close,
{
    reveal_strlit("remvora.files.v1");
    reveal_strlit("remvora.input.v1");
    reveal_strlit("remvora.terminal.v1");
    assert("remvora.files.v1"@.len() == 16);
    assert("remvora.files.v1"@[0] == 'r');
    assert("remvora.files.v1"@[1] == 'e');
    assert("remvora.files.v1"@[2] == 'm');
    assert("remvora.files.v1"@[3] == 'v');
    assert("remvora.files.v1"@[4] == 'o');
    assert("remvora.files.v1"@[5] == 'r');
    assert("remvora.files.v1"@[6] == 'a');
    assert("remvora.files.v1"@[7] == '.');
    assert("remvora.files.v1"@[8] == 'f');
    assert("remvora.files.v1"@[9] == 'i');
    assert("remvora.files.v1"@[10] == 'l');
    assert("remvora.files.v1"@[11] == 'e');
    assert("remvora.files.v1"@[12] == 's');
    assert("remvora.files.v1"@[13] == '.');
    assert("remvora.files.v1"@[14] == 'v');
    assert("remvora.files.v1"@[15] == '1');
    assert("remvora.input.v1"@.len() == 16);
    assert("remvora.input.v1"@[0] == 'r');
    assert("remvora.input.v1"@[1] == 'e');
    assert("remvora.input.v1"@[2] == 'm');
    assert("remvora.input.v1"@[3] == 'v');
    assert("remvora.input.v1"@[4] == 'o');
    assert("remvora.input.v1"@[5] == 'r');
    assert("remvora.input.v1"@[6] == 'a');
    assert("remvora.input.v1"@[7] == '.');
    assert("remvora.input.v1"@[8] == 'i');
    assert("remvora.input.v1"@[9] == 'n');
    assert("remvora.input.v1"@[10] == 'p');
    assert("remvora.input.v1"@[11] == 'u');
    assert("remvora.input.v1"@[12] == 't');
    assert("remvora.input.v1"@[13] == '.');
    assert("remvora.input.v1"@[14] == 'v');
    assert("remvora.input.v1"@[15] == '1');
    assert("remvora.terminal.v1"@.len() == 19);
    assert("remvora.terminal.v1"@[0] == 'r');
    assert("remvora.terminal.v1"@[1] == 'e');
    assert("remvora.terminal.v1"@[2] == 'm');
    assert("remvora.terminal.v1"@[3] == 'v');
    assert("remvora.terminal.v1"@[4] == 'o');
    assert("remvora.terminal.v1"@[5] == 'r');
    assert("remvora.terminal.v1"@[6] == 'a');
    assert("remvora.terminal.v1"@[7] == '.');
    assert("remvora.terminal.v1"@[8] == 't');
    assert("remvora.terminal.v1"@[9] == 'e');
    assert("remvora.terminal.v1"@[10] == 'r');
    assert("remvora.terminal.v1"@[11] == 'm');
    assert("remvora.terminal.v1"@[12] == 'i');
    assert("remvora.terminal.v1"@[13] == 'n');
    assert("remvora.terminal.v1"@[14] == 'a');
    assert("remvora.terminal.v1"@[15] == 'l');
    assert("remvora.terminal.v1"@[16] == '.');
    assert("remvora.terminal.v1"@[17] == 'v');
    assert("remvora.terminal.v1"@[18] == '1');
}

/// Connection states that matter to the media pipeline.
#[derive(Clone, Copy, PartialEq, Eq, Structural, Debug)]
pub enum PeerState {
    Connected,
    Failed,
    Closed,
    Other,
}

/// What a connection-state change calls for.
#[derive(Clone, Copy, PartialEq, Eq, Structural, Debug)]
pub enum MediaAction {
    Start,
    Stop,
    Nothing,
}

/// Media starts on the first connection only and stops when the connection fails or closes.
pub fn media_action(state: PeerState, started: &mut bool) -> (a: MediaAction)
    ensures
        state is Connected && !*old(started) ==> a is Start && *final(started),
        state is Connected && *old(started) ==> a is Nothing && *final(started),
        (state is Failed || state is Closed) ==> a is Stop && *final(started) == *old(started),
        state is Other ==> a is Nothing && *final(started) == *old(started),
{
    match state {
        PeerState::Connected => {
            if *started {
                MediaAction::Nothing
            } else {
                *started = true;
                MediaAction::Start
            }
        },
        PeerState::Failed | PeerState::Closed => MediaAction::Stop,
        PeerState::Other => MediaAction::Nothing,
    }
}

} // verus!
