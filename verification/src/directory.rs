//! The channel directory shown to the user: of the channels a server has, those that pictures
//! can be posted to.

use vstd::prelude::*;
use vstd::string::*;

verus! {

/// What kind of channel the platform says a channel is.
#[derive(Clone, Copy, Debug, PartialEq, Eq, Structural)]
pub enum ChannelKind {
    Text,
    News,
    /// Voice channels, categories, threads and whatever else takes no picture post.
    Other,
}

/// A channel as the platform lists it.
pub struct Channel {
    pub id: String,
    pub name: String,
    pub kind: ChannelKind,
}

/// A channel as the directory shows it.
pub struct ChannelInfo {
    pub id: String,
    pub name: String,
    pub channel_type: String,
}

/// A server with the channels of it that the directory shows.
pub struct GuildInfo {
    pub id: String,
    pub name: String,
    pub icon: Option<String>,
    pub channels: Vec<ChannelInfo>,
}

/// Text and news channels are shown; no other kind is.
pub open spec fn is_shown(kind: ChannelKind) -> bool {
    kind is Text || kind is News
}

/// The name a kind goes by in the directory.
pub open spec fn kind_name(kind: ChannelKind) -> Seq<char> {
    match kind {
        ChannelKind::Text => "Text"@,
        ChannelKind::News => "News"@,
        ChannelKind::Other => "Other"@,
    }
}

/// The channels that are shown, in the order the platform listed them.
pub open spec fn shown(channels: Seq<Channel>) -> Seq<Channel> {
    channels.filter(|channel: Channel| is_shown(channel.kind))
}

/// `info` shows `channel`: same identifier, same name, and the kind by its name.
pub open spec fn shows(info: ChannelInfo, channel: Channel) -> bool {
    &&& info.id == channel.id
    &&& info.name == channel.name
    &&& info.channel_type@ == kind_name(channel.kind)
}

impl ChannelKind {
    /// Whether channels of this kind are shown.
    pub fn is_shown(&self) -> (yes: bool)
        ensures
            yes == is_shown(*self),
    {
        match self {
            ChannelKind::Text => true,
            ChannelKind::News => true,
            ChannelKind::Other => false,
        }
    }

    /// The name of this kind.
    pub fn name(&self) -> (text: String)
        ensures
            text@ == kind_name(*self),
    {
        match self {
            ChannelKind::Text => String::from_str("Text"),
            ChannelKind::News => String::from_str("News"),
            ChannelKind::Other => String::from_str("Other"),
        }
    }
}

/// Picks the channels to show and draws up their directory entries, in the order given.
pub fn shown_channels(channels: &Vec<Channel>) -> (infos: Vec<ChannelInfo>)
    ensures
        infos.len() == shown(channels@).len(),
        forall|i: int| 0 <= i < infos.len() ==> shows(#[trigger] infos[i], shown(channels@)[i]),
{
    let mut infos: Vec<ChannelInfo> = Vec::new();
    let mut index: usize = 0;
    proof {
        reveal(Seq::filter);
        assert(channels@.take(0) =~= Seq::<Channel>::empty());
    }
    while index < channels.len()
        invariant
            index <= channels.len(),
            infos.len() == shown(channels@.take(index as int)).len(),
            forall|i: int|
                0 <= i < infos.len() ==> shows(
                    #[trigger] infos[i],
                    shown(channels@.take(index as int))[i],
                ),
        decreases channels.len() - index,
    {
        let channel = &channels[index];
        proof {
            reveal(Seq::filter);
            assert(channels@.take(index + 1).drop_last() =~= channels@.take(index as int));
            assert(channels@.take(index + 1).last() == channels@[index as int]);
        }
        if channel.kind.is_shown() {
            infos.push(
                ChannelInfo {
                    id: channel.id.clone(),
                    name: channel.name.clone(),
                    channel_type: channel.kind.name(),
                },
            );
        }
        index += 1;
    }
    assert(channels@.take(index as int) =~= channels@);
    infos
}

impl GuildInfo {
    /// The directory entry of a server: its identity, and of its channels those that are shown.
    pub fn new(id: String, name: String, icon: Option<String>, channels: &Vec<Channel>) -> (guild:
        GuildInfo)
        ensures
            guild.id == id,
            guild.name == name,
            guild.icon == icon,
            guild.channels.len() == shown(channels@).len(),
            forall|i: int|
                0 <= i < guild.channels.len() ==> shows(
                    #[trigger] guild.channels[i],
                    shown(channels@)[i],
                ),
    {
        GuildInfo { id, name, icon, channels: shown_channels(channels) }
    }
}

} // verus!
