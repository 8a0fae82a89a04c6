use senddisimages::directory::{shown_channels, Channel, ChannelKind, GuildInfo};
use senddisimages::state::{AppState, ChannelData};

fn channel(id: &str, name: &str, kind: ChannelKind) -> Channel {
    Channel { id: id.to_string(), name: name.to_string(), kind }
}

#[test]
fn only_text_and_news_channels_are_shown() {
    assert!(ChannelKind::Text.is_shown());
    assert!(ChannelKind::News.is_shown());
    assert!(!ChannelKind::Other.is_shown());
}

#[test]
fn kinds_by_name() {
    assert_eq!(ChannelKind::Text.name(), "Text");
    assert_eq!(ChannelKind::News.name(), "News");
    assert_eq!(ChannelKind::Other.name(), "Other");
}

#[test]
fn shown_channels_keep_their_order() {
    let channels = vec![
        channel("1", "voice", ChannelKind::Other),
        channel("2", "general", ChannelKind::Text),
        channel("3", "category", ChannelKind::Other),
        channel("4", "announcements", ChannelKind::News),
        channel("5", "pictures", ChannelKind::Text),
    ];
    let infos = shown_channels(&channels);
    let seen: Vec<(String, String, String)> =
        infos.into_iter().map(|info| (info.id, info.name, info.channel_type)).collect();
    assert_eq!(
        seen,
        vec![
            ("2".to_string(), "general".to_string(), "Text".to_string()),
            ("4".to_string(), "announcements".to_string(), "News".to_string()),
            ("5".to_string(), "pictures".to_string(), "Text".to_string()),
        ]
    );
}

#[test]
fn nothing_to_show() {
    assert!(shown_channels(&Vec::new()).is_empty());
    assert!(shown_channels(&vec![channel("1", "voice", ChannelKind::Other)]).is_empty());
}

#[test]
fn guild_entry_holds_the_shown_channels() {
    let channels = vec![
        channel("10", "lobby", ChannelKind::Other),
        channel("11", "uploads", ChannelKind::Text),
    ];
    let guild = GuildInfo::new("77".to_string(), "Club".to_string(), Some("icon".to_string()), &channels);
    assert_eq!(guild.id, "77");
    assert_eq!(guild.name, "Club");
    assert_eq!(guild.icon, Some("icon".to_string()));
    assert_eq!(guild.channels.len(), 1);
    assert_eq!(guild.channels[0].id, "11");
    assert_eq!(guild.channels[0].name, "uploads");
    assert_eq!(guild.channels[0].channel_type, "Text");
    let bare = GuildInfo::new("78".to_string(), "Empty".to_string(), None, &Vec::new());
    assert_eq!(bare.icon, None);
    assert!(bare.channels.is_empty());
}

#[test]
fn application_state_is_empty() {
    assert_eq!(AppState::default(), AppState {});
}

#[test]
fn channel_record_holds_three_texts() {
    let record = ChannelData {
        channel_id: "11".to_string(),
        channel_name: "uploads".to_string(),
        guild_name: "Club".to_string(),
    };
    assert_eq!(record.channel_id, "11");
    assert_eq!(record.channel_name, "uploads");
    assert_eq!(record.guild_name, "Club");
}
