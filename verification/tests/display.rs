use zico_limbo::configuration::boss_bar::{BossBarColorConfig, BossBarDivisionConfig};
use zico_limbo::configuration::queue::{
    DisabledQueueActionBarConfig, DisabledQueueBossBarConfig, DisabledQueueTabListConfig,
    DisabledQueueTitleConfig, QueueActionBarConfig, QueueBossBarConfig, QueueConfig,
    QueueTabListConfig, QueueTitleConfig,
};
use zico_limbo::protocol::ProtocolVersion;
use zico_limbo::queue::full_refresh;
use zico_limbo::queue::full_refresh::fills_text;
use zico_limbo::queue::queue_display::{action_bar_fills_text, eta_in_range, refresh_fills_text, DisplayRefresh};
use zico_limbo::queue::queue_display::{
    build_action_bar_packet, build_boss_bar_remove_packet, build_display_packets, BossBarHealth,
    DisplayPacket,
};

const UUID: u128 = 0x1234_5678_9abc_def0_1234_5678_9abc_def0;

fn version(protocol: i32) -> ProtocolVersion {
    ProtocolVersion { protocol }
}

fn s(text: &str) -> String {
    text.to_string()
}

#[test]
fn first_refresh_on_a_modern_client() {
    let config = QueueConfig::default();
    let packets = build_display_packets(&config, 3, 10, "Steve", version(767), UUID, false);
    assert_eq!(
        packets,
        vec![
            DisplayPacket::TabList { header: s("<bold>Queue</bold>"), footer: s("Position: 3/10") },
            DisplayPacket::TitlesAnimation { fade_in: 0, stay: 2147483647, fade_out: 0 },
            DisplayPacket::TitleText { text: s("<bold>Queue</bold>") },
            DisplayPacket::SubtitleText { text: s("Position: 3 of 10") },
            DisplayPacket::BossBarAdd {
                uuid: UUID,
                title: s("Queue: 3/10"),
                health: BossBarHealth { ahead: 2, total: 10 },
                color: BossBarColorConfig::Blue,
                division: BossBarDivisionConfig::NoDivision,
            },
        ]
    );
}

#[test]
fn later_refreshes_update_the_boss_bar_in_place() {
    let config = QueueConfig::default();
    let packets = build_display_packets(&config, 1, 4, "Steve", version(767), UUID, true);
    assert_eq!(
        packets.last(),
        Some(&DisplayPacket::BossBarUpdate {
            uuid: UUID,
            title: s("Queue: 1/4"),
            health: BossBarHealth { ahead: 0, total: 4 },
        })
    );
    assert!(!packets.iter().any(|p| matches!(p, DisplayPacket::BossBarAdd { .. })));
}

#[test]
fn legacy_titles_before_1_17() {
    let config = QueueConfig::default();
    let packets = build_display_packets(&config, 2, 2, "Steve", version(754), UUID, false);
    assert_eq!(packets[1], DisplayPacket::LegacyTitlesAnimation { fade_in: 0, stay: 2147483647, fade_out: 0 });
    assert_eq!(packets[2], DisplayPacket::LegacyTitleText { text: s("<bold>Queue</bold>") });
    assert_eq!(packets[3], DisplayPacket::LegacySubtitleText { text: s("Position: 2 of 2") });
    assert_eq!(packets.len(), 5);
}

#[test]
fn no_boss_bar_on_1_8() {
    let config = QueueConfig::default();
    let packets = build_display_packets(&config, 2, 2, "Steve", version(47), UUID, false);
    assert_eq!(packets.len(), 4);
    assert!(matches!(packets[1], DisplayPacket::LegacyTitlesAnimation { .. }));
    assert_eq!(build_boss_bar_remove_packet(&config, UUID, version(47)), None);
}

#[test]
fn tab_list_only_before_1_8() {
    let config = QueueConfig::default();
    let packets = build_display_packets(&config, 2, 5, "Steve", version(5), UUID, false);
    assert_eq!(
        packets,
        vec![DisplayPacket::TabList { header: s("<bold>Queue</bold>"), footer: s("Position: 2/5") }]
    );
    assert_eq!(build_action_bar_packet(&config, 2, 5, "Steve", version(5)), None);
}

#[test]
fn disabled_sections_send_nothing() {
    let mut config = QueueConfig::default();
    config.tab_list = QueueTabListConfig::Disabled(DisabledQueueTabListConfig { enabled: false });
    config.title = QueueTitleConfig::Disabled(DisabledQueueTitleConfig { enabled: false });
    config.action_bar = QueueActionBarConfig::Disabled(DisabledQueueActionBarConfig { enabled: false });
    config.boss_bar = QueueBossBarConfig::Disabled(DisabledQueueBossBarConfig { enabled: false });
    assert!(build_display_packets(&config, 2, 5, "Steve", version(767), UUID, false).is_empty());
    assert!(full_refresh::build_display_packets(&config, 2, 5, "Steve", version(767), UUID).is_empty());
    assert_eq!(build_action_bar_packet(&config, 2, 5, "Steve", version(767)), None);
    assert_eq!(build_boss_bar_remove_packet(&config, UUID, version(767)), None);
}

#[test]
fn action_bar_form_follows_the_version() {
    let config = QueueConfig::default();
    let text = s("<yellow>Queue: 3/10 | ETA: 10s</yellow>");
    assert_eq!(
        build_action_bar_packet(&config, 3, 10, "Steve", version(755)),
        Some(DisplayPacket::ActionBarText { text: text.clone() })
    );
    assert_eq!(
        build_action_bar_packet(&config, 3, 10, "Steve", version(315)),
        Some(DisplayPacket::LegacyTitleActionBar { text: text.clone() })
    );
    assert_eq!(
        build_action_bar_packet(&config, 3, 10, "Steve", version(314)),
        Some(DisplayPacket::LegacyChatGameInfo { text: text.clone() })
    );
    assert_eq!(
        build_action_bar_packet(&config, 3, 10, "Steve", version(47)),
        Some(DisplayPacket::LegacyChatGameInfo { text })
    );
    assert_eq!(build_action_bar_packet(&config, 3, 10, "Steve", version(46)), None);
}

#[test]
fn boss_bar_removal_from_1_9() {
    let config = QueueConfig::default();
    assert_eq!(
        build_boss_bar_remove_packet(&config, UUID, version(107)),
        Some(DisplayPacket::BossBarRemove { uuid: UUID })
    );
    assert_eq!(build_boss_bar_remove_packet(&config, UUID, version(106)), None);
    assert_eq!(
        full_refresh::build_boss_bar_remove_packet(&config, UUID, version(767)),
        Some(DisplayPacket::BossBarRemove { uuid: UUID })
    );
}

#[test]
fn full_refresh_redraws_everything() {
    let config = QueueConfig::default();
    let packets = full_refresh::build_display_packets(&config, 3, 10, "Steve", version(767), UUID);
    assert_eq!(
        packets,
        vec![
            DisplayPacket::TabList { header: s("<bold>Queue</bold>"), footer: s("Position: 3/10") },
            DisplayPacket::TitlesAnimation { fade_in: 0, stay: 2147483647, fade_out: 0 },
            DisplayPacket::TitleText { text: s("<bold>Queue</bold>") },
            DisplayPacket::SubtitleText { text: s("Position: 3 of 10") },
            DisplayPacket::ActionBarText { text: s("<yellow>Queue: 3/10 | ETA: 10s</yellow>") },
            DisplayPacket::BossBarReplace {
                uuid: UUID,
                title: s("Queue: 3/10"),
                health: BossBarHealth { ahead: 2, total: 10 },
                color: BossBarColorConfig::Blue,
                division: BossBarDivisionConfig::NoDivision,
            },
        ]
    );
}

#[test]
fn both_refresh_styles_share_tab_list_and_title() {
    let config = QueueConfig::default();
    for protocol in [5, 47, 107, 315, 755, 767] {
        let split = build_display_packets(&config, 4, 9, "Steve", version(protocol), UUID, false);
        let full = full_refresh::build_display_packets(&config, 4, 9, "Steve", version(protocol), UUID);
        let common = split
            .iter()
            .take_while(|p| !matches!(p, DisplayPacket::BossBarAdd { .. }))
            .count();
        assert_eq!(split[..common], full[..common]);
    }
}

#[test]
fn health_with_an_empty_total() {
    let config = QueueConfig::default();
    let packets = build_display_packets(&config, 0, 0, "Steve", version(767), UUID, true);
    assert_eq!(
        packets.last(),
        Some(&DisplayPacket::BossBarUpdate {
            uuid: UUID,
            title: s("Queue: 0/0"),
            health: BossBarHealth { ahead: 0, total: 0 },
        })
    );
}

#[test]
fn custom_boss_bar_colours_are_kept() {
    let mut config = QueueConfig::default();
    if let QueueBossBarConfig::Enabled(ref mut c) = config.boss_bar {
        c.color = BossBarColorConfig::Red;
        c.division = BossBarDivisionConfig::TwentyNotches;
        c.title = s("{player} waits");
    }
    let packets = build_display_packets(&config, 1, 1, "Zoe", version(107), UUID, false);
    assert_eq!(
        packets.last(),
        Some(&DisplayPacket::BossBarAdd {
            uuid: UUID,
            title: s("Zoe waits"),
            health: BossBarHealth { ahead: 0, total: 1 },
            color: BossBarColorConfig::Red,
            division: BossBarDivisionConfig::TwentyNotches,
        })
    );
}

#[test]
fn the_removed_boss_bar_is_the_added_one() {
    let config = QueueConfig::default();
    for protocol in [47, 106, 107, 767] {
        let first = build_display_packets(&config, 2, 3, "Steve", version(protocol), UUID, false);
        let added = first.iter().find_map(|p| match p {
            DisplayPacket::BossBarAdd { uuid, .. } => Some(*uuid),
            _ => None,
        });
        let removed = match build_boss_bar_remove_packet(&config, UUID, version(protocol)) {
            Some(DisplayPacket::BossBarRemove { uuid }) => Some(uuid),
            _ => None,
        };
        assert_eq!(added, removed);
    }
}

#[test]
fn eta_range_check() {
    let mut config = QueueConfig::default();
    assert!(eta_in_range(&config, 1000));
    assert!(!eta_in_range(&config, usize::MAX));
    config.push_interval_seconds = u64::MAX;
    assert!(eta_in_range(&config, 1));
    assert!(eta_in_range(&config, 2));
    assert!(!eta_in_range(&config, 3));
    config.push_count = 0;
    assert!(eta_in_range(&config, usize::MAX));
}

#[test]
fn which_refreshes_fill_text() {
    let mut config = QueueConfig::default();
    assert!(fills_text(&config, version(5)));
    config.tab_list = QueueTabListConfig::Disabled(DisabledQueueTabListConfig { enabled: false });
    assert!(!fills_text(&config, version(5)));
    assert!(fills_text(&config, version(47)));
    config.title = QueueTitleConfig::Disabled(DisabledQueueTitleConfig { enabled: false });
    assert!(fills_text(&config, version(47)));
    config.action_bar = QueueActionBarConfig::Disabled(DisabledQueueActionBarConfig { enabled: false });
    assert!(!fills_text(&config, version(47)));
    assert!(fills_text(&config, version(107)));
}

#[test]
fn refreshes_add_the_boss_bar_once() {
    let config = QueueConfig::default();
    let mut refresh = DisplayRefresh::new();
    let first = refresh.next_packets(&config, 3, 10, "Steve", version(767), UUID);
    assert!(matches!(first.last(), Some(DisplayPacket::BossBarAdd { .. })));
    for _ in 0..3 {
        let later = refresh.next_packets(&config, 2, 10, "Steve", version(767), UUID);
        assert!(matches!(later.last(), Some(DisplayPacket::BossBarUpdate { .. })));
        assert!(!later.iter().any(|p| matches!(p, DisplayPacket::BossBarAdd { .. })));
    }
}

#[test]
fn which_ticks_fill_text() {
    let mut config = QueueConfig::default();
    assert!(refresh_fills_text(&config, version(5)));
    assert!(!action_bar_fills_text(&config, version(5)));
    assert!(action_bar_fills_text(&config, version(47)));
    config.tab_list = QueueTabListConfig::Disabled(DisabledQueueTabListConfig { enabled: false });
    assert!(!refresh_fills_text(&config, version(5)));
    config.title = QueueTitleConfig::Disabled(DisabledQueueTitleConfig { enabled: false });
    assert!(!refresh_fills_text(&config, version(47)));
    assert!(refresh_fills_text(&config, version(107)));
    config.action_bar = QueueActionBarConfig::Disabled(DisabledQueueActionBarConfig { enabled: false });
    assert!(!action_bar_fills_text(&config, version(767)));
}
