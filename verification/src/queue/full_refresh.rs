use crate::configuration::queue::{
    QueueActionBarConfig, QueueBossBarConfig, QueueConfig, QueueTabListConfig, QueueTitleConfig,
};
use crate::protocol::{ProtocolVersion, Uuid};
use crate::queue::queue_display::{
    action_bar_packet, boss_bar_packets, display_packets, build_action_bar_packet, display_fills_text, eta_fits, fill, filled,
    health_of, packet_views, push_title_packets, tab_list_packet, tab_list_packets, title_packets,
    BossBarHealth, DisplayPacket,
};
use vstd::prelude::*;

pub use crate::queue::queue_display::build_boss_bar_remove_packet;

verus! {

/// The one-element sequence of an element, or the empty sequence.
pub open spec fn option_seq(packet: Option<DisplayPacket<Seq<char>>>) -> Seq<DisplayPacket<Seq<char>>> {
    match packet {
        Some(p) => seq![p],
        None => seq![],
    }
}

/// The boss bar element of a full refresh, when the boss bar is enabled and the
/// client is 1.9 or later: the boss bar is removed and added again.
pub open spec fn boss_bar_replace_packets(
    config: QueueConfig,
    position: usize,
    total: usize,
    username: Seq<char>,
    protocol_version: ProtocolVersion,
    boss_bar_uuid: Uuid,
) -> Seq<DisplayPacket<Seq<char>>> {
    if !protocol_version.at_least(ProtocolVersion::v1_9()) {
        seq![]
    } else {
        match config.boss_bar {
            QueueBossBarConfig::Enabled(c) => seq![
                DisplayPacket::BossBarReplace {
                    uuid: boss_bar_uuid,
                    title: filled(config, c.title@, position, total, username),
                    health: health_of(position, total),
                    color: c.color,
                    division: c.division,
                },
            ],
            QueueBossBarConfig::Disabled(_) => seq![],
        }
    }
}

/// The elements of a refresh that redraws everything: tab list, title, action bar,
/// and the boss bar removed and added again.
pub open spec fn full_refresh_packets(
    config: QueueConfig,
    position: usize,
    total: usize,
    username: Seq<char>,
    protocol_version: ProtocolVersion,
    boss_bar_uuid: Uuid,
) -> Seq<DisplayPacket<Seq<char>>> {
    tab_list_packets(config, position, total, username) + title_packets(
        config,
        position,
        total,
        username,
        protocol_version,
    ) + option_seq(action_bar_packet(config, position, total, username, protocol_version))
        + boss_bar_replace_packets(
        config,
        position,
        total,
        username,
        protocol_version,
        boss_bar_uuid,
    )
}

/// Whether a redraw of everything fills any text in for this client.
pub open spec fn full_refresh_fills_text(
    config: QueueConfig,
    protocol_version: ProtocolVersion,
) -> bool {
    ||| display_fills_text(config, protocol_version)
    ||| protocol_version.at_least(ProtocolVersion::v1_8()) && config.action_bar is Enabled
}

/// Whether a redraw of everything fills any text in for this client.
pub fn fills_text(config: &QueueConfig, protocol_version: ProtocolVersion) -> (fills: bool)
    ensures
        fills == full_refresh_fills_text(*config, protocol_version),
{
    let titles = protocol_version.is_after_inclusive(ProtocolVersion::v1_8());
    let boss_bar = protocol_version.is_after_inclusive(ProtocolVersion::v1_9());
    let tab_list_on = match &config.tab_list {
        QueueTabListConfig::Enabled(_) => true,
        QueueTabListConfig::Disabled(_) => false,
    };
    let title_on = match &config.title {
        QueueTitleConfig::Enabled(_) => true,
        QueueTitleConfig::Disabled(_) => false,
    };
    let action_bar_on = match &config.action_bar {
        QueueActionBarConfig::Enabled(_) => true,
        QueueActionBarConfig::Disabled(_) => false,
    };
    let boss_bar_on = match &config.boss_bar {
        QueueBossBarConfig::Enabled(_) => true,
        QueueBossBarConfig::Disabled(_) => false,
    };
    tab_list_on || (titles && (title_on || action_bar_on)) || (boss_bar && boss_bar_on)
}

/// Build the packets that redraw the whole queue display: tab list, title, action
/// bar, and the boss bar (removed, then added again with the current title and
/// health).
pub fn build_display_packets(
    config: &QueueConfig,
    position: usize,
    total: usize,
    username: &str,
    protocol_version: ProtocolVersion,
    boss_bar_uuid: Uuid,
) -> (packets: Vec<DisplayPacket<String>>)
    requires
        full_refresh_fills_text(*config, protocol_version) ==> eta_fits(*config, position),
    ensures
        packet_views(packets@) == full_refresh_packets(
            *config,
            position,
            total,
            username@,
            protocol_version,
            boss_bar_uuid,
        ),
{
    let mut packets: Vec<DisplayPacket<String>> = Vec::new();
    if let Some(tab) = tab_list_packet(config, position, total, username) {
        packets.push(tab);
    }
    assert(packet_views(packets@) =~= tab_list_packets(*config, position, total, username@));
    push_title_packets(&mut packets, config, position, total, username, protocol_version);
    let ghost before_action_bar = packets@;
    if let Some(action_bar) = build_action_bar_packet(
        config,
        position,
        total,
        username,
        protocol_version,
    ) {
        packets.push(action_bar);
    }
    assert(packet_views(packets@) =~= packet_views(before_action_bar) + option_seq(
        action_bar_packet(*config, position, total, username@, protocol_version),
    ));
    let ghost before_boss = packets@;
    if protocol_version.is_after_inclusive(ProtocolVersion::v1_9()) {
        if let QueueBossBarConfig::Enabled(bb_cfg) = &config.boss_bar {
            let title = fill(config, bb_cfg.title.as_str(), position, total, username);
            let health = BossBarHealth { ahead: position.saturating_sub(1), total };
            packets.push(
                DisplayPacket::BossBarReplace {
                    uuid: boss_bar_uuid,
                    title,
                    health,
                    color: bb_cfg.color,
                    division: bb_cfg.division,
                },
            );
        }
    }
    assert(packet_views(packets@) =~= packet_views(before_boss) + boss_bar_replace_packets(
        *config,
        position,
        total,
        username@,
        protocol_version,
        boss_bar_uuid,
    ));
    packets
}


/// The boss bar element a redraw re-adds carries what the first refresh of the
/// in-place style adds.
pub open spec fn same_boss_bar(replace: DisplayPacket<Seq<char>>, add: DisplayPacket<Seq<char>>) -> bool {
    match replace {
        DisplayPacket::BossBarReplace { uuid, title, health, color, division } => add
            == DisplayPacket::<Seq<char>>::BossBarAdd { uuid, title, health, color, division },
        _ => false,
    }
}

/// Both refresh styles begin with the same tab list and title; a redraw then shows
/// the action bar that the action bar tick shows, and draws the boss bar with the
/// same title, health, colour and division that the first in-place refresh adds.
pub proof fn lemma_refresh_styles_agree(
    config: QueueConfig,
    position: usize,
    total: usize,
    username: Seq<char>,
    protocol_version: ProtocolVersion,
    boss_bar_uuid: Uuid,
)
    ensures
        full_refresh_packets(config, position, total, username, protocol_version, boss_bar_uuid)
            == display_packets(
            config,
            position,
            total,
            username,
            protocol_version,
            boss_bar_uuid,
            false,
        ).take(
            (tab_list_packets(config, position, total, username).len() + title_packets(
                config,
                position,
                total,
                username,
                protocol_version,
            ).len()) as int,
        ) + option_seq(action_bar_packet(config, position, total, username, protocol_version))
            + boss_bar_replace_packets(
            config,
            position,
            total,
            username,
            protocol_version,
            boss_bar_uuid,
        ),
        boss_bar_replace_packets(
            config,
            position,
            total,
            username,
            protocol_version,
            boss_bar_uuid,
        ).len() == boss_bar_packets(
            config,
            position,
            total,
            username,
            protocol_version,
            boss_bar_uuid,
            false,
        ).len(),
        forall|i: int|
            0 <= i < boss_bar_replace_packets(
                config,
                position,
                total,
                username,
                protocol_version,
                boss_bar_uuid,
            ).len() ==> same_boss_bar(
                #[trigger] boss_bar_replace_packets(
                    config,
                    position,
                    total,
                    username,
                    protocol_version,
                    boss_bar_uuid,
                )[i],
                boss_bar_packets(
                    config,
                    position,
                    total,
                    username,
                    protocol_version,
                    boss_bar_uuid,
                    false,
                )[i],
            ),
{
    let front = tab_list_packets(config, position, total, username) + title_packets(
        config,
        position,
        total,
        username,
        protocol_version,
    );
    let boss = boss_bar_packets(
        config,
        position,
        total,
        username,
        protocol_version,
        boss_bar_uuid,
        false,
    );
    assert((front + boss).take(front.len() as int) =~= front);
}

} // verus!
