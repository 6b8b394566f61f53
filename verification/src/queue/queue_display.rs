use crate::configuration::boss_bar::{BossBarColorConfig, BossBarDivisionConfig};
use crate::configuration::queue::{
    QueueActionBarConfig, QueueBossBarConfig, QueueConfig, QueueTabListConfig, QueueTitleConfig,
};
use crate::protocol::{ProtocolVersion, Uuid};
use crate::queue::placeholder::{apply_placeholders, eta_seconds, placeholders_applied};
use vstd::prelude::*;

verus! {

/// The health of the queue boss bar: `1 - ahead / total`, or full when `total` is 0.
#[derive(Clone, Copy, Debug, PartialEq, Eq, Structural)]
pub struct BossBarHealth {
    /// The number of players ahead in the queue.
    pub ahead: usize,
    /// The number of players in the queue.
    pub total: usize,
}

/// One display element sent to a queued player, with its texts still in
/// mini-message form. An element whose texts do not all parse is not sent.
#[derive(Debug, PartialEq, Eq)]
pub enum DisplayPacket<S> {
    /// The tab list header and footer.
    TabList { header: S, footer: S },
    /// Title timings, in ticks (1.17 and later).
    TitlesAnimation { fade_in: i32, stay: i32, fade_out: i32 },
    /// The title (1.17 and later).
    TitleText { text: S },
    /// The subtitle (1.17 and later).
    SubtitleText { text: S },
    /// Title timings, in ticks (before 1.17).
    LegacyTitlesAnimation { fade_in: i32, stay: i32, fade_out: i32 },
    /// The title (before 1.17).
    LegacyTitleText { text: S },
    /// The subtitle (before 1.17).
    LegacySubtitleText { text: S },
    /// The action bar (1.17 and later).
    ActionBarText { text: S },
    /// The action bar through the title packet (1.11 to 1.16).
    LegacyTitleActionBar { text: S },
    /// The action bar as a game-info chat message (before 1.11).
    LegacyChatGameInfo { text: S },
    /// Remove the boss bar, then add it again with this title and health.
    BossBarReplace {
        uuid: Uuid,
        title: S,
        health: BossBarHealth,
        color: BossBarColorConfig,
        division: BossBarDivisionConfig,
    },
    /// Add the boss bar.
    BossBarAdd {
        uuid: Uuid,
        title: S,
        health: BossBarHealth,
        color: BossBarColorConfig,
        division: BossBarDivisionConfig,
    },
    /// Update the boss bar's title, then its health, in place.
    BossBarUpdate { uuid: Uuid, title: S, health: BossBarHealth },
    /// Remove the boss bar.
    BossBarRemove { uuid: Uuid },
}

impl View for DisplayPacket<String> {
    type V = DisplayPacket<Seq<char>>;

    open spec fn view(&self) -> DisplayPacket<Seq<char>> {
        match self {
            DisplayPacket::TabList { header, footer } => DisplayPacket::TabList {
                header: header@,
                footer: footer@,
            },
            DisplayPacket::TitlesAnimation { fade_in, stay, fade_out } => DisplayPacket::TitlesAnimation {
                fade_in: *fade_in,
                stay: *stay,
                fade_out: *fade_out,
            },
            DisplayPacket::TitleText { text } => DisplayPacket::TitleText { text: text@ },
            DisplayPacket::SubtitleText { text } => DisplayPacket::SubtitleText { text: text@ },
            DisplayPacket::LegacyTitlesAnimation {
                fade_in,
                stay,
                fade_out,
            } => DisplayPacket::LegacyTitlesAnimation {
                fade_in: *fade_in,
                stay: *stay,
                fade_out: *fade_out,
            },
            DisplayPacket::LegacyTitleText { text } => DisplayPacket::LegacyTitleText {
                text: text@,
            },
            DisplayPacket::LegacySubtitleText { text } => DisplayPacket::LegacySubtitleText {
                text: text@,
            },
            DisplayPacket::ActionBarText { text } => DisplayPacket::ActionBarText { text: text@ },
            DisplayPacket::LegacyTitleActionBar { text } => DisplayPacket::LegacyTitleActionBar {
                text: text@,
            },
            DisplayPacket::LegacyChatGameInfo { text } => DisplayPacket::LegacyChatGameInfo {
                text: text@,
            },
            DisplayPacket::BossBarReplace {
                uuid,
                title,
                health,
                color,
                division,
            } => DisplayPacket::BossBarReplace {
                uuid: *uuid,
                title: title@,
                health: *health,
                color: *color,
                division: *division,
            },
            DisplayPacket::BossBarAdd {
                uuid,
                title,
                health,
                color,
                division,
            } => DisplayPacket::BossBarAdd {
                uuid: *uuid,
                title: title@,
                health: *health,
                color: *color,
                division: *division,
            },
            DisplayPacket::BossBarUpdate { uuid, title, health } => DisplayPacket::BossBarUpdate {
                uuid: *uuid,
                title: title@,
                health: *health,
            },
            DisplayPacket::BossBarRemove { uuid } => DisplayPacket::BossBarRemove { uuid: *uuid },
        }
    }
}

/// The views of a sequence of display elements.
pub open spec fn packet_views(packets: Seq<DisplayPacket<String>>) -> Seq<DisplayPacket<Seq<char>>> {
    packets.map_values(|p: DisplayPacket<String>| p@)
}

/// `text` with the queue placeholders filled in for this player.
pub open spec fn filled(
    config: QueueConfig,
    text: Seq<char>,
    position: usize,
    total: usize,
    username: Seq<char>,
) -> Seq<char> {
    placeholders_applied(
        text,
        position as nat,
        total as nat,
        username,
        config.push_interval_seconds as nat,
        config.push_count as nat,
    )
}

/// Whether the estimated wait of the player fits the seconds counter.
pub open spec fn eta_fits(config: QueueConfig, position: usize) -> bool {
    eta_seconds(position as nat, config.push_interval_seconds as nat, config.push_count as nat)
        <= u64::MAX
}

/// The boss bar health of the player at `position` in a queue of `total`.
pub open spec fn health_of(position: usize, total: usize) -> BossBarHealth {
    BossBarHealth {
        ahead: if position >= 1 {
            (position - 1) as usize
        } else {
            0
        },
        total,
    }
}

/// The tab list element, when the tab list is enabled.
pub open spec fn tab_list_packets(
    config: QueueConfig,
    position: usize,
    total: usize,
    username: Seq<char>,
) -> Seq<DisplayPacket<Seq<char>>> {
    match config.tab_list {
        QueueTabListConfig::Enabled(c) => seq![
            DisplayPacket::TabList {
                header: filled(config, c.header@, position, total, username),
                footer: filled(config, c.footer@, position, total, username),
            },
        ],
        QueueTabListConfig::Disabled(_) => seq![],
    }
}

/// The title elements, when the title is enabled and the client is 1.8 or later:
/// timings, title and subtitle, in the form the client's version understands.
pub open spec fn title_packets(
    config: QueueConfig,
    position: usize,
    total: usize,
    username: Seq<char>,
    protocol_version: ProtocolVersion,
) -> Seq<DisplayPacket<Seq<char>>> {
    if !protocol_version.at_least(ProtocolVersion::v1_8()) {
        seq![]
    } else {
        match config.title {
            QueueTitleConfig::Enabled(c) => {
                let title = filled(config, c.title@, position, total, username);
                let subtitle = filled(config, c.subtitle@, position, total, username);
                if protocol_version.at_least(ProtocolVersion::v1_17()) {
                    seq![
                        DisplayPacket::TitlesAnimation {
                            fade_in: c.fade_in,
                            stay: c.stay,
                            fade_out: c.fade_out,
                        },
                        DisplayPacket::TitleText { text: title },
                        DisplayPacket::SubtitleText { text: subtitle },
                    ]
                } else {
                    seq![
                        DisplayPacket::LegacyTitlesAnimation {
                            fade_in: c.fade_in,
                            stay: c.stay,
                            fade_out: c.fade_out,
                        },
                        DisplayPacket::LegacyTitleText { text: title },
                        DisplayPacket::LegacySubtitleText { text: subtitle },
                    ]
                }
            },
            QueueTitleConfig::Disabled(_) => seq![],
        }
    }
}

/// The action bar element, when the action bar is enabled and the client is 1.8 or
/// later, in the form the client's version understands.
pub open spec fn action_bar_packet(
    config: QueueConfig,
    position: usize,
    total: usize,
    username: Seq<char>,
    protocol_version: ProtocolVersion,
) -> Option<DisplayPacket<Seq<char>>> {
    if !protocol_version.at_least(ProtocolVersion::v1_8()) {
        None
    } else {
        match config.action_bar {
            QueueActionBarConfig::Enabled(c) => {
                let text = filled(config, c.text@, position, total, username);
                Some(
                    if protocol_version.at_least(ProtocolVersion::v1_17()) {
                        DisplayPacket::ActionBarText { text }
                    } else if protocol_version.at_least(ProtocolVersion::v1_11()) {
                        DisplayPacket::LegacyTitleActionBar { text }
                    } else {
                        DisplayPacket::LegacyChatGameInfo { text }
                    },
                )
            },
            QueueActionBarConfig::Disabled(_) => None,
        }
    }
}

/// The boss bar elements, when the boss bar is enabled and the client is 1.9 or
/// later: the boss bar is added on the first refresh and updated in place after.
pub open spec fn boss_bar_packets(
    config: QueueConfig,
    position: usize,
    total: usize,
    username: Seq<char>,
    protocol_version: ProtocolVersion,
    boss_bar_uuid: Uuid,
    boss_bar_initialized: bool,
) -> Seq<DisplayPacket<Seq<char>>> {
    if !protocol_version.at_least(ProtocolVersion::v1_9()) {
        seq![]
    } else {
        match config.boss_bar {
            QueueBossBarConfig::Enabled(c) => {
                let title = filled(config, c.title@, position, total, username);
                let health = health_of(position, total);
                if !boss_bar_initialized {
                    seq![
                        DisplayPacket::BossBarAdd {
                            uuid: boss_bar_uuid,
                            title,
                            health,
                            color: c.color,
                            division: c.division,
                        },
                    ]
                } else {
                    seq![DisplayPacket::BossBarUpdate { uuid: boss_bar_uuid, title, health }]
                }
            },
            QueueBossBarConfig::Disabled(_) => seq![],
        }
    }
}

/// The elements of a full display refresh: tab list, title, boss bar.
pub open spec fn display_packets(
    config: QueueConfig,
    position: usize,
    total: usize,
    username: Seq<char>,
    protocol_version: ProtocolVersion,
    boss_bar_uuid: Uuid,
    boss_bar_initialized: bool,
) -> Seq<DisplayPacket<Seq<char>>> {
    tab_list_packets(config, position, total, username) + title_packets(
        config,
        position,
        total,
        username,
        protocol_version,
    ) + boss_bar_packets(
        config,
        position,
        total,
        username,
        protocol_version,
        boss_bar_uuid,
        boss_bar_initialized,
    )
}

/// Whether a full display refresh fills any text in for this client.
pub open spec fn display_fills_text(config: QueueConfig, protocol_version: ProtocolVersion) -> bool {
    ||| config.tab_list is Enabled
    ||| protocol_version.at_least(ProtocolVersion::v1_8()) && config.title is Enabled
    ||| protocol_version.at_least(ProtocolVersion::v1_9()) && config.boss_bar is Enabled
}

/// The boss bar removal sent when the player leaves the queue, when the boss bar is
/// enabled and the client is 1.9 or later.
pub open spec fn boss_bar_remove_packet(
    config: QueueConfig,
    boss_bar_uuid: Uuid,
    protocol_version: ProtocolVersion,
) -> Option<DisplayPacket<Seq<char>>> {
    if protocol_version.at_least(ProtocolVersion::v1_9()) && config.boss_bar is Enabled {
        Some(DisplayPacket::BossBarRemove { uuid: boss_bar_uuid })
    } else {
        None
    }
}

/// The view of an optional display element.
pub open spec fn option_view(packet: Option<DisplayPacket<String>>) -> Option<DisplayPacket<Seq<char>>> {
    match packet {
        Some(p) => Some(p@),
        None => None,
    }
}

/// Whether the estimated wait of the player at `position` fits the seconds counter,
/// as filling the `{eta}` placeholder needs.
pub fn eta_in_range(config: &QueueConfig, position: usize) -> (fits: bool)
    ensures
        fits == eta_fits(*config, position),
{
    if config.push_count == 0 {
        true
    } else {
        let rounds: usize = position.saturating_sub(1) / config.push_count;
        (rounds as u64).checked_mul(config.push_interval_seconds).is_some()
    }
}

/// `text` with the queue placeholders filled in for this player.
pub(crate) fn fill(
    config: &QueueConfig,
    text: &str,
    position: usize,
    total: usize,
    username: &str,
) -> (res: String)
    requires
        eta_fits(*config, position),
    ensures
        res@ == filled(*config, text@, position, total, username@),
{
    apply_placeholders(
        text,
        position,
        total,
        username,
        config.push_interval_seconds,
        config.push_count,
    )
}


/// The tab list element, when the tab list is enabled.
pub(crate) fn tab_list_packet(
    config: &QueueConfig,
    position: usize,
    total: usize,
    username: &str,
) -> (packet: Option<DisplayPacket<String>>)
    requires
        config.tab_list is Enabled ==> eta_fits(*config, position),
    ensures
        match packet {
            Some(p) => seq![p@] == tab_list_packets(*config, position, total, username@),
            None => tab_list_packets(*config, position, total, username@) == Seq::<
                DisplayPacket<Seq<char>>,
            >::empty(),
        },
{
    match &config.tab_list {
        QueueTabListConfig::Enabled(tab_cfg) => {
            let header = fill(config, tab_cfg.header.as_str(), position, total, username);
            let footer = fill(config, tab_cfg.footer.as_str(), position, total, username);
            let packet = DisplayPacket::TabList { header, footer };
            assert(seq![packet@] =~= tab_list_packets(*config, position, total, username@));
            Some(packet)
        },
        QueueTabListConfig::Disabled(_) => {
            assert(tab_list_packets(*config, position, total, username@) =~= Seq::<
                DisplayPacket<Seq<char>>,
            >::empty());
            None
        },
    }
}

/// Appends the title elements for this client to `packets`.
pub(crate) fn push_title_packets(
    packets: &mut Vec<DisplayPacket<String>>,
    config: &QueueConfig,
    position: usize,
    total: usize,
    username: &str,
    protocol_version: ProtocolVersion,
)
    requires
        protocol_version.at_least(ProtocolVersion::v1_8()) && config.title is Enabled
            ==> eta_fits(*config, position),
    ensures
        packet_views(final(packets)@) == packet_views(old(packets)@) + title_packets(
            *config,
            position,
            total,
            username@,
            protocol_version,
        ),
{
    let ghost start = packets@;
    if protocol_version.is_after_inclusive(ProtocolVersion::v1_8()) {
        if let QueueTitleConfig::Enabled(title_cfg) = &config.title {
            let title_text = fill(config, title_cfg.title.as_str(), position, total, username);
            let subtitle_text = fill(
                config,
                title_cfg.subtitle.as_str(),
                position,
                total,
                username,
            );
            if protocol_version.is_after_inclusive(ProtocolVersion::v1_17()) {
                packets.push(
                    DisplayPacket::TitlesAnimation {
                        fade_in: title_cfg.fade_in,
                        stay: title_cfg.stay,
                        fade_out: title_cfg.fade_out,
                    },
                );
                packets.push(DisplayPacket::TitleText { text: title_text });
                packets.push(DisplayPacket::SubtitleText { text: subtitle_text });
            } else {
                packets.push(
                    DisplayPacket::LegacyTitlesAnimation {
                        fade_in: title_cfg.fade_in,
                        stay: title_cfg.stay,
                        fade_out: title_cfg.fade_out,
                    },
                );
                packets.push(DisplayPacket::LegacyTitleText { text: title_text });
                packets.push(DisplayPacket::LegacySubtitleText { text: subtitle_text });
            }
        }
    }
    assert(packet_views(packets@) =~= packet_views(start) + title_packets(
        *config,
        position,
        total,
        username@,
        protocol_version,
    ));
}

/// Build packets to send on every action-bar tick (every ~1s).
/// Only includes the action bar packet.
pub fn build_action_bar_packet(
    config: &QueueConfig,
    position: usize,
    total: usize,
    username: &str,
    protocol_version: ProtocolVersion,
) -> (packet: Option<DisplayPacket<String>>)
    requires
        protocol_version.at_least(ProtocolVersion::v1_8()) && config.action_bar is Enabled
            ==> eta_fits(*config, position),
    ensures
        option_view(packet) == action_bar_packet(
            *config,
            position,
            total,
            username@,
            protocol_version,
        ),
{
    if !protocol_version.is_after_inclusive(ProtocolVersion::v1_8()) {
        return None;
    }
    let ab_cfg = match &config.action_bar {
        QueueActionBarConfig::Enabled(ab_cfg) => ab_cfg,
        QueueActionBarConfig::Disabled(_) => {
            return None;
        },
    };
    let text = fill(config, ab_cfg.text.as_str(), position, total, username);
    if protocol_version.is_after_inclusive(ProtocolVersion::v1_17()) {
        Some(DisplayPacket::ActionBarText { text })
    } else if protocol_version.is_after_inclusive(ProtocolVersion::v1_11()) {
        Some(DisplayPacket::LegacyTitleActionBar { text })
    } else {
        Some(DisplayPacket::LegacyChatGameInfo { text })
    }
}

/// Build packets sent on each full refresh tick (tab list, title, boss bar).
/// `boss_bar_initialized` should be `false` on the very first call so the boss bar
/// is added; `true` on subsequent calls so only update packets are sent (no flicker).
pub fn build_display_packets(
    config: &QueueConfig,
    position: usize,
    total: usize,
    username: &str,
    protocol_version: ProtocolVersion,
    boss_bar_uuid: Uuid,
    boss_bar_initialized: bool,
) -> (packets: Vec<DisplayPacket<String>>)
    requires
        display_fills_text(*config, protocol_version) ==> eta_fits(*config, position),
    ensures
        packet_views(packets@) == display_packets(
            *config,
            position,
            total,
            username@,
            protocol_version,
            boss_bar_uuid,
            boss_bar_initialized,
        ),
{
    let mut packets: Vec<DisplayPacket<String>> = Vec::new();
    if let Some(tab) = tab_list_packet(config, position, total, username) {
        packets.push(tab);
    }
    assert(packet_views(packets@) =~= tab_list_packets(*config, position, total, username@));
    push_title_packets(&mut packets, config, position, total, username, protocol_version);
    let ghost before_boss = packets@;
    if protocol_version.is_after_inclusive(ProtocolVersion::v1_9()) {
        if let QueueBossBarConfig::Enabled(bb_cfg) = &config.boss_bar {
            let title = fill(config, bb_cfg.title.as_str(), position, total, username);
            let health = BossBarHealth { ahead: position.saturating_sub(1), total };
            if !boss_bar_initialized {
                packets.push(
                    DisplayPacket::BossBarAdd {
                        uuid: boss_bar_uuid,
                        title,
                        health,
                        color: bb_cfg.color,
                        division: bb_cfg.division,
                    },
                );
            } else {
                packets.push(DisplayPacket::BossBarUpdate { uuid: boss_bar_uuid, title, health });
            }
        }
    }
    assert(packet_views(packets@) =~= packet_views(before_boss) + boss_bar_packets(
        *config,
        position,
        total,
        username@,
        protocol_version,
        boss_bar_uuid,
        boss_bar_initialized,
    ));
    packets
}

/// Whether a full display refresh fills any text in for this client.
pub fn refresh_fills_text(config: &QueueConfig, protocol_version: ProtocolVersion) -> (fills:
    bool)
    ensures
        fills == display_fills_text(*config, protocol_version),
{
    let tab_list_on = match &config.tab_list {
        QueueTabListConfig::Enabled(_) => true,
        QueueTabListConfig::Disabled(_) => false,
    };
    let title_on = match &config.title {
        QueueTitleConfig::Enabled(_) => true,
        QueueTitleConfig::Disabled(_) => false,
    };
    let boss_bar_on = match &config.boss_bar {
        QueueBossBarConfig::Enabled(_) => true,
        QueueBossBarConfig::Disabled(_) => false,
    };
    tab_list_on || (protocol_version.is_after_inclusive(ProtocolVersion::v1_8()) && title_on) || (
    protocol_version.is_after_inclusive(ProtocolVersion::v1_9()) && boss_bar_on)
}

/// Whether an action bar tick fills a text in for this client.
pub fn action_bar_fills_text(config: &QueueConfig, protocol_version: ProtocolVersion) -> (fills:
    bool)
    ensures
        fills == (protocol_version.at_least(ProtocolVersion::v1_8())
            && config.action_bar is Enabled),
{
    match &config.action_bar {
        QueueActionBarConfig::Enabled(_) => protocol_version.is_after_inclusive(
            ProtocolVersion::v1_8(),
        ),
        QueueActionBarConfig::Disabled(_) => false,
    }
}

/// The refreshes of one queued player's display, which remember whether the boss
/// bar was added yet.
pub struct DisplayRefresh {
    boss_bar_initialized: bool,
}

impl DisplayRefresh {
    /// Whether the boss bar was added by an earlier refresh.
    pub closed spec fn initialized(self) -> bool {
        self.boss_bar_initialized
    }

    /// The refreshes of a player who has seen none yet.
    pub fn new() -> (refresh: Self)
        ensures
            !refresh.initialized(),
    {
        DisplayRefresh { boss_bar_initialized: false }
    }

    /// The elements of the next refresh: the first adds the boss bar, every later one
    /// updates it in place.
    pub fn next_packets(
        &mut self,
        config: &QueueConfig,
        position: usize,
        total: usize,
        username: &str,
        protocol_version: ProtocolVersion,
        boss_bar_uuid: Uuid,
    ) -> (packets: Vec<DisplayPacket<String>>)
        requires
            display_fills_text(*config, protocol_version) ==> eta_fits(*config, position),
        ensures
            packet_views(packets@) == display_packets(
                *config,
                position,
                total,
                username@,
                protocol_version,
                boss_bar_uuid,
                old(self).initialized(),
            ),
            final(self).initialized(),
    {
        let packets = build_display_packets(
            config,
            position,
            total,
            username,
            protocol_version,
            boss_bar_uuid,
            self.boss_bar_initialized,
        );
        self.boss_bar_initialized = true;
        packets
    }
}

/// The boss bar removal sent when the player leaves the queue, when the boss bar is
/// enabled and the client is 1.9 or later.
pub fn build_boss_bar_remove_packet(
    config: &QueueConfig,
    boss_bar_uuid: Uuid,
    protocol_version: ProtocolVersion,
) -> (packet: Option<DisplayPacket<String>>)
    ensures
        option_view(packet) == boss_bar_remove_packet(*config, boss_bar_uuid, protocol_version),
{
    if protocol_version.is_after_inclusive(ProtocolVersion::v1_9()) {
        if let QueueBossBarConfig::Enabled(_) = &config.boss_bar {
            return Some(DisplayPacket::BossBarRemove { uuid: boss_bar_uuid });
        }
    }
    None
}


/// On the first refresh the boss bar is added, once, as the last element; on later
/// refreshes it is only updated, never added or removed again.
pub proof fn lemma_boss_bar_added_once(
    config: QueueConfig,
    position: usize,
    total: usize,
    username: Seq<char>,
    protocol_version: ProtocolVersion,
    boss_bar_uuid: Uuid,
    boss_bar_initialized: bool,
)
    ensures
        boss_bar_initialized ==> forall|i: int|
            0 <= i < display_packets(
                config,
                position,
                total,
                username,
                protocol_version,
                boss_bar_uuid,
                boss_bar_initialized,
            ).len() ==> {
                let p = #[trigger] display_packets(
                    config,
                    position,
                    total,
                    username,
                    protocol_version,
                    boss_bar_uuid,
                    boss_bar_initialized,
                )[i];
                !(p is BossBarAdd) && !(p is BossBarRemove) && !(p is BossBarReplace)
            },
        !boss_bar_initialized && protocol_version.at_least(ProtocolVersion::v1_9())
            && config.boss_bar is Enabled ==> (display_packets(
            config,
            position,
            total,
            username,
            protocol_version,
            boss_bar_uuid,
            boss_bar_initialized,
        ).last() matches DisplayPacket::BossBarAdd { uuid, .. } && uuid == boss_bar_uuid),
{
    let front = tab_list_packets(config, position, total, username) + title_packets(
        config,
        position,
        total,
        username,
        protocol_version,
    );
    let boss = boss_bar_packets(
        config,
        position,
        total,
        username,
        protocol_version,
        boss_bar_uuid,
        boss_bar_initialized,
    );
    let all = display_packets(
        config,
        position,
        total,
        username,
        protocol_version,
        boss_bar_uuid,
        boss_bar_initialized,
    );
    assert(all == front + boss);
    assert forall|i: int| 0 <= i < front.len() implies !(front[i] is BossBarAdd) && !(
    front[i] is BossBarRemove) && !(front[i] is BossBarReplace) by {
        let tab = tab_list_packets(config, position, total, username);
        if i >= tab.len() {
            assert(front[i] == title_packets(
                config,
                position,
                total,
                username,
                protocol_version,
            )[i - tab.len()]);
        }
    }
    if boss_bar_initialized {
        assert forall|i: int| 0 <= i < all.len() implies !(all[i] is BossBarAdd) && !(
        all[i] is BossBarRemove) && !(all[i] is BossBarReplace) by {
            if i >= front.len() {
                assert(all[i] == boss[i - front.len()]);
            } else {
                assert(all[i] == front[i]);
            }
        }
    }
}

/// The boss bar removed when the player leaves the queue is the one the first
/// refresh added: there is a removal exactly when there was an addition, for the
/// same boss bar.
pub proof fn lemma_remove_matches_add(
    config: QueueConfig,
    position: usize,
    total: usize,
    username: Seq<char>,
    protocol_version: ProtocolVersion,
    boss_bar_uuid: Uuid,
)
    ensures
        boss_bar_remove_packet(config, boss_bar_uuid, protocol_version) is Some <==> boss_bar_packets(
            config,
            position,
            total,
            username,
            protocol_version,
            boss_bar_uuid,
            false,
        ).len() == 1,
        boss_bar_remove_packet(config, boss_bar_uuid, protocol_version) is Some ==> (
        boss_bar_packets(
            config,
            position,
            total,
            username,
            protocol_version,
            boss_bar_uuid,
            false,
        )[0] matches DisplayPacket::BossBarAdd { uuid, .. } && boss_bar_remove_packet(
            config,
            boss_bar_uuid,
            protocol_version,
        ) == Some(DisplayPacket::<Seq<char>>::BossBarRemove { uuid })),
{
}

/// A client older than 1.8 is shown the tab list alone: no title, no action bar and
/// no boss bar.
pub proof fn lemma_old_clients_tab_list_only(
    config: QueueConfig,
    position: usize,
    total: usize,
    username: Seq<char>,
    protocol_version: ProtocolVersion,
    boss_bar_uuid: Uuid,
    boss_bar_initialized: bool,
)
    requires
        !protocol_version.at_least(ProtocolVersion::v1_8()),
    ensures
        display_packets(
            config,
            position,
            total,
            username,
            protocol_version,
            boss_bar_uuid,
            boss_bar_initialized,
        ) == tab_list_packets(config, position, total, username),
        action_bar_packet(config, position, total, username, protocol_version) is None,
        boss_bar_remove_packet(config, boss_bar_uuid, protocol_version) is None,
{
    assert(display_packets(
        config,
        position,
        total,
        username,
        protocol_version,
        boss_bar_uuid,
        boss_bar_initialized,
    ) =~= tab_list_packets(config, position, total, username));
}

/// The boss bar of the player at the front is full, and a queued player's boss bar
/// never runs empty.
pub proof fn lemma_health_bounds(position: usize, total: usize)
    requires
        1 <= position <= total,
    ensures
        health_of(1, total).ahead == 0,
        health_of(position, total).ahead < health_of(position, total).total,
{
}


/// The title elements a client is sent, by its protocol number: none below 1.8
/// (protocol 47); the legacy title packets from 1.8 up to, not including, 1.17
/// (protocol 755); and from 1.17 on, the timings, the title and the subtitle
/// packets, each text with its placeholders filled. In a refresh they follow the tab
/// list element.
pub proof fn lemma_title_elements_by_version(
    config: QueueConfig,
    position: usize,
    total: usize,
    username: Seq<char>,
    protocol_version: ProtocolVersion,
    boss_bar_uuid: Uuid,
    boss_bar_initialized: bool,
)
    ensures
        (protocol_version.protocol < 47 || config.title is Disabled) ==> title_packets(
            config,
            position,
            total,
            username,
            protocol_version,
        ).len() == 0,
        config.title matches QueueTitleConfig::Enabled(c) ==> ({
            let t = title_packets(config, position, total, username, protocol_version);
            let title = placeholders_applied(
                c.title@,
                position as nat,
                total as nat,
                username,
                config.push_interval_seconds as nat,
                config.push_count as nat,
            );
            let subtitle = placeholders_applied(
                c.subtitle@,
                position as nat,
                total as nat,
                username,
                config.push_interval_seconds as nat,
                config.push_count as nat,
            );
            &&& protocol_version.protocol >= 755 ==> t == seq![
                DisplayPacket::TitlesAnimation {
                    fade_in: c.fade_in,
                    stay: c.stay,
                    fade_out: c.fade_out,
                },
                DisplayPacket::TitleText { text: title },
                DisplayPacket::SubtitleText { text: subtitle },
            ]
            &&& 47 <= protocol_version.protocol < 755 ==> t == seq![
                DisplayPacket::LegacyTitlesAnimation {
                    fade_in: c.fade_in,
                    stay: c.stay,
                    fade_out: c.fade_out,
                },
                DisplayPacket::LegacyTitleText { text: title },
                DisplayPacket::LegacySubtitleText { text: subtitle },
            ]
        }),
        ({
            let d = display_packets(
                config,
                position,
                total,
                username,
                protocol_version,
                boss_bar_uuid,
                boss_bar_initialized,
            );
            let k: int = if config.tab_list is Enabled {
                1
            } else {
                0
            };
            let t = title_packets(config, position, total, username, protocol_version);
            &&& d.len() >= k + t.len()
            &&& forall|i: int| 0 <= i < t.len() ==> d[k + i] == #[trigger] t[i]
        }),
{
    let tab = tab_list_packets(config, position, total, username);
    let t = title_packets(config, position, total, username, protocol_version);
    let boss = boss_bar_packets(
        config,
        position,
        total,
        username,
        protocol_version,
        boss_bar_uuid,
        boss_bar_initialized,
    );
    let d = display_packets(
        config,
        position,
        total,
        username,
        protocol_version,
        boss_bar_uuid,
        boss_bar_initialized,
    );
    assert(d == tab + t + boss);
    assert forall|i: int| 0 <= i < t.len() implies d[tab.len() + i] == #[trigger] t[i] by {
        assert((tab + t)[tab.len() + i] == t[i]);
    }
}

/// The tab list element comes first in every refresh, for every client version,
/// with its header and footer filled in.
pub proof fn lemma_tab_list_first(
    config: QueueConfig,
    position: usize,
    total: usize,
    username: Seq<char>,
    protocol_version: ProtocolVersion,
    boss_bar_uuid: Uuid,
    boss_bar_initialized: bool,
)
    ensures
        config.tab_list matches QueueTabListConfig::Enabled(c) ==> display_packets(
            config,
            position,
            total,
            username,
            protocol_version,
            boss_bar_uuid,
            boss_bar_initialized,
        )[0] == (DisplayPacket::<Seq<char>>::TabList {
            header: placeholders_applied(
                c.header@,
                position as nat,
                total as nat,
                username,
                config.push_interval_seconds as nat,
                config.push_count as nat,
            ),
            footer: placeholders_applied(
                c.footer@,
                position as nat,
                total as nat,
                username,
                config.push_interval_seconds as nat,
                config.push_count as nat,
            ),
        }),
        config.tab_list is Disabled ==> forall|i: int|
            0 <= i < display_packets(
                config,
                position,
                total,
                username,
                protocol_version,
                boss_bar_uuid,
                boss_bar_initialized,
            ).len() ==> !(#[trigger] display_packets(
                config,
                position,
                total,
                username,
                protocol_version,
                boss_bar_uuid,
                boss_bar_initialized,
            )[i] is TabList),
{
    let tab = tab_list_packets(config, position, total, username);
    let t = title_packets(config, position, total, username, protocol_version);
    let boss = boss_bar_packets(
        config,
        position,
        total,
        username,
        protocol_version,
        boss_bar_uuid,
        boss_bar_initialized,
    );
    let d = display_packets(
        config,
        position,
        total,
        username,
        protocol_version,
        boss_bar_uuid,
        boss_bar_initialized,
    );
    assert(d == tab + t + boss);
    if config.tab_list is Disabled {
        assert forall|i: int| 0 <= i < d.len() implies !(#[trigger] d[i] is TabList) by {
            if i < t.len() {
                assert(d[i] == t[i]);
            } else {
                assert(d[i] == boss[i - t.len()]);
            }
        }
    }
}

/// The action bar element a client is sent, by its protocol number: none below 1.8
/// (protocol 47) or when disabled; a game-info chat message up to 1.11 (protocol
/// 315); the title packet's action bar up to 1.17 (protocol 755); the action bar
/// packet from 1.17 on. Its text has the placeholders filled.
pub proof fn lemma_action_bar_by_version(
    config: QueueConfig,
    position: usize,
    total: usize,
    username: Seq<char>,
    protocol_version: ProtocolVersion,
)
    ensures
        (protocol_version.protocol < 47 || config.action_bar is Disabled) ==> action_bar_packet(
            config,
            position,
            total,
            username,
            protocol_version,
        ) is None,
        config.action_bar matches QueueActionBarConfig::Enabled(c) ==> ({
            let a = action_bar_packet(config, position, total, username, protocol_version);
            let text = placeholders_applied(
                c.text@,
                position as nat,
                total as nat,
                username,
                config.push_interval_seconds as nat,
                config.push_count as nat,
            );
            &&& protocol_version.protocol >= 755 ==> a == Some(
                DisplayPacket::ActionBarText { text },
            )
            &&& 315 <= protocol_version.protocol < 755 ==> a == Some(
                DisplayPacket::LegacyTitleActionBar { text },
            )
            &&& 47 <= protocol_version.protocol < 315 ==> a == Some(
                DisplayPacket::LegacyChatGameInfo { text },
            )
        }),
{
}

/// The boss bar elements a client is sent, by its protocol number: none below 1.9
/// (protocol 107) or when disabled; otherwise the boss bar is added on the first
/// refresh and updated in place later, with its title filled in and its health
/// counting the players ahead. The removal is sent exactly to the same clients.
pub proof fn lemma_boss_bar_by_version(
    config: QueueConfig,
    position: usize,
    total: usize,
    username: Seq<char>,
    protocol_version: ProtocolVersion,
    boss_bar_uuid: Uuid,
    boss_bar_initialized: bool,
)
    ensures
        (protocol_version.protocol < 107 || config.boss_bar is Disabled) ==> boss_bar_packets(
            config,
            position,
            total,
            username,
            protocol_version,
            boss_bar_uuid,
            boss_bar_initialized,
        ).len() == 0,
        config.boss_bar matches QueueBossBarConfig::Enabled(c) ==> ({
            let b = boss_bar_packets(
                config,
                position,
                total,
                username,
                protocol_version,
                boss_bar_uuid,
                boss_bar_initialized,
            );
            let title = placeholders_applied(
                c.title@,
                position as nat,
                total as nat,
                username,
                config.push_interval_seconds as nat,
                config.push_count as nat,
            );
            let health = BossBarHealth {
                ahead: if position == 0 {
                    0
                } else {
                    (position - 1) as usize
                },
                total,
            };
            &&& protocol_version.protocol >= 107 && !boss_bar_initialized ==> b == seq![
                DisplayPacket::BossBarAdd {
                    uuid: boss_bar_uuid,
                    title,
                    health,
                    color: c.color,
                    division: c.division,
                },
            ]
            &&& protocol_version.protocol >= 107 && boss_bar_initialized ==> b == seq![
                DisplayPacket::BossBarUpdate { uuid: boss_bar_uuid, title, health },
            ]
        }),
        boss_bar_remove_packet(config, boss_bar_uuid, protocol_version) == if protocol_version.protocol
            >= 107 && config.boss_bar is Enabled {
            Some(DisplayPacket::<Seq<char>>::BossBarRemove { uuid: boss_bar_uuid })
        } else {
            None
        },
{
}

} // verus!
