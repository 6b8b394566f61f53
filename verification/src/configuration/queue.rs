use crate::configuration::boss_bar::{BossBarColorConfig, BossBarDivisionConfig};
use vstd::prelude::*;

verus! {

/// The queue section of the server configuration.
#[derive(Clone, Debug, PartialEq, Eq)]
pub struct QueueConfig {
    pub enabled: bool,
    pub push_interval_seconds: u64,
    pub push_count: usize,
    pub refresh_interval_seconds: u64,
    pub push_method: QueuePushMethodConfig,
    pub tab_list: QueueTabListConfig,
    pub title: QueueTitleConfig,
    pub action_bar: QueueActionBarConfig,
    pub boss_bar: QueueBossBarConfig,
}

impl Default for QueueConfig {
    /// Queue disabled; one player pushed every 5 seconds; display refreshed every
    /// 3 seconds; each section at its own default.
    fn default() -> (config: Self)
        ensures
            !config.enabled,
            config.push_interval_seconds == 5,
            config.push_count == 1,
            config.refresh_interval_seconds == 3,
            config.push_method.is_default(),
            config.tab_list.is_default(),
            config.title.is_default(),
            config.action_bar.is_default(),
            config.boss_bar.is_default(),
    {
        QueueConfig {
            enabled: false,
            push_interval_seconds: 5,
            push_count: 1,
            refresh_interval_seconds: 3,
            push_method: QueuePushMethodConfig::default(),
            tab_list: QueueTabListConfig::default(),
            title: QueueTitleConfig::default(),
            action_bar: QueueActionBarConfig::default(),
            boss_bar: QueueBossBarConfig::default(),
        }
    }
}

/// How a player at the front of the queue is sent on.
#[derive(Clone, Debug, PartialEq, Eq)]
pub enum QueuePushMethodConfig {
    /// Disconnect the player with a message; a proxy routes them on.
    Kick { kick_message: String },
    /// Send the player to another server (1.20.5 and later).
    Transfer { host: String, port: u16 },
}

impl QueuePushMethodConfig {
    /// The default push method: a kick with a fixed message.
    pub open spec fn is_default(self) -> bool {
        self matches QueuePushMethodConfig::Kick { kick_message }
            && kick_message@ == "You have been moved to the main server."@
    }
}

impl Default for QueuePushMethodConfig {
    fn default() -> (method: Self)
        ensures
            method.is_default(),
    {
        QueuePushMethodConfig::Kick {
            kick_message: "You have been moved to the main server.".to_string(),
        }
    }
}

/// The tab list header and footer shown while queued.
#[derive(Clone, Debug, PartialEq, Eq)]
pub enum QueueTabListConfig {
    Enabled(EnabledQueueTabListConfig),
    Disabled(DisabledQueueTabListConfig),
}

/// A tab list shown while queued.
#[derive(Clone, Debug, PartialEq, Eq)]
pub struct EnabledQueueTabListConfig {
    pub enabled: bool,
    pub header: String,
    pub footer: String,
}

/// No tab list while queued.
#[derive(Clone, Debug, PartialEq, Eq)]
pub struct DisabledQueueTabListConfig {
    pub enabled: bool,
}

impl QueueTabListConfig {
    /// The default tab list: enabled, with a bold "Queue" header and the position in
    /// the footer.
    pub open spec fn is_default(self) -> bool {
        self matches QueueTabListConfig::Enabled(c) && c.enabled
            && c.header@ == "<bold>Queue</bold>"@
            && c.footer@ == "Position: {position}/{total}"@
    }
}

impl Default for QueueTabListConfig {
    fn default() -> (tab_list: Self)
        ensures
            tab_list.is_default(),
    {
        QueueTabListConfig::Enabled(
            EnabledQueueTabListConfig {
                enabled: true,
                header: "<bold>Queue</bold>".to_string(),
                footer: "Position: {position}/{total}".to_string(),
            },
        )
    }
}

/// The title and subtitle shown while queued.
#[derive(Clone, Debug, PartialEq, Eq)]
pub enum QueueTitleConfig {
    Enabled(EnabledQueueTitleConfig),
    Disabled(DisabledQueueTitleConfig),
}

/// A title shown while queued, with its timings in ticks.
#[derive(Clone, Debug, PartialEq, Eq)]
pub struct EnabledQueueTitleConfig {
    pub enabled: bool,
    pub title: String,
    pub subtitle: String,
    pub fade_in: i32,
    pub stay: i32,
    pub fade_out: i32,
}

/// No title while queued.
#[derive(Clone, Debug, PartialEq, Eq)]
pub struct DisabledQueueTitleConfig {
    pub enabled: bool,
}

impl QueueTitleConfig {
    /// The default title: enabled, a bold "Queue" title, the position in the
    /// subtitle, no fades, shown for as long as an `i32` allows.
    pub open spec fn is_default(self) -> bool {
        self matches QueueTitleConfig::Enabled(c) && c.enabled
            && c.title@ == "<bold>Queue</bold>"@
            && c.subtitle@ == "Position: {position} of {total}"@
            && c.fade_in == 0
            && c.stay == 2147483647
            && c.fade_out == 0
    }
}

impl Default for QueueTitleConfig {
    fn default() -> (title: Self)
        ensures
            title.is_default(),
    {
        QueueTitleConfig::Enabled(
            EnabledQueueTitleConfig {
                enabled: true,
                title: "<bold>Queue</bold>".to_string(),
                subtitle: "Position: {position} of {total}".to_string(),
                fade_in: 0,
                stay: 2147483647,
                fade_out: 0,
            },
        )
    }
}

/// The action bar text shown while queued.
#[derive(Clone, Debug, PartialEq, Eq)]
pub enum QueueActionBarConfig {
    Enabled(EnabledQueueActionBarConfig),
    Disabled(DisabledQueueActionBarConfig),
}

/// An action bar shown while queued.
#[derive(Clone, Debug, PartialEq, Eq)]
pub struct EnabledQueueActionBarConfig {
    pub enabled: bool,
    pub text: String,
}

/// No action bar while queued.
#[derive(Clone, Debug, PartialEq, Eq)]
pub struct DisabledQueueActionBarConfig {
    pub enabled: bool,
}

impl QueueActionBarConfig {
    /// The default action bar: enabled, with the position and the estimated wait.
    pub open spec fn is_default(self) -> bool {
        self matches QueueActionBarConfig::Enabled(c) && c.enabled
            && c.text@ == "<yellow>Queue: {position}/{total} | ETA: {eta}s</yellow>"@
    }
}

impl Default for QueueActionBarConfig {
    fn default() -> (action_bar: Self)
        ensures
            action_bar.is_default(),
    {
        QueueActionBarConfig::Enabled(
            EnabledQueueActionBarConfig {
                enabled: true,
                text: "<yellow>Queue: {position}/{total} | ETA: {eta}s</yellow>".to_string(),
            },
        )
    }
}

/// The boss bar shown while queued.
#[derive(Clone, Debug, PartialEq, Eq)]
pub enum QueueBossBarConfig {
    Enabled(EnabledQueueBossBarConfig),
    Disabled(DisabledQueueBossBarConfig),
}

/// A boss bar shown while queued.
#[derive(Clone, Debug, PartialEq, Eq)]
pub struct EnabledQueueBossBarConfig {
    pub enabled: bool,
    pub title: String,
    pub color: BossBarColorConfig,
    pub division: BossBarDivisionConfig,
}

/// No boss bar while queued.
#[derive(Clone, Debug, PartialEq, Eq)]
pub struct DisabledQueueBossBarConfig {
    pub enabled: bool,
}

impl QueueBossBarConfig {
    /// The default boss bar: enabled, blue, undivided, with the position in the title.
    pub open spec fn is_default(self) -> bool {
        self matches QueueBossBarConfig::Enabled(c) && c.enabled
            && c.title@ == "Queue: {position}/{total}"@
            && c.color == BossBarColorConfig::Blue
            && c.division == BossBarDivisionConfig::NoDivision
    }
}

impl Default for QueueBossBarConfig {
    fn default() -> (boss_bar: Self)
        ensures
            boss_bar.is_default(),
    {
        QueueBossBarConfig::Enabled(
            EnabledQueueBossBarConfig {
                enabled: true,
                title: "Queue: {position}/{total}".to_string(),
                color: BossBarColorConfig::Blue,
                division: BossBarDivisionConfig::NoDivision,
            },
        )
    }
}

} // verus!
