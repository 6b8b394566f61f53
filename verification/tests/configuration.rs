use zico_limbo::configuration::boss_bar::{BossBarColorConfig, BossBarDivisionConfig};
use zico_limbo::configuration::queue::{
    EnabledQueueActionBarConfig, EnabledQueueBossBarConfig, EnabledQueueTabListConfig,
    EnabledQueueTitleConfig, QueueActionBarConfig, QueueBossBarConfig, QueueConfig,
    QueuePushMethodConfig, QueueTabListConfig, QueueTitleConfig,
};

#[test]
fn queue_defaults() {
    let config = QueueConfig::default();
    assert!(!config.enabled);
    assert_eq!(config.push_interval_seconds, 5);
    assert_eq!(config.push_count, 1);
    assert_eq!(config.refresh_interval_seconds, 3);
    assert_eq!(
        config.push_method,
        QueuePushMethodConfig::Kick { kick_message: "You have been moved to the main server.".to_string() }
    );
}

#[test]
fn section_defaults() {
    assert_eq!(
        QueueTabListConfig::default(),
        QueueTabListConfig::Enabled(EnabledQueueTabListConfig {
            enabled: true,
            header: "<bold>Queue</bold>".to_string(),
            footer: "Position: {position}/{total}".to_string(),
        })
    );
    assert_eq!(
        QueueTitleConfig::default(),
        QueueTitleConfig::Enabled(EnabledQueueTitleConfig {
            enabled: true,
            title: "<bold>Queue</bold>".to_string(),
            subtitle: "Position: {position} of {total}".to_string(),
            fade_in: 0,
            stay: i32::MAX,
            fade_out: 0,
        })
    );
    assert_eq!(
        QueueActionBarConfig::default(),
        QueueActionBarConfig::Enabled(EnabledQueueActionBarConfig {
            enabled: true,
            text: "<yellow>Queue: {position}/{total} | ETA: {eta}s</yellow>".to_string(),
        })
    );
    assert_eq!(
        QueueBossBarConfig::default(),
        QueueBossBarConfig::Enabled(EnabledQueueBossBarConfig {
            enabled: true,
            title: "Queue: {position}/{total}".to_string(),
            color: BossBarColorConfig::Blue,
            division: BossBarDivisionConfig::NoDivision,
        })
    );
}
