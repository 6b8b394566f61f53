use zico_limbo::configuration::queue::{QueueConfig, QueuePushMethodConfig};
use zico_limbo::queue::{PushAction, PushActionTemplate, QueueState};

fn queue() -> QueueState<u32> {
    QueueState::from_config(&QueueConfig::default())
}

#[test]
fn from_config_copies_the_settings() {
    let state = queue();
    assert_eq!(state.settings.push_interval_seconds, 5);
    assert_eq!(state.settings.push_count, 1);
    assert_eq!(state.settings.refresh_interval_seconds, 3);
    assert_eq!(
        state.settings.push_action,
        PushActionTemplate::Kick { message: "You have been moved to the main server.".to_string() }
    );
    assert_eq!(state.total(), 0);
}

#[test]
fn from_config_with_transfer() {
    let mut config = QueueConfig::default();
    config.push_method = QueuePushMethodConfig::Transfer { host: "play.example.com".to_string(), port: 65535 };
    let state: QueueState<u32> = QueueState::from_config(&config);
    assert_eq!(
        state.settings.push_action,
        PushActionTemplate::Transfer { host: "play.example.com".to_string(), port: 65535 }
    );
}

#[test]
fn enqueue_returns_one_based_positions() {
    let mut state = queue();
    assert_eq!(state.enqueue(10, "a".to_string(), 100), 1);
    assert_eq!(state.enqueue(20, "b".to_string(), 200), 2);
    assert_eq!(state.enqueue(30, "c".to_string(), 300), 3);
    assert_eq!(state.total(), 3);
    assert_eq!(state.position_of(10), Some(1));
    assert_eq!(state.position_of(20), Some(2));
    assert_eq!(state.position_of(30), Some(3));
    assert_eq!(state.position_of(40), None);
}

#[test]
fn username_of_finds_the_player() {
    let mut state = queue();
    state.enqueue(10, "alice".to_string(), 1);
    state.enqueue(20, "bob".to_string(), 2);
    assert_eq!(state.username_of(20), Some("bob".to_string()));
    assert_eq!(state.username_of(30), None);
}

#[test]
fn dequeue_removes_only_that_player() {
    let mut state = queue();
    state.enqueue(10, "a".to_string(), 1);
    state.enqueue(20, "b".to_string(), 2);
    state.enqueue(30, "c".to_string(), 3);
    state.dequeue(20);
    assert_eq!(state.total(), 2);
    assert_eq!(state.position_of(20), None);
    assert_eq!(state.position_of(10), Some(1));
    assert_eq!(state.position_of(30), Some(2));
    state.dequeue(99);
    assert_eq!(state.total(), 2);
}

#[test]
fn dequeue_removes_every_entry_of_the_player() {
    let mut state = queue();
    state.enqueue(10, "a".to_string(), 1);
    state.enqueue(20, "b".to_string(), 2);
    state.enqueue(10, "a".to_string(), 3);
    assert_eq!(state.position_of(10), Some(1));
    state.dequeue(10);
    assert_eq!(state.total(), 1);
    assert_eq!(state.position_of(10), None);
    assert_eq!(state.position_of(20), Some(1));
}

#[test]
fn push_next_pops_from_the_front_in_order() {
    let mut state = queue();
    state.enqueue(10, "a".to_string(), 1);
    state.enqueue(20, "b".to_string(), 2);
    state.enqueue(30, "c".to_string(), 3);
    let pushed = state.push_next(2);
    let kick = || PushAction::Kick("You have been moved to the main server.".to_string());
    assert_eq!(pushed, vec![(1, kick()), (2, kick())]);
    assert_eq!(state.total(), 1);
    assert_eq!(state.position_of(10), None);
    assert_eq!(state.position_of(30), Some(1));
}

#[test]
fn push_next_stops_at_an_empty_queue() {
    let mut state = queue();
    state.enqueue(10, "a".to_string(), 1);
    let pushed = state.push_next(5);
    assert_eq!(pushed.len(), 1);
    assert_eq!(state.total(), 0);
    assert!(state.push_next(3).is_empty());
}

#[test]
fn push_next_of_zero_pushes_nobody() {
    let mut state = queue();
    state.enqueue(10, "a".to_string(), 1);
    assert!(state.push_next(0).is_empty());
    assert_eq!(state.total(), 1);
}

#[test]
fn push_next_sends_the_transfer_action() {
    let mut config = QueueConfig::default();
    config.push_method = QueuePushMethodConfig::Transfer { host: "h".to_string(), port: 25565 };
    let mut state: QueueState<&str> = QueueState::from_config(&config);
    state.enqueue(1, "a".to_string(), "tx");
    let pushed = state.push_next(1);
    assert_eq!(pushed, vec![("tx", PushAction::Transfer { host: "h".to_string(), port: 25565 })]);
}

#[test]
fn players_behind_move_up_after_a_push() {
    let mut state = queue();
    for i in 0..6u128 {
        state.enqueue(i, format!("p{i}"), i as u32);
    }
    assert_eq!(state.position_of(5), Some(6));
    state.push_next(4);
    assert_eq!(state.position_of(5), Some(2));
    assert_eq!(state.position_of(4), Some(1));
}

#[test]
fn a_newcomer_is_placed_last() {
    let mut state = queue();
    state.enqueue(1, "a".to_string(), 1);
    state.enqueue(2, "b".to_string(), 2);
    let position = state.enqueue(3, "c".to_string(), 3);
    assert_eq!(state.position_of(3), Some(position));
    assert_eq!(position, state.total());
    assert_eq!(state.position_of(1), Some(1));
}
