//! Shell-level scenarios: tab choice, mode machine, and the browse flow.

use kafka_tui::app::{App, Mode};
use kafka_tui::kafka::{KafkaBroker, KafkaPartition, KafkaTopic};
use kafka_tui::keys::Key;
use kafka_tui::tabs::Tab;
use kafka_tui::tabs::topic::TopicPage;

fn partition(id: i32, leader: i32, replicas: Vec<i32>, isr: Vec<i32>, low: i64, high: i64) -> KafkaPartition {
    let mut p = KafkaPartition::new(id, leader, replicas, isr);
    assert!(p.set_watermarks(low, high));
    p
}

#[test]
fn tab_next_saturates() {
    assert_eq!(Tab::Topic.next(), Tab::Group);
    assert_eq!(Tab::Group.next(), Tab::Broker);
    assert_eq!(Tab::Broker.next(), Tab::Broker);
}

#[test]
fn tab_prev_saturates() {
    assert_eq!(Tab::Topic.prev(), Tab::Topic);
    assert_eq!(Tab::Group.prev(), Tab::Topic);
    assert_eq!(Tab::Broker.prev(), Tab::Group);
}

#[test]
fn tab_titles() {
    assert_eq!(Tab::Topic.title(), "Topic");
    assert_eq!(Tab::Group.title(), "Group");
    assert_eq!(Tab::Broker.title(), "Broker");
}

#[test]
fn initial_state() {
    let app = App::new();
    assert_eq!(app.mode, Mode::TabChoose);
    assert_eq!(app.tab, Tab::Topic);
    assert!(app.is_running());
    assert!(app.topic_tab.topic_list.items.is_empty());
}

#[test]
fn tab_choose_cycles_and_enters() {
    let mut app = App::new();
    app.handle_key(Key::Char('j'), 0);
    assert_eq!(app.tab, Tab::Group);
    assert_eq!(app.mode, Mode::TabChoose);
    app.handle_key(Key::Char('j'), 0);
    app.handle_key(Key::Char('j'), 0);
    assert_eq!(app.tab, Tab::Broker);
    app.handle_key(Key::Char('k'), 0);
    assert_eq!(app.tab, Tab::Group);
    app.handle_key(Key::Enter, 0);
    assert_eq!(app.mode, Mode::Tab);
}

#[test]
fn quit_from_tab_choose() {
    let mut app = App::new();
    app.handle_key(Key::Char('q'), 0);
    assert_eq!(app.mode, Mode::Quit);
    assert!(!app.is_running());
}

#[test]
fn quit_key_is_ignored_once_quit() {
    let mut app = App::new();
    app.handle_key(Key::Esc, 0);
    assert_eq!(app.mode, Mode::Quit);
    app.handle_key(Key::Enter, 0);
    assert_eq!(app.mode, Mode::Quit);
}

#[test]
fn refresh_targets_cover_all_tabs_before_entering() {
    let app = App::new();
    assert_eq!(app.refresh_targets(), vec![Tab::Topic, Tab::Group, Tab::Broker]);
}

#[test]
fn refresh_targets_cover_active_tab_only() {
    let mut app = App::new();
    app.handle_key(Key::Enter, 0);
    assert_eq!(app.refresh_targets(), vec![Tab::Topic]);
}

#[test]
fn refresh_mode_resets_to_tab() {
    let mut app = App::new();
    app.handle_key(Key::Enter, 0);
    app.handle_key(Key::Char('r'), 0);
    assert_eq!(app.mode, Mode::Refresh);
    app.finish_refresh();
    assert_eq!(app.mode, Mode::Tab);
}

#[test]
fn browse_and_refresh() {
    let mut app = App::new();
    app.broker_tab.apply_brokers(vec![KafkaBroker::new("b".to_string(), 9092, 1)]);
    app.topic_tab.apply_topics(vec![KafkaTopic::new(
        "t".to_string(),
        vec![partition(0, 1, vec![1], vec![1], 0, 10)],
    )]);
    assert_eq!(app.broker_tab.broker_list.items[0].host, "b");
    assert_eq!(app.broker_tab.broker_list.items[0].port, 9092);
    assert_eq!(app.broker_tab.broker_list.items[0].id, 1);

    app.handle_key(Key::Enter, 0);
    assert_eq!(app.mode, Mode::Tab);
    assert_eq!(app.tab, Tab::Topic);
    app.handle_key(Key::Char('j'), 0);
    app.handle_key(Key::Char('l'), 0);
    assert_eq!(app.topic_tab.topic_page, TopicPage::Info);
    let topic = app.topic_tab.selected_topic().expect("a topic is selected");
    assert_eq!(topic.name, "t");
    let p = &topic.partitions[0];
    assert_eq!(p.id, 0);
    assert_eq!(p.leader, 1);
    assert_eq!(p.replicas, vec![1]);
    assert_eq!(p.isr, vec![1]);
    assert_eq!(p.low, 0);
    assert_eq!(p.high, 10);
    assert_eq!(p.lag(), 10);
}

#[test]
fn open_detail_needs_a_selection() {
    let mut app = App::new();
    app.topic_tab.apply_topics(vec![KafkaTopic::new("t".to_string(), vec![])]);
    app.handle_key(Key::Enter, 0);
    app.handle_key(Key::Char('l'), 0);
    assert_eq!(app.topic_tab.topic_page, TopicPage::Normal);
}
