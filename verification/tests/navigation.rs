//! List selection, page cycling, and the groups and brokers tabs.

use kafka_tui::app::Mode;
use kafka_tui::kafka::{KafkaBroker, KafkaGroup, KafkaGroupMember, KafkaTopic};
use kafka_tui::keys::Key;
use kafka_tui::tabs::broker::BrokerTab;
use kafka_tui::tabs::group::GroupTab;
use kafka_tui::tabs::topic::{TopicPage, TopicTab, create_topic_request};

fn group(name: &str) -> KafkaGroup {
    KafkaGroup::new(
        name.to_string(),
        "Stable".to_string(),
        "range".to_string(),
        "consumer".to_string(),
        vec![KafkaGroupMember::new(
            "m1".to_string(),
            "cli".to_string(),
            "/10.0.0.1".to_string(),
        )],
    )
}

#[test]
fn group_selection_moves_and_saturates() {
    let mut tab = GroupTab::new();
    tab.apply_groups(vec![group("a"), group("b")]);
    assert!(tab.selected_group().is_none());
    tab.handle_key_press(Key::Char('j'));
    assert_eq!(tab.selected_group().unwrap().name, "a");
    tab.handle_key_press(Key::Char('j'));
    assert_eq!(tab.selected_group().unwrap().name, "b");
    tab.handle_key_press(Key::Char('j'));
    assert_eq!(tab.selected_group().unwrap().name, "b");
    tab.handle_key_press(Key::Char('k'));
    assert_eq!(tab.selected_group().unwrap().name, "a");
    tab.handle_key_press(Key::Char('k'));
    assert_eq!(tab.selected_group().unwrap().name, "a");
    tab.handle_key_press(Key::Char('h'));
    assert!(tab.selected_group().is_none());
}

#[test]
fn group_first_last_and_modes() {
    let mut tab = GroupTab::new();
    tab.apply_groups(vec![group("a"), group("b"), group("c")]);
    tab.handle_key_press(Key::Char('G'));
    assert_eq!(tab.selected_group().unwrap().name, "c");
    tab.handle_key_press(Key::Char('g'));
    assert_eq!(tab.selected_group().unwrap().name, "a");
    assert_eq!(tab.handle_key_press(Key::Char('r')), Mode::Refresh);
    assert_eq!(tab.handle_key_press(Key::Esc), Mode::TabChoose);
    assert_eq!(tab.handle_key_press(Key::Other), Mode::Tab);
}

#[test]
fn group_detail_fields() {
    let g = group("g1");
    assert_eq!(g.state, "Stable");
    assert_eq!(g.protocol, "range");
    assert_eq!(g.protocol_type, "consumer");
    assert_eq!(g.members.len(), 1);
    assert_eq!(g.members[0].client_id, "cli");
    assert_eq!(g.members[0].client_host, "/10.0.0.1");
}

#[test]
fn broker_selection_and_replacement() {
    let mut tab = BrokerTab::new();
    tab.apply_brokers(vec![
        KafkaBroker::new("h1".to_string(), 9092, 1),
        KafkaBroker::new("h2".to_string(), 9093, 2),
    ]);
    tab.handle_key_press(Key::Down);
    assert_eq!(tab.broker_list.selected, Some(0));
    tab.handle_key_press(Key::Down);
    assert_eq!(tab.broker_list.selected, Some(1));
    tab.apply_brokers(vec![KafkaBroker::new("h3".to_string(), 9094, 3)]);
    let hosts: Vec<&str> = tab.broker_list.items.iter().map(|b| b.host.as_str()).collect();
    assert_eq!(hosts, vec!["h3"]);
}

#[test]
fn selecting_up_from_nothing_picks_last() {
    let mut tab = BrokerTab::new();
    tab.apply_brokers(vec![
        KafkaBroker::new("h1".to_string(), 9092, 1),
        KafkaBroker::new("h2".to_string(), 9093, 2),
    ]);
    tab.handle_key_press(Key::Up);
    assert_eq!(tab.broker_list.selected, Some(1));
}

#[test]
fn empty_list_selection_stays_none() {
    let mut tab = BrokerTab::new();
    tab.handle_key_press(Key::Down);
    assert_eq!(tab.broker_list.selected, None);
    tab.handle_key_press(Key::Char('g'));
    assert_eq!(tab.broker_list.selected, None);
}

fn tab_on_info() -> TopicTab {
    let mut tab = TopicTab::new();
    tab.apply_topics(vec![KafkaTopic::new("t".to_string(), vec![])]);
    tab.handle_key_press(Key::Char('j'), 0);
    tab.handle_key_press(Key::Enter, 0);
    assert_eq!(tab.topic_page, TopicPage::Info);
    tab
}

#[test]
fn detail_pages_cycle_forward() {
    let mut tab = tab_on_info();
    tab.handle_key_press(Key::Char('j'), 0);
    assert_eq!(tab.topic_page, TopicPage::Messages);
    tab.handle_key_press(Key::Char('j'), 0);
    assert_eq!(tab.topic_page, TopicPage::Send);
    tab.handle_key_press(Key::Char('j'), 0);
    assert_eq!(tab.topic_page, TopicPage::Info);
}

#[test]
fn detail_pages_cycle_backward() {
    let mut tab = tab_on_info();
    tab.handle_key_press(Key::Char('k'), 0);
    assert_eq!(tab.topic_page, TopicPage::Send);
    tab.handle_key_press(Key::Char('k'), 0);
    assert_eq!(tab.topic_page, TopicPage::Messages);
    tab.handle_key_press(Key::Char('k'), 0);
    assert_eq!(tab.topic_page, TopicPage::Info);
}

#[test]
fn escape_from_detail_returns_to_base_page() {
    let mut tab = tab_on_info();
    let out = tab.handle_key_press(Key::Esc, 0);
    assert_eq!(tab.topic_page, TopicPage::Normal);
    assert_eq!(out.mode, Mode::Tab);
    let out = tab.handle_key_press(Key::Esc, 0);
    assert_eq!(out.mode, Mode::TabChoose);
}

#[test]
fn i_enters_edit_only_from_send() {
    let mut tab = tab_on_info();
    tab.handle_key_press(Key::Char('i'), 0);
    assert_eq!(tab.topic_page, TopicPage::Info);
    tab.handle_key_press(Key::Char('j'), 0);
    tab.handle_key_press(Key::Char('j'), 0);
    assert_eq!(tab.topic_page, TopicPage::Send);
    tab.handle_key_press(Key::Char('i'), 0);
    assert_eq!(tab.topic_page, TopicPage::SendEdit);
}

#[test]
fn unmapped_characters_do_nothing_outside_the_form() {
    let mut tab = tab_on_info();
    tab.handle_key_press(Key::Char('j'), 0);
    tab.handle_key_press(Key::Enter, 0);
    assert_eq!(tab.topic_page, TopicPage::MessagesRecv);
    assert!(tab.recv_alive);
    let out = tab.handle_key_press(Key::Char('x'), 0);
    assert_eq!(tab.topic_page, TopicPage::MessagesRecv);
    assert!(tab.recv_alive);
    assert_eq!(out.mode, Mode::Tab);
    let out = tab.handle_key_press(Key::Char('w'), 0);
    assert_eq!(tab.topic_page, TopicPage::MessagesRecv);
    assert!(tab.recv_alive);
    assert_eq!(out.mode, Mode::Tab);
}

#[test]
fn create_topic_request_is_the_development_default() {
    let r = create_topic_request();
    assert_eq!(r.name, "test");
    assert_eq!(r.partitions, 1);
    assert_eq!(r.replication, 1);
}

#[test]
fn form_rebinds_when_selection_changes() {
    let mut tab = TopicTab::new();
    tab.apply_topics(vec![
        KafkaTopic::new("a".to_string(), vec![]),
        KafkaTopic::new("b".to_string(), vec![]),
    ]);
    tab.handle_key_press(Key::Char('j'), 0);
    tab.sync_form_topic();
    assert_eq!(tab.send_form.get_topic(), "a");
    tab.send_form.enter_char('x');

    tab.handle_key_press(Key::Char('l'), 0);
    tab.handle_key_press(Key::Esc, 0);
    tab.handle_key_press(Key::Char('j'), 0);
    tab.sync_form_topic();
    assert_eq!(tab.send_form.get_topic(), "b");
    assert!(tab.send_form.message.is_empty());
}
