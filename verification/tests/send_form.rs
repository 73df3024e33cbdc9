//! Send-form scenarios: editing, the partition filter, submit and its
//! rejections.

use kafka_tui::kafka::KafkaTopic;
use kafka_tui::keys::Key;
use kafka_tui::tabs::topic::{TopicAction, TopicPage, TopicTab};
use kafka_tui::tabs::topic_send::{InputField, TopicSendForm, parse_partition};

fn chars(s: &str) -> Vec<char> {
    s.chars().collect()
}

/// A topics tab sitting on `SendEdit` for topic `"t"`, reached through the
/// real navigation path.
fn tab_in_send_edit() -> TopicTab {
    let mut tab = TopicTab::new();
    tab.apply_topics(vec![KafkaTopic::new("t".to_string(), vec![])]);
    tab.handle_key_press(Key::Char('j'), 0);
    tab.handle_key_press(Key::Char('l'), 0);
    assert_eq!(tab.topic_page, TopicPage::Info);
    tab.handle_key_press(Key::Char('j'), 0);
    assert_eq!(tab.topic_page, TopicPage::Messages);
    tab.handle_key_press(Key::Char('j'), 0);
    assert_eq!(tab.topic_page, TopicPage::Send);
    tab.sync_form_topic();
    tab.handle_key_press(Key::Enter, 0);
    assert_eq!(tab.topic_page, TopicPage::SendEdit);
    assert_eq!(tab.send_form.get_topic(), "t");
    tab
}

fn type_text(tab: &mut TopicTab, text: &str) {
    for c in text.chars() {
        tab.handle_key_press(Key::Char(c), 0);
    }
}

#[test]
fn send_valid() {
    let mut tab = tab_in_send_edit();
    type_text(&mut tab, "hello");
    tab.handle_key_press(Key::Tab, 0);
    assert_eq!(tab.send_form.field, InputField::Key);
    type_text(&mut tab, "k1");
    tab.handle_key_press(Key::Enter, 0);
    assert_eq!(tab.send_form.field, InputField::Partition);
    tab.handle_key_press(Key::Tab, 0);
    assert_eq!(tab.send_form.field, InputField::Message);

    let out = tab.handle_key_press(Key::Enter, 0);
    let req = match out.action {
        TopicAction::Produce(req) => req,
        other => panic!("expected a produce action, got {:?}", other),
    };
    assert_eq!(req.topic, "t");
    assert_eq!(req.payload, chars("hello"));
    assert_eq!(req.key, chars("k1"));
    assert_eq!(req.partition, None);
    assert_eq!(tab.topic_page, TopicPage::SendEdit);

    tab.produce_result(Ok(()), 0);
    assert_eq!(tab.topic_page, TopicPage::Messages);
    assert!(tab.send_form.message.is_empty());
    assert!(tab.send_form.key.is_empty());
    assert!(tab.send_form.partition.is_empty());
    assert_eq!(tab.send_form.cursor_index, 0);
}

#[test]
fn send_rejects_empty_key() {
    let mut tab = tab_in_send_edit();
    type_text(&mut tab, "hello");
    tab.handle_key_press(Key::Tab, 0);
    tab.handle_key_press(Key::Enter, 0);
    tab.handle_key_press(Key::Tab, 0);
    assert_eq!(tab.send_form.field, InputField::Message);

    let out = tab.handle_key_press(Key::Enter, 7);
    assert!(matches!(out.action, TopicAction::Quiet));
    assert_eq!(tab.topic_page, TopicPage::SendEdit);
    assert_eq!(tab.send_form.message, chars("hello"));
    assert!(tab.send_form.key.is_empty());
    assert_eq!(tab.current_error(7), Some("Message or key is empty".to_string()));
}

#[test]
fn send_rejects_empty_message() {
    let mut tab = tab_in_send_edit();
    let out = tab.handle_key_press(Key::Enter, 3);
    assert!(matches!(out.action, TopicAction::Quiet));
    assert_eq!(tab.current_error(3), Some("Message or key is empty".to_string()));
    assert_eq!(tab.topic_page, TopicPage::SendEdit);
}

#[test]
fn send_failure_keeps_form_and_bands_error() {
    let mut tab = tab_in_send_edit();
    type_text(&mut tab, "m");
    tab.handle_key_press(Key::Tab, 0);
    type_text(&mut tab, "k");
    tab.handle_key_press(Key::Tab, 0);
    tab.handle_key_press(Key::Tab, 0);
    let out = tab.handle_key_press(Key::Enter, 0);
    assert!(matches!(out.action, TopicAction::Produce(_)));

    tab.produce_result(Err("Message production error".to_string()), 9);
    assert_eq!(tab.topic_page, TopicPage::SendEdit);
    assert_eq!(tab.send_form.message, chars("m"));
    assert_eq!(tab.send_form.key, chars("k"));
    assert_eq!(tab.current_error(9), Some("Message production error".to_string()));
}

#[test]
fn partition_field_filtering() {
    let mut form = TopicSendForm::new("t");
    form.change_field();
    form.change_field();
    assert_eq!(form.field, InputField::Partition);
    for c in "1a2b3".chars() {
        form.enter_char(c);
    }
    assert_eq!(form.partition, chars("123"));
    assert_eq!(form.cursor_index, 3);
}

#[test]
fn message_field_accepts_anything() {
    let mut form = TopicSendForm::new("t");
    for c in "a 1!".chars() {
        form.enter_char(c);
    }
    assert_eq!(form.message, chars("a 1!"));
    assert_eq!(form.cursor_index, 4);
}

#[test]
fn cursor_saturates_and_edits_at_cursor() {
    let mut form = TopicSendForm::new("t");
    form.enter_char('a');
    form.enter_char('c');
    form.move_cursor_left();
    form.enter_char('b');
    assert_eq!(form.message, chars("abc"));
    form.move_cursor_right();
    form.move_cursor_right();
    assert_eq!(form.cursor_index, 3);
    form.move_cursor_left();
    form.move_cursor_left();
    form.move_cursor_left();
    form.move_cursor_left();
    assert_eq!(form.cursor_index, 0);
}

#[test]
fn backspace_deletes_before_cursor() {
    let mut form = TopicSendForm::new("t");
    for c in "abc".chars() {
        form.enter_char(c);
    }
    form.delete_char();
    assert_eq!(form.message, chars("ab"));
    form.move_cursor_left();
    form.move_cursor_left();
    form.delete_char();
    assert_eq!(form.message, chars("ab"));
    assert_eq!(form.cursor_index, 0);
}

#[test]
fn change_field_puts_cursor_at_end() {
    let mut form = TopicSendForm::new("t");
    for c in "abc".chars() {
        form.enter_char(c);
    }
    form.change_field();
    assert_eq!(form.field, InputField::Key);
    assert_eq!(form.cursor_index, 0);
    form.change_field();
    form.change_field();
    assert_eq!(form.field, InputField::Message);
    assert_eq!(form.cursor_index, 3);
}

#[test]
fn set_topic_clears_fields() {
    let mut form = TopicSendForm::new("t");
    form.enter_char('x');
    form.set_topic("u");
    assert_eq!(form.get_topic(), "u");
    assert!(form.message.is_empty());
    assert_eq!(form.cursor_index, 0);
}

#[test]
fn form_esc_cancels_to_send_page() {
    let mut tab = tab_in_send_edit();
    type_text(&mut tab, "draft");
    let out = tab.handle_key_press(Key::Esc, 0);
    assert!(matches!(out.action, TopicAction::Quiet));
    assert_eq!(tab.topic_page, TopicPage::Send);
    assert_eq!(tab.send_form.message, chars("draft"));
}

#[test]
fn q_in_form_is_text_not_quit() {
    let mut tab = tab_in_send_edit();
    let out = tab.handle_key_press(Key::Char('q'), 0);
    assert_eq!(out.mode, kafka_tui::app::Mode::Tab);
    assert_eq!(tab.topic_page, TopicPage::SendEdit);
    assert_eq!(tab.send_form.message, chars("q"));
}

#[test]
fn parse_partition_small_values() {
    assert_eq!(parse_partition(&chars("0")), Some(0));
    assert_eq!(parse_partition(&chars("5")), Some(5));
    assert_eq!(parse_partition(&chars("2147483647")), Some(i32::MAX));
}

#[test]
fn parse_partition_overflow() {
    assert_eq!(parse_partition(&chars("2147483648")), None);
    assert_eq!(parse_partition(&chars("9999999999")), None);
}

#[test]
fn submit_with_partition() {
    let mut tab = tab_in_send_edit();
    type_text(&mut tab, "m");
    tab.handle_key_press(Key::Tab, 0);
    type_text(&mut tab, "k");
    tab.handle_key_press(Key::Tab, 0);
    type_text(&mut tab, "3");
    tab.handle_key_press(Key::Tab, 0);
    let out = tab.handle_key_press(Key::Enter, 0);
    match out.action {
        TopicAction::Produce(req) => assert_eq!(req.partition, Some(3)),
        other => panic!("expected a produce action, got {:?}", other),
    }
}

#[test]
fn submit_rejects_partition_out_of_range() {
    let mut tab = tab_in_send_edit();
    type_text(&mut tab, "m");
    tab.handle_key_press(Key::Tab, 0);
    type_text(&mut tab, "k");
    tab.handle_key_press(Key::Tab, 0);
    type_text(&mut tab, "2147483648");
    tab.handle_key_press(Key::Tab, 0);
    let out = tab.handle_key_press(Key::Enter, 4);
    assert!(matches!(out.action, TopicAction::Quiet));
    assert_eq!(tab.current_error(4), Some("Partition out of range".to_string()));
    assert_eq!(tab.topic_page, TopicPage::SendEdit);
}
