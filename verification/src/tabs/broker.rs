//! The brokers tab: the broker list and its selection.  Selection offers no
//! detail view.

use crate::app::{Mode, spec_nav_mode};
use crate::kafka::KafkaBroker;
use crate::keys::Key;
use crate::list::{SelectList, spec_list_nav};
use vstd::prelude::*;

verus! {

/// The broker list with its selection.
pub type BrokerList = SelectList<KafkaBroker>;

/// The brokers tab controller.
#[derive(Debug)]
pub struct BrokerTab {
    pub broker_list: BrokerList,
}

impl BrokerTab {
    /// A fresh tab with an empty list and nothing selected.
    pub fn new() -> (t: Self)
        ensures
            t.broker_list.items@.len() == 0,
            t.broker_list.selected is None,
    {
        BrokerTab { broker_list: SelectList::new() }
    }

    /// Replaces the whole broker list, as a metadata refresh does; no item
    /// of the old list remains.
    pub fn apply_brokers(&mut self, brokers: Vec<KafkaBroker>)
        ensures
            final(self).broker_list.items == brokers,
            final(self).broker_list.selected == old(self).broker_list.selected,
    {
        self.broker_list.replace_items(brokers);
    }

    /// Routes one key press: quit keys back out, `r` asks for a refresh,
    /// and the selection keys move the selection.
    pub fn handle_key_press(&mut self, key: Key) -> (m: Mode)
        ensures
            m == spec_nav_mode(key),
            final(self).broker_list.items == old(self).broker_list.items,
            final(self).broker_list.selected == spec_list_nav(
                old(self).broker_list.selected,
                old(self).broker_list.items@.len() as int,
                key,
            ),
    {
        match key {
            Key::Esc | Key::Char('q') => Mode::TabChoose,
            Key::Char('r') => Mode::Refresh,
            Key::Char('g') | Key::Home => {
                self.broker_list.select_first();
                Mode::Tab
            },
            Key::Char('G') | Key::End => {
                self.broker_list.select_last();
                Mode::Tab
            },
            Key::Char('h') | Key::Left => {
                self.broker_list.select_none();
                Mode::Tab
            },
            Key::Char('j') | Key::Down => {
                self.broker_list.select_next();
                Mode::Tab
            },
            Key::Char('k') | Key::Up => {
                self.broker_list.select_previous();
                Mode::Tab
            },
            _ => Mode::Tab,
        }
    }
}

} // verus!
