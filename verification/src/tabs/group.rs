//! The groups tab: the consumer-group list and its selection.

use crate::app::{Mode, spec_nav_mode};
use crate::kafka::KafkaGroup;
use crate::keys::Key;
use crate::list::{SelectList, spec_effective_selection, spec_list_nav};
use vstd::prelude::*;

verus! {

/// The group list with its selection.
pub type GroupList = SelectList<KafkaGroup>;

/// The groups tab controller.
#[derive(Debug)]
pub struct GroupTab {
    pub group_list: GroupList,
}

impl GroupTab {
    /// A fresh tab with an empty list and nothing selected.
    pub fn new() -> (t: Self)
        ensures
            t.group_list.items@.len() == 0,
            t.group_list.selected is None,
    {
        GroupTab { group_list: SelectList::new() }
    }

    /// Replaces the whole group list, as a group-list fetch does; no item
    /// of the old list remains.
    pub fn apply_groups(&mut self, groups: Vec<KafkaGroup>)
        ensures
            final(self).group_list.items == groups,
            final(self).group_list.selected == old(self).group_list.selected,
    {
        self.group_list.replace_items(groups);
    }

    /// The group the detail pane shows: the selected item, with an
    /// out-of-range stale selection counting as none.
    pub fn selected_group(&self) -> (r: Option<&KafkaGroup>)
        ensures
            (match spec_effective_selection(
                self.group_list.selected,
                self.group_list.items@.len() as int,
            ) {
                Some(i) => r matches Some(g) && *g == self.group_list.items@[i as int],
                None => r is None,
            }),
    {
        match self.group_list.selected_index() {
            Some(i) => Some(&self.group_list.items[i]),
            None => None,
        }
    }

    /// Routes one key press: quit keys back out, `r` asks for a refresh,
    /// and the selection keys move the selection.
    pub fn handle_key_press(&mut self, key: Key) -> (m: Mode)
        ensures
            m == spec_nav_mode(key),
            final(self).group_list.items == old(self).group_list.items,
            final(self).group_list.selected == spec_list_nav(
                old(self).group_list.selected,
                old(self).group_list.items@.len() as int,
                key,
            ),
    {
        match key {
            Key::Esc | Key::Char('q') => Mode::TabChoose,
            Key::Char('r') => Mode::Refresh,
            Key::Char('g') | Key::Home => {
                self.group_list.select_first();
                Mode::Tab
            },
            Key::Char('G') | Key::End => {
                self.group_list.select_last();
                Mode::Tab
            },
            Key::Char('h') | Key::Left => {
                self.group_list.select_none();
                Mode::Tab
            },
            Key::Char('j') | Key::Down => {
                self.group_list.select_next();
                Mode::Tab
            },
            Key::Char('k') | Key::Up => {
                self.group_list.select_previous();
                Mode::Tab
            },
            _ => Mode::Tab,
        }
    }
}

} // verus!
