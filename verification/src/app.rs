//! The app shell: the global mode machine and the routing of key presses to
//! the active tab controller.

use crate::keys::{Key, is_quit_key};
use crate::list::spec_list_nav;
use crate::tabs::broker::BrokerTab;
use crate::tabs::group::GroupTab;
use crate::tabs::topic::{TopicAction, TopicKeyOutcome, TopicTab, spec_topic_key_step};
use crate::tabs::{Tab, spec_tab_next, spec_tab_prev};
use vstd::prelude::*;

verus! {

/// The global mode.  `TabChoose` picks a tab, `Tab` hands keys to the
/// active tab controller, `Refresh` is transient while the active tab's
/// metadata is refetched, and `Quit` ends the session.
#[derive(Debug, Clone, Copy, PartialEq, Eq, Structural)]
pub enum Mode {
    TabChoose,
    Tab,
    Quit,
    Refresh,
}

/// The mode a list-only tab returns for one key press: back out on a quit
/// key, ask for a refresh on `r`, otherwise stay in the tab.
pub open spec fn spec_nav_mode(key: Key) -> Mode {
    if is_quit_key(key) {
        Mode::TabChoose
    } else if key == Key::Char('r') {
        Mode::Refresh
    } else {
        Mode::Tab
    }
}

/// The mode tab selection returns for one key press: quit keys end the
/// session, `Enter` hands control to the active tab, everything else keeps
/// choosing.
pub open spec fn spec_tab_select_mode(key: Key) -> Mode {
    if is_quit_key(key) {
        Mode::Quit
    } else if key == Key::Enter {
        Mode::Tab
    } else {
        Mode::TabChoose
    }
}

/// The tab that is active after one key press while choosing tabs: `j` and
/// `k` cycle, saturating at the ends of the declaration order.
pub open spec fn spec_tab_select_tab(tab: Tab, key: Key) -> Tab {
    if key == Key::Char('j') {
        spec_tab_next(tab)
    } else if key == Key::Char('k') {
        spec_tab_prev(tab)
    } else {
        tab
    }
}

/// The shell: global mode, active tab, and the three tab controllers.  The
/// broker clients live outside; the shell only decides, and the caller
/// performs the returned actions.
#[derive(Debug)]
pub struct App {
    pub mode: Mode,
    pub tab: Tab,
    pub broker_tab: BrokerTab,
    pub group_tab: GroupTab,
    pub topic_tab: TopicTab,
}

impl App {
    /// The shell's invariant: the topics tab is well formed.
    pub open spec fn wf(self) -> bool {
        self.topic_tab.wf()
    }

    /// A fresh shell: choosing tabs, topics tab active, all three tab
    /// controllers fresh.
    pub fn new() -> (app: Self)
        ensures
            app.mode is TabChoose,
            app.tab is Topic,
            app.topic_tab.topic_list.items@.len() == 0,
            app.topic_tab.topic_list.selected is None,
            app.topic_tab.topic_page is Normal,
            !app.topic_tab.recv_alive,
            app.topic_tab.err.text is None,
            app.group_tab.group_list.items@.len() == 0,
            app.group_tab.group_list.selected is None,
            app.broker_tab.broker_list.items@.len() == 0,
            app.broker_tab.broker_list.selected is None,
            app.wf(),
    {
        App {
            mode: Mode::TabChoose,
            tab: Tab::Topic,
            broker_tab: BrokerTab::new(),
            group_tab: GroupTab::new(),
            topic_tab: TopicTab::new(),
        }
    }

    /// Whether the event loop keeps running: every mode but `Quit`.
    pub fn is_running(&self) -> (r: bool)
        ensures
            r <==> !(self.mode is Quit),
    {
        !(self.mode == Mode::Quit)
    }

    /// Handles one key press while choosing tabs: `j`/`k` cycle the active
    /// tab, `Enter` enters it, quit keys end the session.  Returns the next
    /// mode; the tab controllers are untouched.
    pub fn handle_tab_select(&mut self, key: Key) -> (m: Mode)
        ensures
            m == spec_tab_select_mode(key),
            final(self).tab == spec_tab_select_tab(old(self).tab, key),
            final(self).mode == old(self).mode,
            final(self).broker_tab == old(self).broker_tab,
            final(self).group_tab == old(self).group_tab,
            final(self).topic_tab == old(self).topic_tab,
    {
        match key {
            Key::Esc | Key::Char('q') => Mode::Quit,
            Key::Char('j') => {
                self.tab = self.tab.next();
                Mode::TabChoose
            },
            Key::Char('k') => {
                self.tab = self.tab.prev();
                Mode::TabChoose
            },
            Key::Enter => Mode::Tab,
            _ => Mode::TabChoose,
        }
    }

    /// Routes one key press by the current mode: tab selection in
    /// `TabChoose`, the active tab controller in `Tab`, nothing in the
    /// other modes.  The returned mode of the handler becomes the global
    /// mode, and the returned action is handed back for the caller to
    /// perform.
    pub fn handle_key(&mut self, key: Key, now_ms: u64) -> (action: TopicAction)
        requires
            old(self).wf(),
        ensures
            final(self).wf(),
            final(self).tab == (if old(self).mode is TabChoose {
                spec_tab_select_tab(old(self).tab, key)
            } else {
                old(self).tab
            }),
            (old(self).mode is TabChoose ==> {
                &&& final(self).mode == spec_tab_select_mode(key)
                &&& final(self).topic_tab == old(self).topic_tab
                &&& final(self).group_tab == old(self).group_tab
                &&& final(self).broker_tab == old(self).broker_tab
                &&& action is Quiet
            }),
            (old(self).mode is Tab && old(self).tab is Topic ==> {
                &&& spec_topic_key_step(
                    old(self).topic_tab,
                    final(self).topic_tab,
                    (TopicKeyOutcome { mode: final(self).mode, action }),
                    key,
                    now_ms,
                )
                &&& final(self).group_tab == old(self).group_tab
                &&& final(self).broker_tab == old(self).broker_tab
            }),
            (old(self).mode is Tab && old(self).tab is Group ==> {
                &&& final(self).mode == spec_nav_mode(key)
                &&& final(self).group_tab.group_list.items == old(self).group_tab.group_list.items
                &&& final(self).group_tab.group_list.selected == spec_list_nav(
                    old(self).group_tab.group_list.selected,
                    old(self).group_tab.group_list.items@.len() as int,
                    key,
                )
                &&& final(self).topic_tab == old(self).topic_tab
                &&& final(self).broker_tab == old(self).broker_tab
                &&& action is Quiet
            }),
            (old(self).mode is Tab && old(self).tab is Broker ==> {
                &&& final(self).mode == spec_nav_mode(key)
                &&& final(self).broker_tab.broker_list.items == old(
                    self,
                ).broker_tab.broker_list.items
                &&& final(self).broker_tab.broker_list.selected == spec_list_nav(
                    old(self).broker_tab.broker_list.selected,
                    old(self).broker_tab.broker_list.items@.len() as int,
                    key,
                )
                &&& final(self).topic_tab == old(self).topic_tab
                &&& final(self).group_tab == old(self).group_tab
                &&& action is Quiet
            }),
            ((old(self).mode is Quit || old(self).mode is Refresh) ==> *final(self) == *old(self)
                && action is Quiet),
    {
        match self.mode {
            Mode::TabChoose => {
                let m = self.handle_tab_select(key);
                self.mode = m;
                TopicAction::Quiet
            },
            Mode::Tab => {
                match self.tab {
                    Tab::Topic => {
                        let out = self.topic_tab.handle_key_press(key, now_ms);
                        self.mode = out.mode;
                        out.action
                    },
                    Tab::Group => {
                        let m = self.group_tab.handle_key_press(key);
                        self.mode = m;
                        TopicAction::Quiet
                    },
                    Tab::Broker => {
                        let m = self.broker_tab.handle_key_press(key);
                        self.mode = m;
                        TopicAction::Quiet
                    },
                }
            },
            _ => TopicAction::Quiet,
        }
    }

    /// The tabs a metadata refresh covers: only the active tab once inside
    /// it, all three otherwise, in declaration order.
    pub fn refresh_targets(&self) -> (ts: Vec<Tab>)
        ensures
            self.mode is Tab ==> ts@ == seq![self.tab],
            !(self.mode is Tab) ==> ts@ == seq![Tab::Topic, Tab::Group, Tab::Broker],
    {
        if self.mode == Mode::Tab {
            let mut ts: Vec<Tab> = Vec::new();
            ts.push(self.tab);
            proof {
                assert(ts@ =~= seq![self.tab]);
            }
            ts
        } else {
            let mut ts: Vec<Tab> = Vec::new();
            ts.push(Tab::Topic);
            ts.push(Tab::Group);
            ts.push(Tab::Broker);
            proof {
                assert(ts@ =~= seq![Tab::Topic, Tab::Group, Tab::Broker]);
            }
            ts
        }
    }

    /// Ends the transient `Refresh` mode: once the refresh is done, control
    /// goes back to the active tab.  In any other mode nothing changes.
    pub fn finish_refresh(&mut self)
        ensures
            (old(self).mode is Refresh ==> final(self).mode is Tab),
            (!(old(self).mode is Refresh) ==> final(self).mode == old(self).mode),
            final(self).tab == old(self).tab,
            final(self).topic_tab == old(self).topic_tab,
            final(self).group_tab == old(self).group_tab,
            final(self).broker_tab == old(self).broker_tab,
    {
        if self.mode == Mode::Refresh {
            self.mode = Mode::Tab;
        }
    }
}

} // verus!
