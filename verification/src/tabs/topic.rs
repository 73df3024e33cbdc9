//! The topics tab: topic list, sub-page machine, send form hosting, and
//! ownership of the background receive task.
//!
//! The tab never talks to the broker itself.  Key handling returns an
//! action — start or stop the receive task, create a topic, perform a
//! produce — and the caller performs it and reports results back through
//! `produce_result` and `receive_ended`.

use crate::app::Mode;
use crate::error_band::ErrorBand;
use crate::kafka::KafkaTopic;
use crate::keys::{Key, is_down_key, is_first_key, is_last_key, is_left_key, is_quit_key, is_right_key, is_up_key};
use crate::list::{SelectList, spec_effective_selection, spec_select_next, spec_select_previous};
use crate::tabs::topic_send::{
    FormView, ProduceRequest, TopicSendForm, spec_empty, spec_form_rejects, spec_form_step_page,
    spec_form_step_post, spec_form_submits, spec_reject_text, spec_request_matches,
};
use vstd::prelude::*;

verus! {

/// The sub-pages of the topics tab.  `MessagesRecv` is `Messages` with the
/// receive task alive; `SendEdit` is `Send` with the form focused.
#[derive(Debug, Clone, Copy, PartialEq, Eq, Structural)]
pub enum TopicPage {
    Normal,
    Info,
    Messages,
    MessagesRecv,
    Send,
    SendEdit,
}

/// The topic list with its selection.
pub type TopicList = SelectList<KafkaTopic>;

/// What a key press asks the caller to do besides mutating the tab.
#[derive(Debug)]
pub enum TopicAction {
    /// Nothing to perform.
    Quiet,
    /// Spawn the receive task; the tab now counts it as alive.
    StartReceive,
    /// Abort the receive task; the tab no longer counts it as alive.
    StopReceive,
    /// Issue the development create-topic request.
    CreateTopic,
    /// Perform this produce and report back through `produce_result`.
    Produce(ProduceRequest),
}

/// What one key press returned: the next global mode and the action to
/// perform.
pub struct TopicKeyOutcome {
    pub mode: Mode,
    pub action: TopicAction,
}

/// Where `j`/Down moves a detail page: `Info -> Messages -> Send -> Info`,
/// with `MessagesRecv` cycling as `Messages` and `SendEdit` as `Send`.
pub open spec fn spec_page_down(p: TopicPage) -> TopicPage {
    match p {
        TopicPage::Normal => TopicPage::Normal,
        TopicPage::Info => TopicPage::Messages,
        TopicPage::Messages | TopicPage::MessagesRecv => TopicPage::Send,
        TopicPage::Send | TopicPage::SendEdit => TopicPage::Info,
    }
}

/// Where `k`/Up moves a detail page: the cycle of `spec_page_down`,
/// backwards.
pub open spec fn spec_page_up(p: TopicPage) -> TopicPage {
    match p {
        TopicPage::Normal => TopicPage::Normal,
        TopicPage::Info => TopicPage::Send,
        TopicPage::Messages | TopicPage::MessagesRecv => TopicPage::Info,
        TopicPage::Send | TopicPage::SendEdit => TopicPage::Messages,
    }
}

/// The name and sizing of the hardcoded development topic that `n` creates.
pub struct NewTopicRequest {
    pub name: String,
    pub partitions: i32,
    pub replication: i32,
}

/// The development create-topic request: one partition, replication one,
/// named "test".
pub fn create_topic_request() -> (r: NewTopicRequest)
    ensures
        r.name@ == "test"@,
        r.partitions == 1,
        r.replication == 1,
{
    NewTopicRequest { name: "test".to_owned(), partitions: 1, replication: 1 }
}

/// Nothing of the tab's navigation state changed.
pub open spec fn spec_nav_unchanged(pre: TopicTab, post: TopicTab) -> bool {
    &&& post.topic_page == pre.topic_page
    &&& post.topic_list == pre.topic_list
    &&& post.recv_alive == pre.recv_alive
}

/// The tab popped back to its base page; a live receive task was dropped.
pub open spec fn spec_pops_to_base(pre: TopicTab, post: TopicTab) -> bool {
    &&& post.topic_page is Normal
    &&& !post.recv_alive
    &&& post.topic_list == pre.topic_list
}

/// The selection moved to `sel`; everything else stayed.
pub open spec fn spec_moves_selection(pre: TopicTab, post: TopicTab, sel: Option<usize>) -> bool {
    &&& post.topic_page == pre.topic_page
    &&& post.recv_alive == pre.recv_alive
    &&& post.topic_list.items == pre.topic_list.items
    &&& post.topic_list.selected == sel
}

/// The sub-page moved to `target`; every target but `MessagesRecv` drops a
/// live receive task.
pub open spec fn spec_moves_to_page(pre: TopicTab, post: TopicTab, target: TopicPage) -> bool {
    &&& post.topic_page == target
    &&& post.recv_alive == (pre.recv_alive && target is MessagesRecv)
    &&& post.topic_list == pre.topic_list
}

/// The characters the topics tab acts on outside the focused form.
pub open spec fn spec_topic_hotkey(c: char) -> bool {
    c == 'q' || c == 'r' || c == 'g' || c == 'G' || c == 'h' || c == 'j' || c == 'k' || c == 'l'
        || c == 'n' || c == 'i'
}

/// The full transition relation of `TopicTab::handle_key_press`: how one
/// key press takes the tab from `pre` to `post` and what mode and action it
/// returns.  The app shell restates this relation for its own routing.
pub open spec fn spec_topic_key_step(
    pre: TopicTab,
    post: TopicTab,
    out: TopicKeyOutcome,
    key: Key,
    now_ms: u64,
) -> bool {
    &&& post.topic_list.items == pre.topic_list.items
    // the receive task changes hands only through these actions
    &&& (out.action is StopReceive <==> pre.recv_alive && !post.recv_alive)
    &&& (out.action is StartReceive <==> !pre.recv_alive && post.recv_alive)
    &&& (out.action is CreateTopic <==> (!(pre.topic_page is SendEdit) && key == Key::Char('n')))
    &&& (!(pre.topic_page is SendEdit) ==> !(out.action is Produce))
    &&& out.mode == (if !(pre.topic_page is SendEdit) && is_quit_key(key)
        && pre.topic_page is Normal {
        Mode::TabChoose
    } else if !(pre.topic_page is SendEdit) && key == Key::Char('r')
        && pre.topic_page is Normal {
        Mode::Refresh
    } else {
        Mode::Tab
    })
    // focused form: the key goes to the form
    &&& (pre.topic_page is SendEdit ==> {
        let pre_form = pre.send_form@;
        &&& post.send_form@ == spec_form_step_post(pre_form, key)
        &&& post.topic_page == spec_form_step_page(key)
        &&& !post.recv_alive
        &&& post.topic_list == pre.topic_list
        &&& (spec_form_submits(pre_form, key) ==> (out.action matches TopicAction::Produce(req)
            && spec_request_matches(pre_form, req)))
        &&& (spec_form_rejects(pre_form, key) ==> {
            &&& out.action is Quiet
            &&& (post.err.text matches Some(t) && t@ == spec_reject_text(pre_form))
            &&& post.err.set_at == Some(now_ms)
        })
        &&& (!spec_form_rejects(pre_form, key) ==> post.err == pre.err)
        &&& (!spec_form_submits(pre_form, key) && !spec_form_rejects(pre_form, key)
            ==> out.action is Quiet)
    })
    // everywhere else the form and the band are untouched
    &&& (!(pre.topic_page is SendEdit) ==> post.send_form == pre.send_form && post.err == pre.err)
    &&& (!(pre.topic_page is SendEdit) ==> {
        let page = pre.topic_page;
        let sel = pre.topic_list.selected;
        let len = pre.topic_list.items@.len() as int;
        &&& (is_quit_key(key) ==> (if page is Normal {
            spec_nav_unchanged(pre, post)
        } else {
            spec_pops_to_base(pre, post)
        }))
        &&& (key == Key::Char('r') || key == Key::Char('n') ==> spec_nav_unchanged(pre, post))
        &&& (is_first_key(key) ==> (if page is Normal {
            spec_moves_selection(pre, post, if len == 0 { Option::<usize>::None } else { Some(0usize) })
        } else {
            spec_nav_unchanged(pre, post)
        }))
        &&& (is_last_key(key) ==> (if page is Normal {
            spec_moves_selection(
                pre,
                post,
                if len == 0 { Option::<usize>::None } else { Some((len - 1) as usize) },
            )
        } else {
            spec_nav_unchanged(pre, post)
        }))
        &&& (is_left_key(key) ==> (if page is Normal {
            spec_moves_selection(pre, post, Option::<usize>::None)
        } else {
            spec_pops_to_base(pre, post)
        }))
        &&& (is_down_key(key) ==> (if page is Normal {
            spec_moves_selection(pre, post, spec_select_next(sel, len))
        } else {
            spec_moves_to_page(pre, post, spec_page_down(page))
        }))
        &&& (is_up_key(key) ==> (if page is Normal {
            spec_moves_selection(pre, post, spec_select_previous(sel, len))
        } else {
            spec_moves_to_page(pre, post, spec_page_up(page))
        }))
        &&& ((is_right_key(key) || (key == Key::Enter && (page is Normal || page is Info
            || page is MessagesRecv))) ==> (if spec_effective_selection(sel, len) is Some {
            spec_moves_to_page(pre, post, TopicPage::Info)
        } else {
            spec_nav_unchanged(pre, post)
        }))
        &&& ((key == Key::Char('i') || (key == Key::Enter && page is Send)) ==> (if page is Send {
            spec_moves_to_page(pre, post, TopicPage::SendEdit)
        } else {
            spec_nav_unchanged(pre, post)
        }))
        &&& (key == Key::Enter && page is Messages ==> post.topic_page is MessagesRecv
            && post.recv_alive && post.topic_list == pre.topic_list)
        &&& ((key == Key::Tab || key == Key::Backspace || key == Key::Other) ==> post == pre)
        &&& (key matches Key::Char(c) && !spec_topic_hotkey(c) ==> post == pre
            && out.action is Quiet)
    })
}

/// The topics tab controller.
#[derive(Debug)]
pub struct TopicTab {
    pub topic_list: TopicList,
    pub topic_page: TopicPage,
    pub send_form: TopicSendForm,
    pub err: ErrorBand,
    /// Whether the tab owns a live receive task.
    pub recv_alive: bool,
}

impl TopicTab {
    /// The tab's invariant: a receive task is alive only on `MessagesRecv`,
    /// the error band and the form are well formed, and every listed
    /// partition has valid watermarks.
    pub open spec fn wf(self) -> bool {
        &&& self.recv_alive ==> self.topic_page is MessagesRecv
        &&& self.err.wf()
        &&& self.send_form.wf()
        &&& forall|i: int|
            0 <= i < self.topic_list.items@.len() ==> (#[trigger] self.topic_list.items@[i]).wf()
    }

    /// A fresh tab: empty list, base page, fresh form bound to no topic,
    /// empty error band, no receive task.
    pub fn new() -> (t: Self)
        ensures
            t.topic_list.items@.len() == 0,
            t.topic_list.selected is None,
            t.topic_page is Normal,
            t.send_form@.topic.len() == 0,
            t.send_form@.message.len() == 0,
            t.send_form@.key.len() == 0,
            t.send_form@.partition.len() == 0,
            t.err.text is None,
            !t.recv_alive,
            t.wf(),
    {
        let t = TopicTab {
            topic_list: SelectList::new(),
            topic_page: TopicPage::Normal,
            send_form: TopicSendForm::new(""),
            err: ErrorBand::new(),
            recv_alive: false,
        };
        proof {
            reveal_strlit("");
        }
        t
    }

    /// Puts `error` on the error band, stamped `now_ms`.
    pub fn set_error(&mut self, error: String, now_ms: u64)
        requires
            old(self).wf(),
        ensures
            final(self).wf(),
            final(self).err.text == Some(error),
            final(self).err.set_at == Some(now_ms),
            final(self).topic_list == old(self).topic_list,
            final(self).topic_page == old(self).topic_page,
            final(self).send_form == old(self).send_form,
            final(self).recv_alive == old(self).recv_alive,
    {
        self.err.set_error(error, now_ms);
    }

    /// Reads the error band for display at `now_ms`, clearing it first when
    /// its display window has passed.
    pub fn current_error(&mut self, now_ms: u64) -> (shown: Option<String>)
        requires
            old(self).wf(),
        ensures
            final(self).wf(),
            final(self).err == old(self).err.spec_after_read(now_ms),
            (match shown {
                Some(s) => old(self).err.spec_shown(now_ms) == Some(s@),
                None => old(self).err.spec_shown(now_ms) is None,
            }),
            final(self).topic_list == old(self).topic_list,
            final(self).topic_page == old(self).topic_page,
            final(self).send_form == old(self).send_form,
            final(self).recv_alive == old(self).recv_alive,
    {
        self.err.current(now_ms)
    }

    /// Moves to `page`.  Leaving `MessagesRecv` for any other page stops
    /// counting the receive task as alive; the caller aborts it.
    pub fn set_topic_page(&mut self, page: TopicPage)
        requires
            old(self).wf(),
        ensures
            final(self).wf(),
            final(self).topic_page == page,
            final(self).recv_alive == (old(self).recv_alive && page is MessagesRecv),
            final(self).topic_list == old(self).topic_list,
            final(self).send_form == old(self).send_form,
            final(self).err == old(self).err,
    {
        if !(page == TopicPage::MessagesRecv) {
            self.recv_alive = false;
        }
        self.topic_page = page;
    }

    /// The topic the detail pane shows: the selected item, with an
    /// out-of-range stale selection counting as none.
    pub fn selected_topic(&self) -> (r: Option<&KafkaTopic>)
        ensures
            (match spec_effective_selection(
                self.topic_list.selected,
                self.topic_list.items@.len() as int,
            ) {
                Some(i) => r matches Some(t) && *t == self.topic_list.items@[i as int],
                None => r is None,
            }),
    {
        match self.topic_list.selected_index() {
            Some(i) => Some(&self.topic_list.items[i]),
            None => None,
        }
    }

    /// Replaces the whole topic list, as a metadata refresh does; the old
    /// items are gone, whether the refresh completed or aborted partway.
    pub fn apply_topics(&mut self, topics: Vec<KafkaTopic>)
        requires
            old(self).wf(),
            forall|i: int| 0 <= i < topics@.len() ==> (#[trigger] topics@[i]).wf(),
        ensures
            final(self).wf(),
            final(self).topic_list.items == topics,
            final(self).topic_list.selected == old(self).topic_list.selected,
            final(self).topic_page == old(self).topic_page,
            final(self).send_form == old(self).send_form,
            final(self).err == old(self).err,
            final(self).recv_alive == old(self).recv_alive,
    {
        self.topic_list.replace_items(topics);
    }

    /// Rebinds the form to the selected topic when the selection has moved
    /// away from the topic the form was bound to, clearing its fields; with
    /// no effective selection, or the same topic, nothing changes.
    pub fn sync_form_topic(&mut self)
        requires
            old(self).wf(),
        ensures
            final(self).wf(),
            final(self).topic_list == old(self).topic_list,
            final(self).topic_page == old(self).topic_page,
            final(self).err == old(self).err,
            final(self).recv_alive == old(self).recv_alive,
            (match spec_effective_selection(
                old(self).topic_list.selected,
                old(self).topic_list.items@.len() as int,
            ) {
                Some(i) => {
                    let nm = old(self).topic_list.items@[i as int].name@;
                    &&& old(self).send_form@.topic == nm
                        ==> final(self).send_form == old(self).send_form
                    &&& old(self).send_form@.topic != nm ==> final(self).send_form@ == (FormView {
                        topic: nm,
                        ..spec_empty(old(self).send_form@)
                    })
                },
                None => final(self).send_form == old(self).send_form,
            }),
    {
        let sel = self.topic_list.selected_index();
        match sel {
            Some(i) => {
                let same: bool = self.send_form.topic == self.topic_list.items[i].name;
                if !same {
                    let name = self.topic_list.items[i].name.clone();
                    self.send_form.set_topic(name.as_str());
                }
            },
            None => {},
        }
    }

    /// Records the broker's answer to the submitted produce: on success the
    /// form is cleared and the tab returns to `Messages`; on failure the
    /// error lands on the band and the tab stays where it was, form intact.
    pub fn produce_result(&mut self, outcome: Result<(), String>, now_ms: u64)
        requires
            old(self).wf(),
        ensures
            final(self).wf(),
            final(self).topic_list == old(self).topic_list,
            (outcome is Ok ==> {
                &&& final(self).send_form@ == spec_empty(old(self).send_form@)
                &&& final(self).topic_page is Messages
                &&& !final(self).recv_alive
                &&& final(self).err == old(self).err
            }),
            (outcome matches Err(e) ==> {
                &&& final(self).send_form == old(self).send_form
                &&& final(self).topic_page == old(self).topic_page
                &&& final(self).recv_alive == old(self).recv_alive
                &&& final(self).err.text == Some(e)
                &&& final(self).err.set_at == Some(now_ms)
            }),
    {
        match outcome {
            Ok(()) => {
                self.send_form.empty();
                self.set_topic_page(TopicPage::Messages);
            },
            Err(e) => {
                self.err.set_error(e, now_ms);
            },
        }
    }

    /// Records that the receive task ended on its own: the band shows the
    /// task's error, or the literal completion message.  The task's handle
    /// is still held until the next page transition, as the tab counts it.
    pub fn receive_ended(&mut self, error: Option<String>, now_ms: u64)
        requires
            old(self).wf(),
        ensures
            final(self).wf(),
            (final(self).err.text matches Some(t) && t@ == (match error {
                Some(e) => e@,
                None => "Recv messages finished"@,
            })),
            final(self).err.set_at == Some(now_ms),
            final(self).topic_list == old(self).topic_list,
            final(self).topic_page == old(self).topic_page,
            final(self).send_form == old(self).send_form,
            final(self).recv_alive == old(self).recv_alive,
    {
        let text = match error {
            Some(e) => e,
            None => "Recv messages finished".to_owned(),
        };
        self.err.set_error(text, now_ms);
    }

    /// Routes one key press.  On `SendEdit` the key goes to the form, whose
    /// page decides the next sub-page and whose submit becomes a `Produce`
    /// action or a banded validation error.  Elsewhere the key navigates:
    /// selection moves on the base page, detail pages cycle, `Enter` on
    /// `Messages` starts the receive task, and any transition out of
    /// `MessagesRecv` stops it.
    pub fn handle_key_press(&mut self, key: Key, now_ms: u64) -> (out: TopicKeyOutcome)
        requires
            old(self).wf(),
        ensures
            final(self).wf(),
            final(self).wf(),
            spec_topic_key_step(*old(self), *final(self), out, key, now_ms),
    {
        if self.topic_page == TopicPage::SendEdit {
            let form_out = self.send_form.handle_key_press(key);
            let action = match form_out.request {
                Some(req) => TopicAction::Produce(req),
                None => TopicAction::Quiet,
            };
            match form_out.error {
                Some(e) => {
                    self.err.set_error(e, now_ms);
                },
                None => {},
            }
            self.set_topic_page(form_out.page);
            return TopicKeyOutcome { mode: Mode::Tab, action };
        }
        match key {
            Key::Esc | Key::Char('q') => {
                if self.topic_page == TopicPage::Normal {
                    TopicKeyOutcome { mode: Mode::TabChoose, action: TopicAction::Quiet }
                } else {
                    let was = self.recv_alive;
                    self.set_topic_page(TopicPage::Normal);
                    TopicKeyOutcome { mode: Mode::Tab, action: stop_action(was) }
                }
            },
            Key::Char('r') => {
                if self.topic_page == TopicPage::Normal {
                    TopicKeyOutcome { mode: Mode::Refresh, action: TopicAction::Quiet }
                } else {
                    TopicKeyOutcome { mode: Mode::Tab, action: TopicAction::Quiet }
                }
            },
            Key::Char('g') | Key::Home => {
                if self.topic_page == TopicPage::Normal {
                    self.topic_list.select_first();
                }
                TopicKeyOutcome { mode: Mode::Tab, action: TopicAction::Quiet }
            },
            Key::Char('G') | Key::End => {
                if self.topic_page == TopicPage::Normal {
                    self.topic_list.select_last();
                }
                TopicKeyOutcome { mode: Mode::Tab, action: TopicAction::Quiet }
            },
            Key::Char('h') | Key::Left => {
                if self.topic_page == TopicPage::Normal {
                    self.topic_list.select_none();
                    TopicKeyOutcome { mode: Mode::Tab, action: TopicAction::Quiet }
                } else {
                    let was = self.recv_alive;
                    self.set_topic_page(TopicPage::Normal);
                    TopicKeyOutcome { mode: Mode::Tab, action: stop_action(was) }
                }
            },
            Key::Char('j') | Key::Down => {
                if self.topic_page == TopicPage::Normal {
                    self.topic_list.select_next();
                    TopicKeyOutcome { mode: Mode::Tab, action: TopicAction::Quiet }
                } else {
                    let was = self.recv_alive;
                    let target = page_down(self.topic_page);
                    self.set_topic_page(target);
                    TopicKeyOutcome { mode: Mode::Tab, action: stop_action(was && !self.recv_alive) }
                }
            },
            Key::Char('k') | Key::Up => {
                if self.topic_page == TopicPage::Normal {
                    self.topic_list.select_previous();
                    TopicKeyOutcome { mode: Mode::Tab, action: TopicAction::Quiet }
                } else {
                    let was = self.recv_alive;
                    let target = page_up(self.topic_page);
                    self.set_topic_page(target);
                    TopicKeyOutcome { mode: Mode::Tab, action: stop_action(was && !self.recv_alive) }
                }
            },
            Key::Char('l') | Key::Right => self.topic_detail(),
            Key::Char('n') => TopicKeyOutcome { mode: Mode::Tab, action: TopicAction::CreateTopic },
            Key::Char('i') => {
                if self.topic_page == TopicPage::Send {
                    self.set_topic_page(TopicPage::SendEdit);
                }
                TopicKeyOutcome { mode: Mode::Tab, action: TopicAction::Quiet }
            },
            Key::Enter => {
                if self.topic_page == TopicPage::Send {
                    self.set_topic_page(TopicPage::SendEdit);
                    TopicKeyOutcome { mode: Mode::Tab, action: TopicAction::Quiet }
                } else if self.topic_page == TopicPage::Messages {
                    self.set_topic_page(TopicPage::MessagesRecv);
                    self.recv_alive = true;
                    TopicKeyOutcome { mode: Mode::Tab, action: TopicAction::StartReceive }
                } else {
                    self.topic_detail()
                }
            },
            _ => TopicKeyOutcome { mode: Mode::Tab, action: TopicAction::Quiet },
        }
    }

    /// Opens the detail page on the selected topic; with no effective
    /// selection nothing happens.
    fn topic_detail(&mut self) -> (out: TopicKeyOutcome)
        requires
            old(self).wf(),
        ensures
            final(self).wf(),
            out.mode == Mode::Tab,
            final(self).topic_list == old(self).topic_list,
            final(self).send_form == old(self).send_form,
            final(self).err == old(self).err,
            (out.action is StopReceive <==> old(self).recv_alive && !final(self).recv_alive),
            !(out.action is StartReceive),
            !(out.action is CreateTopic),
            !(out.action is Produce),
            (if spec_effective_selection(
                old(self).topic_list.selected,
                old(self).topic_list.items@.len() as int,
            ) is Some {
                final(self).topic_page is Info && !final(self).recv_alive
            } else {
                final(self).topic_page == old(self).topic_page
                    && final(self).recv_alive == old(self).recv_alive
            }),
    {
        match self.topic_list.selected_index() {
            Some(_) => {
                let was = self.recv_alive;
                self.set_topic_page(TopicPage::Info);
                TopicKeyOutcome { mode: Mode::Tab, action: stop_action(was) }
            },
            None => TopicKeyOutcome { mode: Mode::Tab, action: TopicAction::Quiet },
        }
    }
}

/// The `StopReceive` action exactly when a live task was just dropped.
fn stop_action(stopped: bool) -> (a: TopicAction)
    ensures
        a is StopReceive <==> stopped,
        !stopped ==> a is Quiet,
{
    if stopped {
        TopicAction::StopReceive
    } else {
        TopicAction::Quiet
    }
}

/// Exec twin of `spec_page_down`.
fn page_down(p: TopicPage) -> (r: TopicPage)
    ensures
        r == spec_page_down(p),
{
    match p {
        TopicPage::Normal => TopicPage::Normal,
        TopicPage::Info => TopicPage::Messages,
        TopicPage::Messages | TopicPage::MessagesRecv => TopicPage::Send,
        TopicPage::Send | TopicPage::SendEdit => TopicPage::Info,
    }
}

/// Exec twin of `spec_page_up`.
fn page_up(p: TopicPage) -> (r: TopicPage)
    ensures
        r == spec_page_up(p),
{
    match p {
        TopicPage::Normal => TopicPage::Normal,
        TopicPage::Info => TopicPage::Send,
        TopicPage::Messages | TopicPage::MessagesRecv => TopicPage::Info,
        TopicPage::Send | TopicPage::SendEdit => TopicPage::Messages,
    }
}

/// At most one receive task exists, and only while the tab sits on
/// `MessagesRecv`: in every well-formed state, a page other than
/// `MessagesRecv` has no live receive task.
pub proof fn law_receive_task_exclusive(t: TopicTab)
    requires
        t.wf(),
    ensures
        !(t.topic_page is MessagesRecv) ==> !t.recv_alive,
{
}

/// A receive task is alive exactly on `MessagesRecv`, and every key press
/// preserves that: if it held of the tab before the key, it holds after,
/// whatever the key was.
pub proof fn law_receive_alive_iff_messages_recv(
    pre: TopicTab,
    post: TopicTab,
    out: TopicKeyOutcome,
    key: Key,
    now_ms: u64,
)
    requires
        pre.wf(),
        post.wf(),
        spec_topic_key_step(pre, post, out, key, now_ms),
        pre.recv_alive <==> pre.topic_page is MessagesRecv,
    ensures
        post.recv_alive <==> post.topic_page is MessagesRecv,
{
}

/// Every partition the tab can render has ordered watermarks, and its
/// displayed lag is exactly `high - low`.
pub proof fn law_rendered_partitions_valid(t: TopicTab)
    requires
        t.wf(),
    ensures
        forall|i: int, j: int|
            0 <= i < t.topic_list.items@.len() && 0 <= j
                < t.topic_list.items@[i].partitions@.len() ==> {
                let p = #[trigger] t.topic_list.items@[i].partitions@[j];
                p.low <= p.high && p.spec_lag() == p.high - p.low
            },
{
    assert forall|i: int, j: int|
        0 <= i < t.topic_list.items@.len() && 0 <= j
            < t.topic_list.items@[i].partitions@.len() implies {
        let p = #[trigger] t.topic_list.items@[i].partitions@[j];
        p.low <= p.high && p.spec_lag() == p.high - p.low
    } by {
        assert(t.topic_list.items@[i].wf());
    }
}

} // verus!
