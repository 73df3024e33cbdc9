//! The three-field send form hosted by the topics tab.
//!
//! The form edits a message, a key and a partition as character sequences,
//! with one cursor into the active field.  The partition field accepts
//! decimal digits only.  Submitting builds a produce request; the broker
//! acknowledgement is awaited outside and reported back to the topics tab.

use crate::keys::Key;
use crate::tabs::topic::TopicPage;
use vstd::prelude::*;

verus! {

/// Which of the three fields the cursor edits.
#[derive(Debug, Clone, Copy, PartialEq, Eq, Structural)]
pub enum InputField {
    Message,
    Key,
    Partition,
}

/// What `InputField::next` returns: the following field in the cycle
/// `Message -> Key -> Partition -> Message`.
pub open spec fn spec_field_next(f: InputField) -> InputField {
    match f {
        InputField::Message => InputField::Key,
        InputField::Key => InputField::Partition,
        InputField::Partition => InputField::Message,
    }
}

impl InputField {
    /// Advances to the following field in the cycle.
    pub fn next(&mut self)
        ensures
            *final(self) == spec_field_next(*old(self)),
    {
        *self = match self {
            InputField::Message => InputField::Key,
            InputField::Key => InputField::Partition,
            InputField::Partition => InputField::Message,
        };
    }
}

/// Whether `c` is a decimal digit, the only characters the partition field
/// accepts.
pub open spec fn is_decimal_digit(c: char) -> bool {
    48 <= c as u32 && c as u32 <= 57
}

/// The numeric value of a decimal digit.
pub open spec fn digit_val(c: char) -> int {
    c as u32 - 48
}

/// Whether every character of `s` is a decimal digit.
pub open spec fn all_digits(s: Seq<char>) -> bool {
    forall|i: int| 0 <= i < s.len() ==> is_decimal_digit(#[trigger] s[i])
}

/// The number a sequence of decimal digits denotes, most significant first;
/// the empty sequence denotes zero.
pub open spec fn digits_value(s: Seq<char>) -> int
    decreases s.len(),
{
    if s.len() == 0 {
        0
    } else {
        digits_value(s.drop_last()) * 10 + digit_val(s.last())
    }
}

/// A sequence of decimal digits denotes a non-negative number.
pub proof fn lemma_digits_value_nonneg(s: Seq<char>)
    requires
        all_digits(s),
    ensures
        digits_value(s) >= 0,
    decreases s.len(),
{
    if s.len() > 0 {
        assert(all_digits(s.drop_last()));
        lemma_digits_value_nonneg(s.drop_last());
        assert(is_decimal_digit(s[s.len() - 1]));
    }
}

/// Extending a digit sequence to the right never shrinks its value.
pub proof fn lemma_digits_value_prefix_le(s: Seq<char>, i: int)
    requires
        all_digits(s),
        0 <= i <= s.len(),
    ensures
        digits_value(s.subrange(0, i)) <= digits_value(s),
    decreases s.len() - i,
{
    if i == s.len() {
        assert(s.subrange(0, i) =~= s);
    } else {
        let shorter = s.subrange(0, i);
        let longer = s.subrange(0, i + 1);
        assert(longer.drop_last() =~= shorter);
        assert(longer.last() == s[i]);
        assert(all_digits(shorter));
        lemma_digits_value_nonneg(shorter);
        assert(is_decimal_digit(s[i]));
        assert(digits_value(longer) == digits_value(shorter) * 10 + digit_val(s[i]));
        lemma_digits_value_prefix_le(s, i + 1);
    }
}

/// Parses a digit-only field into a partition number.  Returns `None`
/// exactly when the denoted number does not fit in an `i32`.
pub fn parse_partition(digits: &Vec<char>) -> (r: Option<i32>)
    requires
        all_digits(digits@),
    ensures
        (match r {
            Some(v) => digits_value(digits@) <= i32::MAX && v == digits_value(digits@),
            None => digits_value(digits@) > i32::MAX,
        }),
{
    let mut acc: u64 = 0;
    let n: usize = digits.len();
    for i in 0..n
        invariant
            n == digits@.len(),
            all_digits(digits@),
            acc == digits_value(digits@.subrange(0, i as int)),
            acc <= i32::MAX as u64,
    {
        let c: char = digits[i];
        assert(is_decimal_digit(digits@[i as int]));
        let d: u64 = (c as u32 - 48) as u64;
        let next_acc: u64 = acc * 10 + d;
        proof {
            let longer = digits@.subrange(0, i + 1);
            assert(longer.drop_last() =~= digits@.subrange(0, i as int));
            assert(longer.last() == digits@[i as int]);
            assert(digits_value(longer) == acc * 10 + digit_val(digits@[i as int]));
        }
        if next_acc > i32::MAX as u64 {
            proof {
                lemma_digits_value_prefix_le(digits@, i + 1);
            }
            return None;
        }
        acc = next_acc;
    }
    proof {
        assert(digits@.subrange(0, n as int) =~= digits@);
    }
    Some(acc as i32)
}

/// A produce record built by the send form, ready to be handed to the
/// producer.  `partition` is the parsed partition field, or `None` to let
/// the broker assign one.
#[derive(Debug, Clone)]
pub struct ProduceRequest {
    pub topic: String,
    pub payload: Vec<char>,
    pub key: Vec<char>,
    pub partition: Option<i32>,
}

/// The form's state as mathematical values.
#[verifier::ext_equal]
pub ghost struct FormView {
    pub field: InputField,
    pub topic: Seq<char>,
    pub message: Seq<char>,
    pub key: Seq<char>,
    pub partition: Seq<char>,
    pub cursor: nat,
}

impl FormView {
    /// The text of the field the cursor edits.
    pub open spec fn active_text(self) -> Seq<char> {
        match self.field {
            InputField::Message => self.message,
            InputField::Key => self.key,
            InputField::Partition => self.partition,
        }
    }

    /// The cursor stays inside the active field and the partition field
    /// holds decimal digits only.
    pub open spec fn wf(self) -> bool {
        &&& self.cursor <= self.active_text().len()
        &&& all_digits(self.partition)
    }
}

/// The form after `Tab` (or `Enter` outside the message field): the next
/// field becomes active and the cursor jumps to its end.
pub open spec fn spec_change_field(v: FormView) -> FormView {
    let moved = FormView { field: spec_field_next(v.field), ..v };
    FormView { cursor: moved.active_text().len(), ..moved }
}

/// The form after `Left`: the cursor retreats one place, saturating at the
/// start of the field.
pub open spec fn spec_move_left(v: FormView) -> FormView {
    FormView { cursor: if v.cursor > 0 { (v.cursor - 1) as nat } else { 0 }, ..v }
}

/// The form after `Right`: the cursor advances one place, saturating at the
/// end of the field.
pub open spec fn spec_move_right(v: FormView) -> FormView {
    FormView { cursor: if v.cursor < v.active_text().len() { v.cursor + 1 } else { v.cursor }, ..v }
}

/// The form after inserting `c` at the cursor of the active field.
pub open spec fn spec_insert_active(v: FormView, c: char) -> FormView {
    match v.field {
        InputField::Message => FormView {
            message: v.message.insert(v.cursor as int, c),
            cursor: v.cursor + 1,
            ..v
        },
        InputField::Key => FormView { key: v.key.insert(v.cursor as int, c), cursor: v.cursor + 1, ..v },
        InputField::Partition => FormView {
            partition: v.partition.insert(v.cursor as int, c),
            cursor: v.cursor + 1,
            ..v
        },
    }
}

/// The form after a printable character `c`: inserted at the cursor, except
/// that the partition field silently ignores anything but a decimal digit.
pub open spec fn spec_enter_char(v: FormView, c: char) -> FormView {
    if v.field is Partition && !is_decimal_digit(c) {
        v
    } else {
        spec_insert_active(v, c)
    }
}

/// The form after `Backspace`: the character before the cursor is removed
/// and the cursor retreats; at the start of the field nothing happens.
pub open spec fn spec_delete_char(v: FormView) -> FormView {
    if v.cursor == 0 {
        v
    } else {
        let at = v.cursor - 1;
        match v.field {
            InputField::Message => FormView {
                message: v.message.remove(at),
                cursor: at as nat,
                ..v
            },
            InputField::Key => FormView { key: v.key.remove(at), cursor: at as nat, ..v },
            InputField::Partition => FormView {
                partition: v.partition.remove(at),
                cursor: at as nat,
                ..v
            },
        }
    }
}

/// The form after its three fields and cursor are cleared; the active field
/// and the bound topic stay.
pub open spec fn spec_empty(v: FormView) -> FormView {
    FormView {
        message: Seq::empty(),
        key: Seq::empty(),
        partition: Seq::empty(),
        cursor: 0,
        ..v
    }
}

/// Whether submit accepts the form: message and key are non-empty, and a
/// non-empty partition field denotes a number that fits a partition id.
pub open spec fn spec_submit_accepts(v: FormView) -> bool {
    &&& v.message.len() > 0
    &&& v.key.len() > 0
    &&& v.partition.len() > 0 ==> digits_value(v.partition) <= i32::MAX
}

/// Whether submit rejects the form for an empty message or key.
pub open spec fn spec_empty_reject(v: FormView) -> bool {
    v.message.len() == 0 || v.key.len() == 0
}

/// The form after one key press while focused: editing keys apply their
/// model, field-advance keys apply `spec_change_field`, and everything else
/// leaves the form as it is.
pub open spec fn spec_form_step_post(v: FormView, key: Key) -> FormView {
    match key {
        Key::Enter => if v.field is Message {
            v
        } else {
            spec_change_field(v)
        },
        Key::Tab => spec_change_field(v),
        Key::Esc => v,
        Key::Left => spec_move_left(v),
        Key::Right => spec_move_right(v),
        Key::Char(c) => spec_enter_char(v, c),
        Key::Backspace => spec_delete_char(v),
        _ => v,
    }
}

/// The sub-page after one key press while the form is focused: `Esc`
/// cancels back to `Send`; every other key stays on `SendEdit`, submit
/// included, until the acknowledgement is reported back.
pub open spec fn spec_form_step_page(key: Key) -> TopicPage {
    if key == Key::Esc {
        TopicPage::Send
    } else {
        TopicPage::SendEdit
    }
}

/// Whether this key press attempts submit and the form accepts.
pub open spec fn spec_form_submits(v: FormView, key: Key) -> bool {
    key == Key::Enter && v.field is Message && spec_submit_accepts(v)
}

/// Whether this key press attempts submit and the form rejects.
pub open spec fn spec_form_rejects(v: FormView, key: Key) -> bool {
    key == Key::Enter && v.field is Message && !spec_submit_accepts(v)
}

/// The error text a rejected submit surfaces.
pub open spec fn spec_reject_text(v: FormView) -> Seq<char> {
    if spec_empty_reject(v) {
        "Message or key is empty"@
    } else {
        "Partition out of range"@
    }
}

/// Whether `req` is the produce record the form `v` describes.
pub open spec fn spec_request_matches(v: FormView, req: ProduceRequest) -> bool {
    &&& req.topic@ == v.topic
    &&& req.payload@ == v.message
    &&& req.key@ == v.key
    &&& v.partition.len() == 0 ==> req.partition is None
    &&& v.partition.len() > 0 ==> (req.partition matches Some(p) && p == digits_value(v.partition))
}

/// What handling one key in the form produced: the next sub-page, at most
/// one produce request to perform, and at most one validation error to
/// surface.
pub struct FormOutcome {
    pub page: TopicPage,
    pub request: Option<ProduceRequest>,
    pub error: Option<String>,
}

/// The three-field text entry for publishing a message, bound to one topic.
#[derive(Debug, Clone)]
pub struct TopicSendForm {
    pub field: InputField,
    pub topic: String,
    pub partition: Vec<char>,
    pub message: Vec<char>,
    pub key: Vec<char>,
    pub cursor_index: usize,
}

impl View for TopicSendForm {
    type V = FormView;

    open spec fn view(&self) -> FormView {
        FormView {
            field: self.field,
            topic: self.topic@,
            message: self.message@,
            key: self.key@,
            partition: self.partition@,
            cursor: self.cursor_index as nat,
        }
    }
}

impl TopicSendForm {
    /// The cursor stays inside the active field and the partition field
    /// holds decimal digits only.
    pub open spec fn wf(self) -> bool {
        self@.wf()
    }

    /// A fresh form bound to `topic`: all fields empty, message field
    /// active, cursor at the start.
    pub fn new(topic: &str) -> (form: Self)
        ensures
            form@.topic == topic@,
            form@.field is Message,
            form@.message.len() == 0,
            form@.key.len() == 0,
            form@.partition.len() == 0,
            form@.cursor == 0,
            form.wf(),
    {
        TopicSendForm {
            field: InputField::Message,
            topic: topic.to_owned(),
            message: Vec::new(),
            key: Vec::new(),
            partition: Vec::new(),
            cursor_index: 0,
        }
    }

    /// Rebinds the form to `topic` and clears all fields, as happens when
    /// the selected topic changes under a mounted form.
    pub fn set_topic(&mut self, topic: &str)
        ensures
            final(self)@ == (FormView { topic: topic@, ..spec_empty(old(self)@) }),
            final(self).wf(),
    {
        self.topic = topic.to_owned();
        self.empty();
    }

    /// The topic the form is bound to.
    pub fn get_topic(&self) -> (t: &str)
        ensures
            t@ == self@.topic,
    {
        self.topic.as_str()
    }

    /// Clears the three fields and the cursor; the active field and the
    /// bound topic stay.
    pub fn empty(&mut self)
        ensures
            final(self)@ == spec_empty(old(self)@),
            final(self).wf(),
    {
        self.message.clear();
        self.key.clear();
        self.partition.clear();
        self.cursor_index = 0;
    }

    /// Advances to the next field and puts the cursor at its end.
    pub fn change_field(&mut self)
        requires
            old(self).wf(),
        ensures
            final(self)@ == spec_change_field(old(self)@),
            final(self).wf(),
    {
        self.field.next();
        self.cursor_index = match self.field {
            InputField::Message => self.message.len(),
            InputField::Key => self.key.len(),
            InputField::Partition => self.partition.len(),
        };
    }

    /// Moves the cursor one place left, saturating at the start.
    pub fn move_cursor_left(&mut self)
        requires
            old(self).wf(),
        ensures
            final(self)@ == spec_move_left(old(self)@),
            final(self).wf(),
    {
        if self.cursor_index > 0 {
            self.cursor_index = self.cursor_index - 1;
        }
    }

    /// Moves the cursor one place right, saturating at the end of the
    /// active field.
    pub fn move_cursor_right(&mut self)
        requires
            old(self).wf(),
        ensures
            final(self)@ == spec_move_right(old(self)@),
            final(self).wf(),
    {
        let len: usize = match self.field {
            InputField::Message => self.message.len(),
            InputField::Key => self.key.len(),
            InputField::Partition => self.partition.len(),
        };
        if self.cursor_index < len {
            self.cursor_index = self.cursor_index + 1;
        }
    }

    /// Inserts `c` at the cursor of the active field and advances the
    /// cursor; the partition field silently ignores anything but a decimal
    /// digit.
    pub fn enter_char(&mut self, c: char)
        requires
            old(self).wf(),
        ensures
            final(self)@ == spec_enter_char(old(self)@, c),
            final(self).wf(),
    {
        match self.field {
            InputField::Message => {
                self.message.insert(self.cursor_index, c);
                let n: usize = self.message.len();
                assert(self.cursor_index < n);
                self.cursor_index = self.cursor_index + 1;
            },
            InputField::Key => {
                self.key.insert(self.cursor_index, c);
                let n: usize = self.key.len();
                assert(self.cursor_index < n);
                self.cursor_index = self.cursor_index + 1;
            },
            InputField::Partition => {
                let u: u32 = c as u32;
                if 48 <= u && u <= 57 {
                    self.partition.insert(self.cursor_index, c);
                    let n: usize = self.partition.len();
                    assert(self.cursor_index < n);
                    self.cursor_index = self.cursor_index + 1;
                } else {
                    proof {
                        assert(final(self)@ =~= spec_enter_char(old(self)@, c));
                    }
                }
            },
        }
    }

    /// Removes the character before the cursor of the active field and
    /// retreats the cursor; at the start of the field nothing happens.
    pub fn delete_char(&mut self)
        requires
            old(self).wf(),
        ensures
            final(self)@ == spec_delete_char(old(self)@),
            final(self).wf(),
    {
        if self.cursor_index == 0 {
            return ;
        }
        let at: usize = self.cursor_index - 1;
        match self.field {
            InputField::Message => {
                self.message.remove(at);
            },
            InputField::Key => {
                self.key.remove(at);
            },
            InputField::Partition => {
                self.partition.remove(at);
            },
        }
        self.cursor_index = at;
    }

    /// Builds the produce record submit describes: accepted exactly when
    /// message and key are non-empty and the partition field, if filled,
    /// denotes a number that fits a partition id; rejected otherwise, with
    /// the text the error band shows.
    pub fn build_request(&self) -> (r: Result<ProduceRequest, String>)
        requires
            self.wf(),
        ensures
            r is Ok <==> spec_submit_accepts(self@),
            (r matches Ok(req) ==> spec_request_matches(self@, req)),
            (r matches Err(e) ==> {
                &&& spec_empty_reject(self@) ==> e@ == "Message or key is empty"@
                &&& !spec_empty_reject(self@) ==> e@ == "Partition out of range"@
            }),
    {
        if self.message.len() == 0 || self.key.len() == 0 {
            return Err("Message or key is empty".to_owned());
        }
        let partition: Option<i32> = if self.partition.len() == 0 {
            None
        } else {
            match parse_partition(&self.partition) {
                Some(p) => Some(p),
                None => {
                    return Err("Partition out of range".to_owned());
                },
            }
        };
        Ok(
            ProduceRequest {
                topic: self.topic.clone(),
                payload: clone_chars(&self.message),
                key: clone_chars(&self.key),
                partition,
            },
        )
    }

    /// Routes one key press while the form is focused.  Editing keys mutate
    /// the form and stay on `SendEdit`; `Esc` cancels back to `Send`;
    /// `Enter` in the message field attempts submit, emitting either a
    /// produce request or a validation error while the page stays
    /// `SendEdit` until the acknowledgement is reported back.
    pub fn handle_key_press(&mut self, key: Key) -> (out: FormOutcome)
        requires
            old(self).wf(),
        ensures
            final(self).wf(),
            final(self)@ == spec_form_step_post(old(self)@, key),
            out.page == spec_form_step_page(key),
            (spec_form_submits(old(self)@, key) ==> (out.request matches Some(req)
                && spec_request_matches(old(self)@, req))),
            !spec_form_submits(old(self)@, key) ==> out.request is None,
            (spec_form_rejects(old(self)@, key) ==> (out.error matches Some(e) && e@
                == spec_reject_text(old(self)@))),
            !spec_form_rejects(old(self)@, key) ==> out.error is None,
    {
        match key {
            Key::Enter => {
                match self.field {
                    InputField::Message => {
                        match self.build_request() {
                            Ok(req) => FormOutcome {
                                page: TopicPage::SendEdit,
                                request: Some(req),
                                error: None,
                            },
                            Err(e) => FormOutcome {
                                page: TopicPage::SendEdit,
                                request: None,
                                error: Some(e),
                            },
                        }
                    },
                    _ => {
                        self.change_field();
                        FormOutcome { page: TopicPage::SendEdit, request: None, error: None }
                    },
                }
            },
            Key::Tab => {
                self.change_field();
                FormOutcome { page: TopicPage::SendEdit, request: None, error: None }
            },
            Key::Esc => FormOutcome { page: TopicPage::Send, request: None, error: None },
            Key::Left => {
                self.move_cursor_left();
                FormOutcome { page: TopicPage::SendEdit, request: None, error: None }
            },
            Key::Right => {
                self.move_cursor_right();
                FormOutcome { page: TopicPage::SendEdit, request: None, error: None }
            },
            Key::Char(c) => {
                self.enter_char(c);
                FormOutcome { page: TopicPage::SendEdit, request: None, error: None }
            },
            Key::Backspace => {
                self.delete_char();
                FormOutcome { page: TopicPage::SendEdit, request: None, error: None }
            },
            _ => FormOutcome { page: TopicPage::SendEdit, request: None, error: None },
        }
    }
}

/// Copies a character vector; characters are plain values.
fn clone_chars(v: &Vec<char>) -> (r: Vec<char>)
    ensures
        r@ == v@,
{
    let mut r: Vec<char> = Vec::new();
    let n: usize = v.len();
    for i in 0..n
        invariant
            n == v@.len(),
            r@ =~= v@.subrange(0, i as int),
    {
        r.push(v[i]);
    }
    proof {
        assert(v@.subrange(0, n as int) =~= v@);
    }
    r
}

/// A character received by the partition field appears in the field
/// afterwards exactly when it is a decimal digit.
pub proof fn law_partition_char_filter(v: FormView, c: char)
    requires
        v.wf(),
        v.field is Partition,
    ensures
        spec_enter_char(v, c).partition.contains(c) <==> is_decimal_digit(c),
{
    if is_decimal_digit(c) {
        let after = spec_enter_char(v, c).partition;
        assert(after == v.partition.insert(v.cursor as int, c));
        assert(after[v.cursor as int] == c);
    } else {
        assert(spec_enter_char(v, c).partition == v.partition);
        assert forall|i: int| 0 <= i < v.partition.len() implies v.partition[i] != c by {
            assert(is_decimal_digit(v.partition[i]));
        }
    }
}

/// Submit rejects exactly the forms whose message or key is empty, as long
/// as the partition field denotes a representable partition id.
pub proof fn law_submit_rejects_empty(v: FormView)
    requires
        v.wf(),
        v.partition.len() > 0 ==> digits_value(v.partition) <= i32::MAX,
    ensures
        spec_submit_accepts(v) <==> !(v.message.len() == 0 || v.key.len() == 0),
{
}

} // verus!
