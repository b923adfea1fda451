//! The session: what the client knows and how each event changes it.
//!
//! A [`Chat`] holds the roster, the history, the local user's name, the text
//! of the input field and whether the emoji picker is open. It touches
//! nothing outside itself. Each event gives a new state and an [`Update`]
//! that tells the caller what to do next: which frame to send, whether to
//! draw again, what to do to the input field. [`ChatView::step`] says all of
//! it as a function from state and event to state and effects.

use vstd::prelude::*;
use vstd::string::*;
use crate::roster::{
    build_roster, lemma_roster_of_well_formed, position_of, roster_of, roster_well_formed,
    UserProfile, UserProfileView,
};
use crate::text::{is_blank, lemma_trimmed_empty_iff_blank, text_eq, trim, trimmed};
use crate::wire::{
    decode, decode_data_text, decode_text, encode, encodes, MessageData, MessageDataView,
    ProtocolError, WireMessage, WireMessageView,
};

verus! {

/// A key that went down in the input field.
#[derive(Clone, Debug, PartialEq, Eq)]
pub struct KeyPress {
    /// The key's name, such as `"Enter"` or `"a"`.
    pub key: String,
    /// Whether shift was held.
    pub shift: bool,
}

/// An event that the session reacts to.
#[derive(Clone, Debug, PartialEq, Eq)]
pub enum Msg {
    /// A frame came in, as raw text.
    HandleMsg(String),
    /// The user asked to send what the input field holds.
    SubmitMessage,
    /// A key went down in the input field.
    InputKeyPress(KeyPress),
    /// The user pressed the emoji button.
    ToggleEmojiPicker,
    /// The user picked an emoji.
    InsertEmoji(String),
}

/// What a [`Msg`] holds.
pub enum MsgView {
    HandleMsg(Seq<char>),
    SubmitMessage,
    InputKeyPress { key: Seq<char>, shift: bool },
    ToggleEmojiPicker,
    InsertEmoji(Seq<char>),
}

impl View for Msg {
    type V = MsgView;

    open spec fn view(&self) -> MsgView {
        match self {
            Msg::HandleMsg(text) => MsgView::HandleMsg(text@),
            Msg::SubmitMessage => MsgView::SubmitMessage,
            Msg::InputKeyPress(press) => MsgView::InputKeyPress {
                key: press.key@,
                shift: press.shift,
            },
            Msg::ToggleEmojiPicker => MsgView::ToggleEmojiPicker,
            Msg::InsertEmoji(glyph) => MsgView::InsertEmoji(glyph@),
        }
    }
}

/// What the caller is to do after an event.
#[derive(Clone, Debug, PartialEq, Eq)]
pub struct Update {
    /// The state changed in a way that shows: draw again.
    pub render: bool,
    /// A frame to hand to the transport, once, whether or not it gets through.
    pub outbound: Option<String>,
    /// Keep the key from having its usual effect.
    pub prevent_default: bool,
    /// A message was appended: scroll the history to its end.
    pub scroll_to_bottom: bool,
    /// Give the input field the focus.
    pub focus_input: bool,
    /// An inbound frame was dropped, and why. The state is as it was.
    pub dropped: Option<ProtocolError>,
}

/// What an [`Update`] amounts to, with the frame by its meaning.
pub struct Effects {
    pub render: bool,
    pub outbound: Option<WireMessageView>,
    pub prevent_default: bool,
    pub scroll_to_bottom: bool,
    pub focus_input: bool,
    pub dropped: Option<ProtocolError>,
}

impl Effects {
    /// Nothing to do.
    pub open spec fn none() -> Effects {
        Effects {
            render: false,
            outbound: None,
            prevent_default: false,
            scroll_to_bottom: false,
            focus_input: false,
            dropped: None,
        }
    }
}

impl Update {
    /// This update asks for exactly the effects `e`: the flags agree, and the
    /// frame to send, if `e` names one, is a text that writes it down.
    pub open spec fn carries(self, e: Effects) -> bool {
        &&& self.render == e.render
        &&& self.prevent_default == e.prevent_default
        &&& self.scroll_to_bottom == e.scroll_to_bottom
        &&& self.focus_input == e.focus_input
        &&& self.dropped == e.dropped
        &&& match (self.outbound, e.outbound) {
            (Some(text), Some(m)) => encodes(text@, m),
            (None, None) => true,
            _ => false,
        }
    }

    /// The update that asks for nothing.
    pub fn none() -> (r: Update)
        ensures
            r.carries(Effects::none()),
    {
        Update {
            render: false,
            outbound: None,
            prevent_default: false,
            scroll_to_bottom: false,
            focus_input: false,
            dropped: None,
        }
    }
}

/// What a [`Chat`] holds.
pub struct ChatView {
    pub username: Seq<char>,
    pub users: Seq<UserProfileView>,
    pub messages: Seq<MessageDataView>,
    pub input: Seq<char>,
    pub show_emoji_picker: bool,
}

/// The key press that sends the message: Enter without shift.
pub open spec fn is_send_key(key: Seq<char>, shift: bool) -> bool {
    key == "Enter"@ && !shift
}

impl ChatView {
    /// The state at creation: nobody listed, nothing said, nothing typed.
    pub open spec fn initial(username: Seq<char>) -> ChatView {
        ChatView {
            username,
            users: Seq::empty(),
            messages: Seq::empty(),
            input: Seq::empty(),
            show_emoji_picker: false,
        }
    }

    /// What holds of every state: the roster is well formed.
    pub open spec fn well_formed(self) -> bool {
        roster_well_formed(self.users)
    }

    /// The roster is replaced by the one that `names` stands for. Nothing of
    /// the old roster is kept.
    pub open spec fn with_roster(self, names: Seq<Seq<char>>) -> ChatView {
        ChatView { users: roster_of(names), ..self }
    }

    /// One message more at the end of the history.
    pub open spec fn with_message(self, message: MessageDataView) -> ChatView {
        ChatView { messages: self.messages.push(message), ..self }
    }

    /// The effects of a new roster.
    pub open spec fn roster_effects() -> Effects {
        Effects { render: true, ..Effects::none() }
    }

    /// The effects of a new message.
    pub open spec fn message_effects() -> Effects {
        Effects { render: true, scroll_to_bottom: true, ..Effects::none() }
    }

    /// The effects of a dropped frame.
    pub open spec fn drop_effects(e: ProtocolError) -> Effects {
        Effects { dropped: Some(e), ..Effects::none() }
    }

    /// A decoded frame comes in. A list of users replaces the roster. A chat
    /// message is appended if its content can be read and dropped if not.
    /// Any other frame changes nothing.
    pub open spec fn received(self, frame: WireMessageView) -> (ChatView, Effects) {
        match frame {
            WireMessageView::Users { names } => (self.with_roster(names), Self::roster_effects()),
            WireMessageView::Message { body } => match decode_data_text(body) {
                Ok(message) => (self.with_message(message), Self::message_effects()),
                Err(e) => (self, Self::drop_effects(e)),
            },
            WireMessageView::Register { username } => (self, Effects::none()),
        }
    }

    /// A frame comes in as text. One of a kind that the client does not know
    /// is passed over in silence. One that cannot be decoded is dropped.
    pub open spec fn handled(self, text: Seq<char>) -> (ChatView, Effects) {
        match decode_text(text) {
            Ok(frame) => self.received(frame),
            Err(ProtocolError::UnknownKind) => (self, Effects::none()),
            Err(e) => (self, Self::drop_effects(e)),
        }
    }

    /// The user sends. A blank input is left as it is and nothing is sent.
    /// Otherwise the trimmed input goes out as one chat message and the
    /// input is cleared.
    pub open spec fn submitted(self) -> (ChatView, Effects) {
        if is_blank(self.input) {
            (self, Effects::none())
        } else {
            (
                ChatView { input: Seq::empty(), ..self },
                Effects {
                    outbound: Some(WireMessageView::Message { body: trimmed(self.input) }),
                    ..Effects::none()
                },
            )
        }
    }

    /// A key goes down. Enter without shift sends, and is kept from adding a
    /// line break. Every other key is left alone.
    pub open spec fn key_pressed(self, key: Seq<char>, shift: bool) -> (ChatView, Effects) {
        if is_send_key(key, shift) {
            (self.submitted().0, Effects { prevent_default: true, ..self.submitted().1 })
        } else {
            (self, Effects::none())
        }
    }

    /// The emoji button: the picker opens if it was closed and closes if it
    /// was open.
    pub open spec fn toggled(self) -> (ChatView, Effects) {
        (
            ChatView { show_emoji_picker: !self.show_emoji_picker, ..self },
            Effects { render: true, ..Effects::none() },
        )
    }

    /// An emoji is picked: it goes to the end of the input, the picker
    /// closes, and the input field gets the focus back.
    pub open spec fn emoji_inserted(self, glyph: Seq<char>) -> (ChatView, Effects) {
        (
            ChatView { input: self.input + glyph, show_emoji_picker: false, ..self },
            Effects { render: true, focus_input: true, ..Effects::none() },
        )
    }

    /// One event: the state after it, and what the caller is to do.
    pub open spec fn step(self, msg: MsgView) -> (ChatView, Effects) {
        match msg {
            MsgView::HandleMsg(text) => self.handled(text),
            MsgView::SubmitMessage => self.submitted(),
            MsgView::InputKeyPress { key, shift } => self.key_pressed(key, shift),
            MsgView::ToggleEmojiPicker => self.toggled(),
            MsgView::InsertEmoji(glyph) => self.emoji_inserted(glyph),
        }
    }

    /// The state after a run of inbound frames, taken in the order given.
    pub open spec fn handled_all(self, frames: Seq<Seq<char>>) -> ChatView
        decreases frames.len(),
    {
        if frames.len() == 0 {
            self
        } else {
            self.handled_all(frames.drop_last()).handled(frames.last()).0
        }
    }
}

/// Whether the frame `text` appends a message to the history.
pub open spec fn appends(text: Seq<char>) -> bool {
    decode_text(text) matches Ok(WireMessageView::Message { body }) && decode_data_text(body) is Ok
}

/// How many of `frames` append a message to the history.
pub open spec fn count_appends(frames: Seq<Seq<char>>) -> nat
    decreases frames.len(),
{
    if frames.len() == 0 {
        0
    } else {
        count_appends(frames.drop_last()) + if appends(frames.last()) {
            1nat
        } else {
            0nat
        }
    }
}

/// How many of `users` are online.
pub open spec fn count_online(users: Seq<UserProfileView>) -> nat
    decreases users.len(),
{
    if users.len() == 0 {
        0
    } else {
        count_online(users.drop_last()) + if users.last().online {
            1nat
        } else {
            0nat
        }
    }
}

/// No event breaks a well-formed state.
pub proof fn lemma_step_keeps_well_formed(state: ChatView, msg: MsgView)
    requires
        state.well_formed(),
    ensures
        state.step(msg).0.well_formed(),
{
    if let MsgView::HandleMsg(text) = msg {
        if let Ok(WireMessageView::Users { names }) = decode_text(text) {
            lemma_roster_of_well_formed(names);
        }
    }
}

/// The local user's name never changes.
pub proof fn lemma_step_keeps_username(state: ChatView, msg: MsgView)
    ensures
        state.step(msg).0.username == state.username,
{
}

/// The history only grows, and by one message at most: what was said stays
/// where it was.
pub proof fn lemma_step_extends_history(state: ChatView, msg: MsgView)
    ensures
        state.messages.is_prefix_of(state.step(msg).0.messages),
        state.step(msg).0.messages.len() <= state.messages.len() + 1,
{
    let after = state.step(msg).0.messages;
    if after.len() == state.messages.len() + 1 {
        assert(after.subrange(0, state.messages.len() as int) =~= state.messages);
    }
}

/// A list of users replaces the roster whatever it was before: two sessions
/// that get the same list have the same roster.
pub proof fn lemma_roster_forgets(a: ChatView, b: ChatView, names: Seq<Seq<char>>)
    ensures
        a.received(WireMessageView::Users { names }).0.users == b.received(
            WireMessageView::Users { names },
        ).0.users,
        a.received(WireMessageView::Users { names }).0.users == roster_of(names),
{
}

/// A frame that appends makes the history longer by exactly one, puts its
/// message last, with the timestamp as given, and leaves the rest in place.
pub proof fn lemma_message_appended(state: ChatView, text: Seq<char>)
    requires
        appends(text),
    ensures
        state.handled(text).0.messages.len() == state.messages.len() + 1,
        state.handled(text).0.messages.last() == decode_data_text(
            decode_text(text)->Ok_0->Message_body,
        )->Ok_0,
        state.handled(text).0.messages.drop_last() == state.messages,
        state.handled(text).1.scroll_to_bottom,
{
    assert(state.handled(text).0.messages.drop_last() =~= state.messages);
}

/// Sending a blank input does nothing: no frame goes out and the input stays
/// as it is.
pub proof fn lemma_blank_input_is_not_sent(state: ChatView)
    requires
        is_blank(state.input),
    ensures
        state.submitted().0 == state,
        state.submitted().1 == Effects::none(),
        state.submitted().1.outbound is None,
{
}

/// Sending an input that is not blank sends one chat message, the input
/// without the whitespace around it, and leaves the input empty.
pub proof fn lemma_input_is_sent_trimmed(state: ChatView)
    requires
        !is_blank(state.input),
    ensures
        state.submitted().1.outbound == Some(
            WireMessageView::Message { body: trimmed(state.input) },
        ),
        trimmed(state.input).len() > 0,
        state.submitted().0.input.len() == 0,
        state.submitted().0 == (ChatView { input: Seq::empty(), ..state }),
{
    lemma_trimmed_empty_iff_blank(state.input);
}

/// An emoji goes to the end of the input and closes the picker, whether the
/// picker was open or not.
pub proof fn lemma_emoji_closes_picker(state: ChatView, glyph: Seq<char>)
    ensures
        state.emoji_inserted(glyph).0.input == state.input + glyph,
        !state.emoji_inserted(glyph).0.show_emoji_picker,
        state.emoji_inserted(glyph).0 == state.toggled().0.emoji_inserted(glyph).0,
{
}

/// After a run of frames the history is longer by the number of those that
/// appended: starting from nothing, `n` appends make a history of `n`.
pub proof fn lemma_history_counts_appends(state: ChatView, frames: Seq<Seq<char>>)
    ensures
        state.handled_all(frames).messages.len() == state.messages.len() + count_appends(frames),
    decreases frames.len(),
{
    if frames.len() > 0 {
        lemma_history_counts_appends(state, frames.drop_last());
    }
}

/// The session of one user, from registration to the end of the connection.
pub struct Chat {
    users: Vec<UserProfile>,
    messages: Vec<MessageData>,
    username: String,
    chat_input: String,
    show_emoji_picker: bool,
}

impl View for Chat {
    type V = ChatView;

    closed spec fn view(&self) -> ChatView {
        ChatView {
            username: self.username@,
            users: self.users.deep_view(),
            messages: self.messages.deep_view(),
            input: self.chat_input@,
            show_emoji_picker: self.show_emoji_picker,
        }
    }
}

impl Chat {
    #[verifier::type_invariant]
    spec fn inv(self) -> bool {
        roster_well_formed(self.users.deep_view())
    }

    /// Starts a session for `username`. The second part of the result is the
    /// frame that registers the name: it is to be sent at once, before any
    /// inbound frame is handled, and a failure to send changes nothing.
    pub fn create(username: String) -> (r: (Chat, String))
        ensures
            r.0@ == ChatView::initial(username@),
            r.0@.well_formed(),
            encodes(r.1@, WireMessageView::Register { username: username@ }),
            decode_text(r.1@) == Ok::<WireMessageView, ProtocolError>(
                WireMessageView::Register { username: username@ },
            ),
    {
        let frame = encode(WireMessage::Register { username: username.clone() });
        let users: Vec<UserProfile> = Vec::new();
        let messages: Vec<MessageData> = Vec::new();
        proof {
            assert(users.deep_view() =~= Seq::<UserProfileView>::empty());
            assert(messages.deep_view() =~= Seq::<MessageDataView>::empty());
        }
        let chat = Chat {
            users,
            messages,
            username,
            chat_input: String::new(),
            show_emoji_picker: false,
        };
        (chat, frame)
    }

    /// The local user's name.
    pub fn username(&self) -> (r: &str)
        ensures
            r@ == self@.username,
    {
        self.username.as_str()
    }

    /// The roster, in the order of the server's list.
    pub fn users(&self) -> (r: &Vec<UserProfile>)
        ensures
            r.deep_view() == self@.users,
            self@.well_formed(),
    {
        proof {
            use_type_invariant(self);
        }
        &self.users
    }

    /// The history, oldest first.
    pub fn messages(&self) -> (r: &Vec<MessageData>)
        ensures
            r.deep_view() == self@.messages,
    {
        &self.messages
    }

    /// The text of the input field.
    pub fn input(&self) -> (r: &str)
        ensures
            r@ == self@.input,
    {
        self.chat_input.as_str()
    }

    /// Whether the emoji picker is open.
    pub fn show_emoji_picker(&self) -> (r: bool)
        ensures
            r == self@.show_emoji_picker,
    {
        self.show_emoji_picker
    }

    /// The entry of the roster under `name`, if the roster has one. There is
    /// at most one, since no two entries share a name.
    pub fn find_user(&self, name: &str) -> (r: Option<&UserProfile>)
        ensures
            match r {
                Some(user) => user@.name == name@ && self@.users.contains(user@),
                None => forall|i: int|
                    0 <= i < self@.users.len() ==> (#[trigger] self@.users[i]).name != name@,
            },
    {
        match position_of(&self.users, name) {
            Some(k) => {
                assert(self@.users[k as int] == self.users[k as int]@);
                Some(&self.users[k])
            },
            None => {
                assert forall|i: int| 0 <= i < self@.users.len() implies (
                #[trigger] self@.users[i]).name != name@ by {
                    assert(self@.users[i] == self.users[i]@);
                }
                None
            },
        }
    }

    /// Whether `message` was sent by the local user.
    pub fn is_own(&self, message: &MessageData) -> (r: bool)
        ensures
            r == (message@.from == self@.username),
    {
        text_eq(message.from.as_str(), self.username.as_str())
    }

    /// How many of the roster are online.
    pub fn online_count(&self) -> (n: usize)
        ensures
            n == count_online(self@.users),
    {
        let mut n: usize = 0;
        let mut i: usize = 0;
        assert(self@.users.take(0) =~= Seq::empty());
        while i < self.users.len()
            invariant
                i <= self.users.len(),
                n <= i,
                n == count_online(self@.users.take(i as int)),
            decreases self.users.len() - i,
        {
            proof {
                let next = self@.users.take(i + 1);
                assert(next.drop_last() =~= self@.users.take(i as int));
                assert(next.last() == self.users[i as int]@);
            }
            if self.users[i].online {
                n = n + 1;
            }
            i = i + 1;
        }
        assert(self@.users.take(i as int) =~= self@.users);
        n
    }

    /// Takes over what the user typed into the input field.
    pub fn set_input(&mut self, text: String)
        ensures
            final(self)@ == (ChatView { input: text@, ..old(self)@ }),
            final(self)@.well_formed(),
    {
        proof {
            use_type_invariant(&*self);
        }
        self.chat_input = text;
    }

    /// Replaces the roster by the one that `names` stands for.
    pub fn replace_roster(&mut self, names: &Vec<String>)
        ensures
            final(self)@ == old(self)@.with_roster(names.deep_view()),
            final(self)@.well_formed(),
    {
        self.users = build_roster(names);
    }

    /// Appends one message to the history.
    pub fn append(&mut self, message: MessageData)
        ensures
            final(self)@ == old(self)@.with_message(message@),
            final(self)@.well_formed(),
    {
        proof {
            use_type_invariant(&*self);
        }
        // The history is taken out and put back: a field of a type with an
        // invariant is not lent out to a call that may unwind.
        let mut messages: Vec<MessageData> = Vec::new();
        core::mem::swap(&mut self.messages, &mut messages);
        messages.push(message);
        self.messages = messages;
        assert(self.messages.deep_view() =~= old(self).messages.deep_view().push(message@));
    }

    /// Handles a decoded frame; see [`ChatView::received`].
    pub fn receive(&mut self, frame: WireMessage) -> (r: Update)
        ensures
            final(self)@ == old(self)@.received(frame@).0,
            r.carries(old(self)@.received(frame@).1),
            final(self)@.well_formed(),
    {
        proof {
            use_type_invariant(&*self);
        }
        match frame {
            WireMessage::Users { names } => {
                self.replace_roster(&names);
                Update { render: true, ..Update::none() }
            },
            WireMessage::Message { body } => match MessageData::decode(body.as_str()) {
                Ok(message) => {
                    self.append(message);
                    Update { render: true, scroll_to_bottom: true, ..Update::none() }
                },
                Err(e) => Update { dropped: Some(e), ..Update::none() },
            },
            WireMessage::Register { username: _ } => Update::none(),
        }
    }

    /// Handles an inbound frame; see [`ChatView::handled`]. A frame that
    /// cannot be decoded is dropped, the state stays as it was, and the
    /// update says why. A frame of a kind that the client does not know is
    /// passed over without a word.
    pub fn handle_frame(&mut self, text: &str) -> (r: Update)
        ensures
            final(self)@ == old(self)@.handled(text@).0,
            r.carries(old(self)@.handled(text@).1),
            final(self)@.well_formed(),
    {
        proof {
            use_type_invariant(&*self);
        }
        match decode(text) {
            Ok(frame) => self.receive(frame),
            Err(ProtocolError::UnknownKind) => Update::none(),
            Err(e) => Update { dropped: Some(e), ..Update::none() },
        }
    }

    /// The user sends; see [`ChatView::submitted`].
    pub fn submit(&mut self) -> (r: Update)
        ensures
            final(self)@ == old(self)@.submitted().0,
            r.carries(old(self)@.submitted().1),
            final(self)@.well_formed(),
    {
        proof {
            use_type_invariant(&*self);
            lemma_trimmed_empty_iff_blank(self.chat_input@);
        }
        let text = trim(self.chat_input.as_str());
        if text.is_empty() {
            return Update::none();
        }
        let body = String::from_str(text);
        let frame = encode(WireMessage::Message { body });
        self.chat_input = String::new();
        Update { outbound: Some(frame), ..Update::none() }
    }

    /// A key goes down in the input field; see [`ChatView::key_pressed`].
    pub fn key_press(&mut self, press: &KeyPress) -> (r: Update)
        ensures
            final(self)@ == old(self)@.key_pressed(press.key@, press.shift).0,
            r.carries(old(self)@.key_pressed(press.key@, press.shift).1),
            final(self)@.well_formed(),
    {
        proof {
            use_type_invariant(&*self);
        }
        if text_eq(press.key.as_str(), "Enter") && !press.shift {
            let sent = self.submit();
            Update { prevent_default: true, ..sent }
        } else {
            Update::none()
        }
    }

    /// The emoji button; see [`ChatView::toggled`].
    pub fn toggle_emoji_picker(&mut self) -> (r: Update)
        ensures
            final(self)@ == old(self)@.toggled().0,
            r.carries(old(self)@.toggled().1),
            final(self)@.well_formed(),
    {
        proof {
            use_type_invariant(&*self);
        }
        self.show_emoji_picker = !self.show_emoji_picker;
        Update { render: true, ..Update::none() }
    }

    /// An emoji is picked; see [`ChatView::emoji_inserted`].
    pub fn insert_emoji(&mut self, glyph: &str) -> (r: Update)
        ensures
            final(self)@ == old(self)@.emoji_inserted(glyph@).0,
            r.carries(old(self)@.emoji_inserted(glyph@).1),
            final(self)@.well_formed(),
    {
        proof {
            use_type_invariant(&*self);
        }
        let mut input = String::new();
        core::mem::swap(&mut self.chat_input, &mut input);
        input.append(glyph);
        self.chat_input = input;
        self.show_emoji_picker = false;
        Update { render: true, focus_input: true, ..Update::none() }
    }

    /// Reacts to one event; see [`ChatView::step`].
    pub fn update(&mut self, msg: Msg) -> (r: Update)
        ensures
            final(self)@ == old(self)@.step(msg@).0,
            r.carries(old(self)@.step(msg@).1),
            final(self)@.well_formed(),
    {
        match msg {
            Msg::HandleMsg(text) => self.handle_frame(text.as_str()),
            Msg::SubmitMessage => self.submit(),
            Msg::InputKeyPress(press) => self.key_press(&press),
            Msg::ToggleEmojiPicker => self.toggle_emoji_picker(),
            Msg::InsertEmoji(glyph) => self.insert_emoji(glyph.as_str()),
        }
    }
}

} // verus!
