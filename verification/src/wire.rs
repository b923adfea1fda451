//! The wire format: one JSON object per frame.
//!
//! A frame is an object with a string `messageType`, one of `"register"`,
//! `"users"` and `"message"`, an optional `dataArray` of strings and an
//! optional `data` string. [`WebSocketMessage`] is that record as it is
//! written; [`WireMessage`] is what it means. A chat message that the server
//! hands on carries in `data` a second JSON object, the [`MessageData`].

use vstd::prelude::*;
use vstd::string::*;
use crate::json::{
    as_integer, as_items, as_text, field, fields_of, is_flat_object, is_null, json_model,
    json_parse, list_value, member, models_of, null_value, object_value, parse, print,
    text_models, text_value, JsonModel,
};
use crate::text::{ends_with, has_suffix, text_eq};

verus! {

/// Why an inbound text was not understood.
#[derive(Clone, Copy, Debug, PartialEq, Eq, Structural)]
pub enum ProtocolError {
    /// The text is not JSON.
    Syntax,
    /// The JSON does not have the shape that the schema asks for: a required
    /// string is missing, or a field holds a value of the wrong kind.
    Schema,
    /// `messageType` is a string, but none of the three kinds. Such a frame
    /// is none of this client's business: the session passes it over.
    UnknownKind,
    /// The kind carries its content in `data`, and the frame has none.
    MissingData,
}

/// The kind of a frame, written on the wire in lower case.
#[derive(Clone, Copy, Debug, PartialEq, Eq, Structural)]
pub enum MsgTypes {
    Users,
    Register,
    Message,
}

impl MsgTypes {
    /// The string that stands for this kind in `messageType`.
    pub open spec fn tag(self) -> Seq<char> {
        match self {
            MsgTypes::Users => "users"@,
            MsgTypes::Register => "register"@,
            MsgTypes::Message => "message"@,
        }
    }

    /// The kind that `tag` stands for, if it stands for one.
    pub open spec fn of_tag(tag: Seq<char>) -> Option<MsgTypes> {
        if tag == "users"@ {
            Some(MsgTypes::Users)
        } else if tag == "register"@ {
            Some(MsgTypes::Register)
        } else if tag == "message"@ {
            Some(MsgTypes::Message)
        } else {
            None
        }
    }

    /// Each kind is read back from its own tag.
    pub proof fn lemma_tag_roundtrip(self)
        ensures
            MsgTypes::of_tag(self.tag()) == Some(self),
    {
        reveal_strlit("users");
        reveal_strlit("register");
        reveal_strlit("message");
        assert("users"@.len() == 5 && "register"@.len() == 8 && "message"@.len() == 7);
    }

    /// The string that stands for this kind in `messageType`.
    pub fn name(&self) -> (r: &'static str)
        ensures
            r@ == self.tag(),
    {
        match self {
            MsgTypes::Users => "users",
            MsgTypes::Register => "register",
            MsgTypes::Message => "message",
        }
    }

    /// The kind that `name` stands for, if it stands for one.
    pub fn from_name(name: &str) -> (r: Option<MsgTypes>)
        ensures
            r == MsgTypes::of_tag(name@),
    {
        if text_eq(name, "users") {
            Some(MsgTypes::Users)
        } else if text_eq(name, "register") {
            Some(MsgTypes::Register)
        } else if text_eq(name, "message") {
            Some(MsgTypes::Message)
        } else {
            None
        }
    }
}

/// A frame as it is written: the three fields of the JSON object.
#[derive(Clone, Debug, PartialEq, Eq)]
pub struct WebSocketMessage {
    pub message_type: MsgTypes,
    pub data_array: Option<Vec<String>>,
    pub data: Option<String>,
}

/// What a [`WebSocketMessage`] holds.
pub struct WebSocketMessageView {
    pub message_type: MsgTypes,
    pub data_array: Option<Seq<Seq<char>>>,
    pub data: Option<Seq<char>>,
}

impl View for WebSocketMessage {
    type V = WebSocketMessageView;

    open spec fn view(&self) -> WebSocketMessageView {
        WebSocketMessageView {
            message_type: self.message_type,
            data_array: self.data_array.deep_view(),
            data: self.data.deep_view(),
        }
    }
}

/// What a frame says: the vocabulary exchanged with the server.
#[derive(Clone, Debug, PartialEq, Eq)]
pub enum WireMessage {
    /// The client announces its display name.
    Register { username: String },
    /// The server lists the participants, in its order.
    Users { names: Vec<String> },
    /// A chat message. Outbound, `body` is the text as typed; inbound, it is
    /// the JSON of a [`MessageData`].
    Message { body: String },
}

/// What a [`WireMessage`] holds.
pub enum WireMessageView {
    Register { username: Seq<char> },
    Users { names: Seq<Seq<char>> },
    Message { body: Seq<char> },
}

impl View for WireMessage {
    type V = WireMessageView;

    open spec fn view(&self) -> WireMessageView {
        match self {
            WireMessage::Register { username } => WireMessageView::Register { username: username@ },
            WireMessage::Users { names } => WireMessageView::Users { names: names.deep_view() },
            WireMessage::Message { body } => WireMessageView::Message { body: body@ },
        }
    }
}

/// One entry of the history: who said what, and when if the server said so.
#[derive(Clone, Debug, PartialEq, Eq)]
pub struct MessageData {
    pub from: String,
    pub message: String,
    pub timestamp: Option<i64>,
}

/// What a [`MessageData`] holds.
pub struct MessageDataView {
    pub from: Seq<char>,
    pub message: Seq<char>,
    pub timestamp: Option<i64>,
}

impl View for MessageData {
    type V = MessageDataView;

    open spec fn view(&self) -> MessageDataView {
        MessageDataView { from: self.from@, message: self.message@, timestamp: self.timestamp }
    }
}

impl DeepView for MessageData {
    type V = MessageDataView;

    open spec fn deep_view(&self) -> MessageDataView {
        self@
    }
}

// ---------------------------------------------------------------------------
// Reading fields of a JSON object
// ---------------------------------------------------------------------------

/// Every item is a string.
pub open spec fn all_text(items: Seq<JsonModel>) -> bool {
    forall|i: int| 0 <= i < items.len() ==> #[trigger] items[i] is Text
}

/// The texts of a sequence of strings, in order.
pub open spec fn texts_of(items: Seq<JsonModel>) -> Seq<Seq<char>> {
    Seq::new(items.len(), |i: int| items[i]->Text_0)
}

/// A field that must be a string.
pub open spec fn required_text(j: JsonModel, key: Seq<char>) -> Result<Seq<char>, ProtocolError> {
    match member(j, key) {
        Some(JsonModel::Text(s)) => Ok(s),
        _ => Err(ProtocolError::Schema),
    }
}

/// A field that is a string where it is there: a missing field and `null`
/// both stand for none.
pub open spec fn optional_text(j: JsonModel, key: Seq<char>) -> Result<
    Option<Seq<char>>,
    ProtocolError,
> {
    match member(j, key) {
        None => Ok(None),
        Some(JsonModel::Null) => Ok(None),
        Some(JsonModel::Text(s)) => Ok(Some(s)),
        Some(_) => Err(ProtocolError::Schema),
    }
}

/// A field that is an array of strings where it is there.
pub open spec fn optional_list(j: JsonModel, key: Seq<char>) -> Result<
    Option<Seq<Seq<char>>>,
    ProtocolError,
> {
    match member(j, key) {
        None => Ok(None),
        Some(JsonModel::Null) => Ok(None),
        Some(JsonModel::Array(items)) => if all_text(items) {
            Ok(Some(texts_of(items)))
        } else {
            Err(ProtocolError::Schema)
        },
        Some(_) => Err(ProtocolError::Schema),
    }
}

/// A field that is an integer within `i64` where it is there.
pub open spec fn optional_integer(j: JsonModel, key: Seq<char>) -> Result<
    Option<i64>,
    ProtocolError,
> {
    match member(j, key) {
        None => Ok(None),
        Some(JsonModel::Null) => Ok(None),
        Some(JsonModel::Integer(n)) => Ok(Some(n)),
        Some(_) => Err(ProtocolError::Schema),
    }
}

fn read_required_text(v: &serde_json::Value, key: &str) -> (r: Result<String, ProtocolError>)
    ensures
        match r {
            Ok(s) => required_text(json_model(*v), key@) == Ok::<Seq<char>, ProtocolError>(s@),
            Err(e) => required_text(json_model(*v), key@) == Err::<Seq<char>, ProtocolError>(e),
        },
{
    match field(v, key) {
        None => Err(ProtocolError::Schema),
        Some(x) => match as_text(x) {
            None => Err(ProtocolError::Schema),
            Some(s) => Ok(String::from_str(s)),
        },
    }
}

fn read_optional_text(v: &serde_json::Value, key: &str) -> (r: Result<
    Option<String>,
    ProtocolError,
>)
    ensures
        match r {
            Ok(s) => optional_text(json_model(*v), key@) == Ok::<Option<Seq<char>>, ProtocolError>(
                s.deep_view(),
            ),
            Err(e) => optional_text(json_model(*v), key@) == Err::<Option<Seq<char>>, ProtocolError>(
                e,
            ),
        },
{
    match field(v, key) {
        None => Ok(None),
        Some(x) => {
            if is_null(x) {
                Ok(None)
            } else {
                match as_text(x) {
                    None => Err(ProtocolError::Schema),
                    Some(s) => Ok(Some(String::from_str(s))),
                }
            }
        },
    }
}

/// The texts of `items` where every one is a string, `None` otherwise.
fn read_texts(items: &Vec<serde_json::Value>) -> (r: Option<Vec<String>>)
    ensures
        match r {
            Some(texts) => all_text(models_of(items@)) && texts.deep_view() == texts_of(
                models_of(items@),
            ),
            None => !all_text(models_of(items@)),
        },
{
    let mut texts: Vec<String> = Vec::new();
    let mut i: usize = 0;
    while i < items.len()
        invariant
            i <= items.len(),
            texts.len() == i,
            forall|k: int| 0 <= k < i ==> #[trigger] models_of(items@)[k] is Text,
            forall|k: int| 0 <= k < i ==> (#[trigger] texts@[k])@ == models_of(items@)[k]->Text_0,
        decreases items.len() - i,
    {
        match as_text(&items[i]) {
            None => {
                assert(!(models_of(items@)[i as int] is Text));
                return None;
            },
            Some(s) => {
                texts.push(String::from_str(s));
            },
        }
        i = i + 1;
    }
    Some(texts)
}

fn read_optional_list(v: &serde_json::Value, key: &str) -> (r: Result<
    Option<Vec<String>>,
    ProtocolError,
>)
    ensures
        match r {
            Ok(s) => optional_list(json_model(*v), key@) == Ok::<
                Option<Seq<Seq<char>>>,
                ProtocolError,
            >(s.deep_view()),
            Err(e) => optional_list(json_model(*v), key@) == Err::<
                Option<Seq<Seq<char>>>,
                ProtocolError,
            >(e),
        },
{
    match field(v, key) {
        None => Ok(None),
        Some(x) => {
            if is_null(x) {
                Ok(None)
            } else {
                match as_items(x) {
                    None => Err(ProtocolError::Schema),
                    Some(items) => match read_texts(items) {
                        None => Err(ProtocolError::Schema),
                        Some(texts) => Ok(Some(texts)),
                    },
                }
            }
        },
    }
}

fn read_optional_integer(v: &serde_json::Value, key: &str) -> (r: Result<
    Option<i64>,
    ProtocolError,
>)
    ensures
        match r {
            Ok(n) => optional_integer(json_model(*v), key@) == Ok::<Option<i64>, ProtocolError>(n),
            Err(e) => optional_integer(json_model(*v), key@) == Err::<Option<i64>, ProtocolError>(e),
        },
{
    match field(v, key) {
        None => Ok(None),
        Some(x) => {
            if is_null(x) {
                Ok(None)
            } else {
                match as_integer(x) {
                    None => Err(ProtocolError::Schema),
                    Some(n) => Ok(Some(n)),
                }
            }
        },
    }
}

// ---------------------------------------------------------------------------
// From a JSON object to a frame and back
// ---------------------------------------------------------------------------

/// The record that the object `j` writes down. The fields are read in the
/// order `messageType`, `dataArray`, `data`, and the first that is wrong
/// decides the error. Other fields are passed over.
pub open spec fn record_of_json(j: JsonModel) -> Result<WebSocketMessageView, ProtocolError> {
    match required_text(j, "messageType"@) {
        Err(e) => Err(e),
        Ok(tag) => match MsgTypes::of_tag(tag) {
            None => Err(ProtocolError::UnknownKind),
            Some(kind) => match optional_list(j, "dataArray"@) {
                Err(e) => Err(e),
                Ok(names) => match optional_text(j, "data"@) {
                    Err(e) => Err(e),
                    Ok(data) => Ok(
                        WebSocketMessageView { message_type: kind, data_array: names, data: data },
                    ),
                },
            },
        },
    }
}

/// The field `dataArray` of a record: the names, or `null`.
pub open spec fn json_of_names(names: Option<Seq<Seq<char>>>) -> JsonModel {
    match names {
        Some(names) => JsonModel::Array(text_models(names)),
        None => JsonModel::Null,
    }
}

/// The field `data` of a record: the text, or `null`.
pub open spec fn json_of_data(data: Option<Seq<char>>) -> JsonModel {
    match data {
        Some(text) => JsonModel::Text(text),
        None => JsonModel::Null,
    }
}

/// The object that writes down the record `r`: all three fields, `null`
/// where the record has nothing.
pub open spec fn json_of_record(r: WebSocketMessageView) -> JsonModel {
    JsonModel::Object(
        Map::empty().insert("messageType"@, JsonModel::Text(r.message_type.tag())).insert(
            "dataArray"@,
            json_of_names(r.data_array),
        ).insert("data"@, json_of_data(r.data)),
    )
}

/// What the record `r` means. `register` and `message` carry their content
/// in `data` and are refused without it; `users` without a `dataArray` lists
/// nobody.
pub open spec fn message_of_record(r: WebSocketMessageView) -> Result<
    WireMessageView,
    ProtocolError,
> {
    match r.message_type {
        MsgTypes::Register => match r.data {
            Some(username) => Ok(WireMessageView::Register { username }),
            None => Err(ProtocolError::MissingData),
        },
        MsgTypes::Users => match r.data_array {
            Some(names) => Ok(WireMessageView::Users { names }),
            None => Ok(WireMessageView::Users { names: Seq::empty() }),
        },
        MsgTypes::Message => match r.data {
            Some(body) => Ok(WireMessageView::Message { body }),
            None => Err(ProtocolError::MissingData),
        },
    }
}

/// The record that says `m`.
pub open spec fn record_of_message(m: WireMessageView) -> WebSocketMessageView {
    match m {
        WireMessageView::Register { username } => WebSocketMessageView {
            message_type: MsgTypes::Register,
            data_array: None,
            data: Some(username),
        },
        WireMessageView::Users { names } => WebSocketMessageView {
            message_type: MsgTypes::Users,
            data_array: Some(names),
            data: None,
        },
        WireMessageView::Message { body } => WebSocketMessageView {
            message_type: MsgTypes::Message,
            data_array: None,
            data: Some(body),
        },
    }
}

/// What the frame `text` says, or why it says nothing.
pub open spec fn decode_text(text: Seq<char>) -> Result<WireMessageView, ProtocolError> {
    match json_parse(text) {
        None => Err(ProtocolError::Syntax),
        Some(j) => match record_of_json(j) {
            Err(e) => Err(e),
            Ok(r) => message_of_record(r),
        },
    }
}

/// `text` is a frame that writes down `m`: it is JSON, and the object it
/// holds is the one that [`json_of_record`] gives for the record of `m`.
pub open spec fn encodes(text: Seq<char>, m: WireMessageView) -> bool {
    json_parse(text) == Some(json_of_record(record_of_message(m)))
}

/// The three field names differ from one another.
proof fn lemma_keys_differ()
    ensures
        "messageType"@ != "dataArray"@,
        "messageType"@ != "data"@,
        "dataArray"@ != "data"@,
{
    reveal_strlit("messageType");
    reveal_strlit("dataArray");
    reveal_strlit("data");
    assert("messageType"@.len() == 11 && "dataArray"@.len() == 9 && "data"@.len() == 4);
}

/// An array of strings is read back as the texts it was made of.
pub proof fn lemma_texts_roundtrip(names: Seq<Seq<char>>)
    ensures
        all_text(text_models(names)),
        texts_of(text_models(names)) == names,
{
}

/// A record is read back from the object that writes it down.
pub proof fn lemma_json_roundtrip(r: WebSocketMessageView)
    ensures
        record_of_json(json_of_record(r)) == Ok::<WebSocketMessageView, ProtocolError>(r),
{
    lemma_keys_differ();
    r.message_type.lemma_tag_roundtrip();
    if let Some(names) = r.data_array {
        lemma_texts_roundtrip(names);
    }
}

/// A frame's meaning is read back from the record that says it.
pub proof fn lemma_record_roundtrip(m: WireMessageView)
    ensures
        message_of_record(record_of_message(m)) == Ok::<WireMessageView, ProtocolError>(m),
{
}

/// Decoding inverts encoding: a text that writes down `m` decodes to `m`,
/// whichever of the three variants `m` is.
pub proof fn lemma_decode_inverts_encode(text: Seq<char>, m: WireMessageView)
    requires
        encodes(text, m),
    ensures
        decode_text(text) == Ok::<WireMessageView, ProtocolError>(m),
{
    lemma_json_roundtrip(record_of_message(m));
    lemma_record_roundtrip(m);
}

impl WebSocketMessage {
    /// The record that the object `v` writes down.
    pub fn from_json(v: &serde_json::Value) -> (r: Result<WebSocketMessage, ProtocolError>)
        ensures
            match r {
                Ok(record) => record_of_json(json_model(*v)) == Ok::<
                    WebSocketMessageView,
                    ProtocolError,
                >(record@),
                Err(e) => record_of_json(json_model(*v)) == Err::<
                    WebSocketMessageView,
                    ProtocolError,
                >(e),
            },
    {
        let tag = match read_required_text(v, "messageType") {
            Err(e) => { return Err(e); },
            Ok(tag) => tag,
        };
        let message_type = match MsgTypes::from_name(tag.as_str()) {
            None => { return Err(ProtocolError::UnknownKind); },
            Some(kind) => kind,
        };
        let data_array = match read_optional_list(v, "dataArray") {
            Err(e) => { return Err(e); },
            Ok(names) => names,
        };
        let data = match read_optional_text(v, "data") {
            Err(e) => { return Err(e); },
            Ok(data) => data,
        };
        Ok(WebSocketMessage { message_type, data_array, data })
    }

    /// The object that writes this record down, from which
    /// [`WebSocketMessage::from_json`] reads the record back.
    pub fn into_json(self) -> (v: serde_json::Value)
        ensures
            json_model(v) == json_of_record(self@),
            is_flat_object(json_model(v)),
            record_of_json(json_model(v)) == Ok::<WebSocketMessageView, ProtocolError>(self@),
    {
        let tag = text_value(String::from_str(self.message_type.name()));
        let names = match self.data_array {
            Some(names) => list_value(names),
            None => null_value(),
        };
        let data = match self.data {
            Some(text) => text_value(text),
            None => null_value(),
        };
        let mut entries: Vec<(String, serde_json::Value)> = Vec::new();
        entries.push((String::from_str("messageType"), tag));
        entries.push((String::from_str("dataArray"), names));
        entries.push((String::from_str("data"), data));
        proof {
            lemma_keys_differ();
            lemma_json_roundtrip(self@);
            let e = entries@;
            reveal_with_fuel(fields_of, 4);
            assert(fields_of(e) == Map::<Seq<char>, JsonModel>::empty().insert(
                "messageType"@,
                json_model(tag),
            ).insert("dataArray"@, json_model(names)).insert("data"@, json_model(data)));
        }
        object_value(entries)
    }
}

impl WireMessage {
    /// What the record means; see [`message_of_record`].
    pub fn from_record(record: WebSocketMessage) -> (r: Result<WireMessage, ProtocolError>)
        ensures
            match r {
                Ok(m) => message_of_record(record@) == Ok::<WireMessageView, ProtocolError>(m@),
                Err(e) => message_of_record(record@) == Err::<WireMessageView, ProtocolError>(e),
            },
    {
        match record.message_type {
            MsgTypes::Register => match record.data {
                Some(username) => Ok(WireMessage::Register { username }),
                None => Err(ProtocolError::MissingData),
            },
            MsgTypes::Users => match record.data_array {
                Some(names) => Ok(WireMessage::Users { names }),
                None => {
                    let names: Vec<String> = Vec::new();
                    assert(names.deep_view() =~= Seq::<Seq<char>>::empty());
                    Ok(WireMessage::Users { names })
                },
            },
            MsgTypes::Message => match record.data {
                Some(body) => Ok(WireMessage::Message { body }),
                None => Err(ProtocolError::MissingData),
            },
        }
    }

    /// The record that says this message.
    pub fn into_record(self) -> (record: WebSocketMessage)
        ensures
            record@ == record_of_message(self@),
    {
        match self {
            WireMessage::Register { username } => WebSocketMessage {
                message_type: MsgTypes::Register,
                data_array: None,
                data: Some(username),
            },
            WireMessage::Users { names } => WebSocketMessage {
                message_type: MsgTypes::Users,
                data_array: Some(names),
                data: None,
            },
            WireMessage::Message { body } => WebSocketMessage {
                message_type: MsgTypes::Message,
                data_array: None,
                data: Some(body),
            },
        }
    }
}

/// Writes `message` down as one frame of JSON text. The text is such that
/// [`decode`] gives the message back.
pub fn encode(message: WireMessage) -> (text: String)
    ensures
        encodes(text@, message@),
        decode_text(text@) == Ok::<WireMessageView, ProtocolError>(message@),
{
    let ghost said = message@;
    let value = message.into_record().into_json();
    let text = print(&value).unwrap();
    proof {
        lemma_decode_inverts_encode(text@, said);
    }
    text
}

/// Reads one frame. The text must be a JSON object that follows the schema;
/// otherwise the error says what is wrong with it. Nothing else can happen:
/// no input makes this function panic.
pub fn decode(text: &str) -> (r: Result<WireMessage, ProtocolError>)
    ensures
        match r {
            Ok(m) => decode_text(text@) == Ok::<WireMessageView, ProtocolError>(m@),
            Err(e) => decode_text(text@) == Err::<WireMessageView, ProtocolError>(e),
        },
{
    match parse(text) {
        Err(_) => Err(ProtocolError::Syntax),
        Ok(value) => match WebSocketMessage::from_json(&value) {
            Err(e) => Err(e),
            Ok(record) => WireMessage::from_record(record),
        },
    }
}

// ---------------------------------------------------------------------------
// The content of a chat message
// ---------------------------------------------------------------------------

/// The chat message that the object `j` writes down: `from` and `message`
/// must be strings, `timestamp` an integer within `i64` where it is there.
/// The fields are read in that order, and the first that is wrong decides.
pub open spec fn data_of_json(j: JsonModel) -> Result<MessageDataView, ProtocolError> {
    match required_text(j, "from"@) {
        Err(e) => Err(e),
        Ok(from) => match required_text(j, "message"@) {
            Err(e) => Err(e),
            Ok(message) => match optional_integer(j, "timestamp"@) {
                Err(e) => Err(e),
                Ok(timestamp) => Ok(MessageDataView { from, message, timestamp }),
            },
        },
    }
}

/// The chat message that `text` holds, or why it holds none.
pub open spec fn decode_data_text(text: Seq<char>) -> Result<MessageDataView, ProtocolError> {
    match json_parse(text) {
        None => Err(ProtocolError::Syntax),
        Some(j) => data_of_json(j),
    }
}

impl MessageData {
    /// The chat message that the object `v` writes down.
    pub fn from_json(v: &serde_json::Value) -> (r: Result<MessageData, ProtocolError>)
        ensures
            match r {
                Ok(m) => data_of_json(json_model(*v)) == Ok::<MessageDataView, ProtocolError>(m@),
                Err(e) => data_of_json(json_model(*v)) == Err::<MessageDataView, ProtocolError>(e),
            },
    {
        let from = match read_required_text(v, "from") {
            Err(e) => { return Err(e); },
            Ok(from) => from,
        };
        let message = match read_required_text(v, "message") {
            Err(e) => { return Err(e); },
            Ok(message) => message,
        };
        let timestamp = match read_optional_integer(v, "timestamp") {
            Err(e) => { return Err(e); },
            Ok(timestamp) => timestamp,
        };
        Ok(MessageData { from, message, timestamp })
    }

    /// Reads the content of an inbound chat message, the `data` of a
    /// `message` frame.
    pub fn decode(text: &str) -> (r: Result<MessageData, ProtocolError>)
        ensures
            match r {
                Ok(m) => decode_data_text(text@) == Ok::<MessageDataView, ProtocolError>(m@),
                Err(e) => decode_data_text(text@) == Err::<MessageDataView, ProtocolError>(e),
            },
    {
        match parse(text) {
            Err(_) => Err(ProtocolError::Syntax),
            Ok(value) => MessageData::from_json(&value),
        }
    }

    /// Whether the text names an image to show in its place: by convention,
    /// one that ends in `.gif`.
    pub fn is_image(&self) -> (r: bool)
        ensures
            r == has_suffix(self.message@, ".gif"@),
    {
        ends_with(self.message.as_str(), ".gif")
    }
}

} // verus!
