use yewchat::chat::{Chat, Msg, Update};
use yewchat::roster::{avatar_url, build_roster, position_of, UserProfile};
use yewchat::wire::{decode, encode, MessageData, ProtocolError, WireMessage};

fn quiet() -> Update {
    Update {
        render: false,
        outbound: None,
        prevent_default: false,
        scroll_to_bottom: false,
        focus_input: false,
        dropped: None,
    }
}

fn profile(name: &str) -> UserProfile {
    UserProfile {
        name: name.to_string(),
        avatar: format!("https://avatars.dicebear.com/api/adventurer-neutral/{name}.svg"),
        online: true,
    }
}

fn said(from: &str, message: &str, timestamp: Option<i64>) -> MessageData {
    MessageData { from: from.to_string(), message: message.to_string(), timestamp }
}

fn users_frame(names: &[&str]) -> String {
    encode(WireMessage::Users { names: names.iter().map(|n| n.to_string()).collect() })
}

fn message_frame(content: &str) -> String {
    encode(WireMessage::Message { body: content.to_string() })
}

fn session(name: &str) -> Chat {
    Chat::create(name.to_string()).0
}

#[test]
fn a_new_session_registers_its_user() {
    let (chat, frame) = Chat::create("alice".to_string());
    assert_eq!(decode(&frame), Ok(WireMessage::Register { username: "alice".to_string() }));
    assert_eq!(chat.username(), "alice");
}

#[test]
fn a_new_session_is_empty() {
    let chat = session("alice");
    assert!(chat.users().is_empty());
    assert!(chat.messages().is_empty());
    assert_eq!(chat.input(), "");
    assert!(!chat.show_emoji_picker());
    assert_eq!(chat.online_count(), 0);
}

#[test]
fn the_register_frame_carries_the_name_as_it_is() {
    for name in ["", "  spaced  ", "ünï😀", "a\"b\\c"] {
        let (chat, frame) = Chat::create(name.to_string());
        assert_eq!(decode(&frame), Ok(WireMessage::Register { username: name.to_string() }));
        assert_eq!(chat.username(), name);
    }
}

#[test]
fn a_users_frame_sets_the_roster() {
    let mut chat = session("alice");
    let update = chat.handle_frame(r#"{"messageType":"users","dataArray":["a","b"],"data":null}"#);
    assert_eq!(update, Update { render: true, ..quiet() });
    assert_eq!(chat.users(), &vec![profile("a"), profile("b")]);
    assert_eq!(chat.users()[0].avatar, "https://avatars.dicebear.com/api/adventurer-neutral/a.svg");
    assert!(chat.users()[0].online && chat.users()[1].online);
}

#[test]
fn a_users_frame_discards_the_roster_before_it() {
    let mut chat = session("alice");
    chat.handle_frame(&users_frame(&["x", "y", "z"]));
    assert_eq!(chat.users().len(), 3);
    chat.handle_frame(&users_frame(&["a", "b"]));
    assert_eq!(chat.users(), &vec![profile("a"), profile("b")]);
    chat.handle_frame(&users_frame(&[]));
    assert!(chat.users().is_empty());
}

#[test]
fn the_roster_is_the_same_whatever_came_before() {
    let mut fresh = session("alice");
    let mut used = session("bob");
    used.handle_frame(&users_frame(&["x", "a"]));
    used.handle_frame(&message_frame(r#"{"from":"x","message":"hi"}"#));
    fresh.handle_frame(&users_frame(&["a", "b", "c"]));
    used.handle_frame(&users_frame(&["a", "b", "c"]));
    assert_eq!(fresh.users(), used.users());
}

#[test]
fn a_name_listed_twice_is_in_the_roster_once() {
    let mut chat = session("alice");
    chat.handle_frame(&users_frame(&["b", "a", "b", "c", "a", "b"]));
    assert_eq!(chat.users(), &vec![profile("b"), profile("a"), profile("c")]);
    assert_eq!(chat.online_count(), 3);
}

#[test]
fn a_users_frame_leaves_the_rest_alone() {
    let mut chat = session("alice");
    chat.set_input("draft".to_string());
    chat.toggle_emoji_picker();
    chat.append(said("a", "hi", None));
    chat.handle_frame(&users_frame(&["a"]));
    assert_eq!(chat.username(), "alice");
    assert_eq!(chat.input(), "draft");
    assert!(chat.show_emoji_picker());
    assert_eq!(chat.messages(), &vec![said("a", "hi", None)]);
}

#[test]
fn a_message_frame_appends_to_the_history() {
    let mut chat = session("alice");
    chat.append(said("z", "earlier", Some(1)));
    let frame = r#"{"messageType":"message","data":"{\"from\":\"a\",\"message\":\"hi\",\"timestamp\":100}"}"#;
    let update = chat.handle_frame(frame);
    assert_eq!(update, Update { render: true, scroll_to_bottom: true, ..quiet() });
    assert_eq!(chat.messages().len(), 2);
    assert_eq!(chat.messages().last(), Some(&said("a", "hi", Some(100))));
    assert_eq!(chat.messages()[0], said("z", "earlier", Some(1)));
}

#[test]
fn a_message_without_timestamp_is_kept_without_one() {
    let mut chat = session("alice");
    chat.handle_frame(&message_frame(r#"{"from":"a","message":"hi"}"#));
    assert_eq!(chat.messages(), &vec![said("a", "hi", None)]);
}

#[test]
fn the_history_is_as_long_as_the_number_of_appends() {
    let mut chat = session("alice");
    for n in 0..25i64 {
        assert_eq!(chat.messages().len() as i64, n);
        let content = format!(r#"{{"from":"a","message":"m{n}","timestamp":{n}}}"#);
        chat.handle_frame(&message_frame(&content));
    }
    assert_eq!(chat.messages().len(), 25);
    for n in 0..25usize {
        assert_eq!(chat.messages()[n], said("a", &format!("m{n}"), Some(n as i64)));
    }
}

#[test]
fn only_frames_that_append_make_the_history_longer() {
    let mut chat = session("alice");
    let frames = [
        message_frame(r#"{"from":"a","message":"one"}"#),
        users_frame(&["a"]),
        "garbage".to_string(),
        message_frame("not json"),
        message_frame(r#"{"from":"a","message":"two"}"#),
        encode(WireMessage::Register { username: "b".to_string() }),
        message_frame(r#"{"from":"a"}"#),
        message_frame(r#"{"from":"b","message":"three","timestamp":3}"#),
    ];
    for frame in &frames {
        chat.handle_frame(frame);
    }
    assert_eq!(
        chat.messages(),
        &vec![said("a", "one", None), said("a", "two", None), said("b", "three", Some(3))]
    );
}

#[test]
fn equal_messages_are_both_kept() {
    let mut chat = session("alice");
    let frame = message_frame(r#"{"from":"a","message":"hi","timestamp":5}"#);
    chat.handle_frame(&frame);
    chat.handle_frame(&frame);
    assert_eq!(chat.messages(), &vec![said("a", "hi", Some(5)), said("a", "hi", Some(5))]);
}

#[test]
fn messages_stay_in_the_order_they_came() {
    let mut chat = session("alice");
    chat.handle_frame(&message_frame(r#"{"from":"a","message":"late","timestamp":900}"#));
    chat.handle_frame(&message_frame(r#"{"from":"a","message":"early","timestamp":1}"#));
    assert_eq!(chat.messages()[0].message, "late");
    assert_eq!(chat.messages()[1].message, "early");
}

#[test]
fn a_sender_need_not_be_in_the_roster() {
    let mut chat = session("alice");
    chat.handle_frame(&users_frame(&["a"]));
    chat.handle_frame(&message_frame(r#"{"from":"ghost","message":"boo"}"#));
    assert_eq!(chat.messages(), &vec![said("ghost", "boo", None)]);
    assert_eq!(chat.find_user("ghost"), None);
}

#[test]
fn a_frame_that_is_not_json_is_dropped() {
    let mut chat = session("alice");
    chat.handle_frame(&users_frame(&["a"]));
    chat.append(said("a", "hi", None));
    let update = chat.handle_frame("{ not json");
    assert_eq!(update, Update { dropped: Some(ProtocolError::Syntax), ..quiet() });
    assert_eq!(chat.users(), &vec![profile("a")]);
    assert_eq!(chat.messages(), &vec![said("a", "hi", None)]);
}

#[test]
fn a_frame_against_the_schema_is_dropped() {
    let mut chat = session("alice");
    chat.handle_frame(&users_frame(&["a"]));
    let update = chat.handle_frame(r#"{"messageType":"users","dataArray":[1,2]}"#);
    assert_eq!(update, Update { dropped: Some(ProtocolError::Schema), ..quiet() });
    assert_eq!(chat.users(), &vec![profile("a")]);
}

#[test]
fn a_frame_of_unknown_kind_changes_nothing() {
    let mut chat = session("alice");
    chat.handle_frame(&users_frame(&["a"]));
    let update = chat.handle_frame(r#"{"messageType":"typing","data":"a"}"#);
    assert_eq!(update, quiet());
    assert_eq!(chat.users(), &vec![profile("a")]);
    assert!(chat.messages().is_empty());
}

#[test]
fn a_message_frame_without_data_is_dropped() {
    let mut chat = session("alice");
    let update = chat.handle_frame(r#"{"messageType":"message","data":null}"#);
    assert_eq!(update, Update { dropped: Some(ProtocolError::MissingData), ..quiet() });
    assert!(chat.messages().is_empty());
}

#[test]
fn a_message_whose_content_cannot_be_read_is_dropped() {
    let mut chat = session("alice");
    let update = chat.handle_frame(&message_frame("plain text, not an object"));
    assert_eq!(update, Update { dropped: Some(ProtocolError::Syntax), ..quiet() });
    let update = chat.handle_frame(&message_frame(r#"{"from":"a","message":"hi","timestamp":"now"}"#));
    assert_eq!(update, Update { dropped: Some(ProtocolError::Schema), ..quiet() });
    assert!(chat.messages().is_empty());
}

#[test]
fn an_inbound_register_frame_is_ignored() {
    let mut chat = session("alice");
    chat.handle_frame(&users_frame(&["a"]));
    let update = chat.handle_frame(r#"{"messageType":"register","data":"mallory"}"#);
    assert_eq!(update, quiet());
    assert_eq!(chat.username(), "alice");
    assert_eq!(chat.users(), &vec![profile("a")]);
    assert!(chat.messages().is_empty());
}

#[test]
fn the_session_goes_on_after_a_dropped_frame() {
    let mut chat = session("alice");
    chat.handle_frame("]]]");
    chat.handle_frame(&users_frame(&["a"]));
    chat.handle_frame("{}");
    chat.handle_frame(&message_frame(r#"{"from":"a","message":"still here"}"#));
    assert_eq!(chat.users(), &vec![profile("a")]);
    assert_eq!(chat.messages(), &vec![said("a", "still here", None)]);
}

#[test]
fn receive_takes_a_decoded_frame() {
    let mut chat = session("alice");
    let update = chat.receive(WireMessage::Users { names: vec!["a".to_string(), "b".to_string()] });
    assert_eq!(update, Update { render: true, ..quiet() });
    assert_eq!(chat.users(), &vec![profile("a"), profile("b")]);
    let body = r#"{"from":"a","message":"hi","timestamp":100}"#.to_string();
    let update = chat.receive(WireMessage::Message { body });
    assert_eq!(update, Update { render: true, scroll_to_bottom: true, ..quiet() });
    assert_eq!(chat.messages(), &vec![said("a", "hi", Some(100))]);
    let update = chat.receive(WireMessage::Register { username: "x".to_string() });
    assert_eq!(update, quiet());
    let update = chat.receive(WireMessage::Message { body: "hello".to_string() });
    assert_eq!(update, Update { dropped: Some(ProtocolError::Syntax), ..quiet() });
    assert_eq!(chat.messages().len(), 1);
}

#[test]
fn update_hands_a_frame_to_the_session() {
    let mut chat = session("alice");
    let update = chat.update(Msg::HandleMsg(users_frame(&["a"])));
    assert_eq!(update, Update { render: true, ..quiet() });
    assert_eq!(chat.users(), &vec![profile("a")]);
    let update = chat.update(Msg::HandleMsg("oops".to_string()));
    assert_eq!(update, Update { dropped: Some(ProtocolError::Syntax), ..quiet() });
}

#[test]
fn replace_roster_and_append_change_one_thing_each() {
    let mut chat = session("alice");
    chat.replace_roster(&vec!["a".to_string()]);
    assert_eq!(chat.users(), &vec![profile("a")]);
    assert!(chat.messages().is_empty());
    chat.append(said("a", "hi", Some(1)));
    assert_eq!(chat.users(), &vec![profile("a")]);
    assert_eq!(chat.messages(), &vec![said("a", "hi", Some(1))]);
}

#[test]
fn users_are_found_by_name() {
    let mut chat = session("alice");
    chat.handle_frame(&users_frame(&["a", "b"]));
    assert_eq!(chat.find_user("b"), Some(&profile("b")));
    assert_eq!(chat.find_user("a"), Some(&profile("a")));
    assert_eq!(chat.find_user("c"), None);
    assert_eq!(chat.find_user(""), None);
    assert_eq!(chat.find_user("A"), None);
}

#[test]
fn own_messages_are_told_by_the_sender() {
    let chat = session("alice");
    assert!(chat.is_own(&said("alice", "hi", None)));
    assert!(!chat.is_own(&said("Alice", "hi", None)));
    assert!(!chat.is_own(&said("bob", "alice", None)));
    assert!(!chat.is_own(&said("", "hi", None)));
}

#[test]
fn the_avatar_address_holds_the_name_as_it_is() {
    assert_eq!(avatar_url("a"), "https://avatars.dicebear.com/api/adventurer-neutral/a.svg");
    assert_eq!(avatar_url(""), "https://avatars.dicebear.com/api/adventurer-neutral/.svg");
    assert_eq!(
        avatar_url("a b/ü?"),
        "https://avatars.dicebear.com/api/adventurer-neutral/a b/ü?.svg"
    );
}

#[test]
fn a_listed_user_is_online_and_has_the_avatar_of_the_name() {
    assert_eq!(UserProfile::listed("bob".to_string()), profile("bob"));
}

#[test]
fn a_roster_keeps_the_first_mention_of_each_name() {
    let names: Vec<String> = ["c", "a", "c", "b", "a"].iter().map(|n| n.to_string()).collect();
    assert_eq!(build_roster(&names), vec![profile("c"), profile("a"), profile("b")]);
    assert_eq!(build_roster(&Vec::new()), Vec::new());
    let one = vec!["x".to_string(); 4];
    assert_eq!(build_roster(&one), vec![profile("x")]);
}

#[test]
fn names_that_differ_in_case_or_space_are_different_users() {
    let names: Vec<String> = ["a", "A", "a ", " a"].iter().map(|n| n.to_string()).collect();
    assert_eq!(build_roster(&names).len(), 4);
}

#[test]
fn position_of_finds_the_first_entry_with_the_name() {
    let users = vec![profile("a"), profile("b"), profile("c")];
    assert_eq!(position_of(&users, "a"), Some(0));
    assert_eq!(position_of(&users, "c"), Some(2));
    assert_eq!(position_of(&users, "d"), None);
    assert_eq!(position_of(&Vec::new(), "a"), None);
}

#[test]
fn users_who_are_offline_are_not_counted() {
    let mut chat = session("alice");
    chat.handle_frame(&users_frame(&["a", "b", "c"]));
    assert_eq!(chat.online_count(), chat.users().iter().filter(|u| u.online).count());
    assert_eq!(chat.online_count(), 3);
}
