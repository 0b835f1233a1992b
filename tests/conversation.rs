use convlog::config::RedisConfig;
use convlog::engine::apply_branch_and_append;
use convlog::message::{Message, MessageType, Role};
use convlog::store::{
    add_message, add_message_at, edit_title, edit_title_at, find_by_user_id,
    find_by_user_id_and_conversation_id, insert_conversation, new_conversation, ConversationTable,
    StoreError,
};
use convlog::title::{derive_title, title_from_words};

fn text(s: &str) -> String {
    s.to_string()
}

fn append_text(
    tx: &mut ConversationTable,
    user: i64,
    id: u128,
    message: &str,
    answer: &str,
    branch_point: usize,
    now: i64,
) -> Result<convlog::store::Conversation, StoreError> {
    add_message_at(
        tx,
        user,
        id,
        MessageType::Text,
        text(message),
        None,
        vec![],
        text(answer),
        branch_point,
        now,
    )
}

#[test]
fn title_takes_first_three_words() {
    assert_eq!(
        derive_title("hello world this is a long first message with many words"),
        "hello world this"
    );
    assert_eq!(derive_title("Plan my trip to Rome"), "Plan my trip");
}

#[test]
fn title_of_short_and_empty_messages() {
    assert_eq!(derive_title("hi"), "hi");
    assert_eq!(derive_title("  two   words "), "two words");
    assert_eq!(derive_title(""), "");
    assert_eq!(derive_title("   "), "");
}

#[test]
fn title_at_thirty_characters_keeps_the_words() {
    // 10 + 1 + 10 + 1 + 8 = 30 characters once joined.
    let m = "aaaaaaaaaa   bbbbbbbbbb cccccccc dd";
    assert_eq!(derive_title(m), "aaaaaaaaaa bbbbbbbbbb cccccccc");
}

#[test]
fn title_over_thirty_characters_cuts_the_message() {
    // 31 characters once joined: the message itself is cut, spaces and all.
    let m = "aaaaaaaaaa   bbbbbbbbbb ccccccccc dd";
    let t = derive_title(m);
    assert_eq!(t, "aaaaaaaaaa   bbbbbbbbbb cccccc");
    assert_eq!(t.chars().count(), 30);
}

#[test]
fn title_counts_characters_not_bytes() {
    // Thirty two-byte characters in one word: 30 characters, 60 bytes.
    let word: String = std::iter::repeat('é').take(30).collect();
    assert_eq!(derive_title(&word), word);
    let longer: String = std::iter::repeat('é').take(31).collect();
    assert_eq!(derive_title(&longer).chars().count(), 30);
}

#[test]
fn title_from_given_words() {
    let words = vec![text("one"), text("two"), text("three"), text("four")];
    assert_eq!(title_from_words(&words, "ignored"), "one two three");
    let long = vec![text("abcdefghijklmnopqrstuvwxyz"), text("abcdef")];
    assert_eq!(title_from_words(&long, "0123456789012345678901234567890123"), "012345678901234567890123456789");
}

fn user_msg(id: usize, s: &str) -> Message {
    Message {
        msgtype: MessageType::Text,
        id,
        role: Role::User,
        content: text(s),
        transcription: None,
        images: vec![],
    }
}

#[test]
fn engine_appends_pair_with_shared_number() {
    let mut log = vec![];
    let mut title = text("New Chat");
    apply_branch_and_append(
        &mut log,
        &mut title,
        0,
        MessageType::Audio,
        text("voice note"),
        Some(text("said words")),
        vec![],
        text("reply"),
    );
    assert_eq!(log.len(), 2);
    assert_eq!(title, "voice note");
    assert_eq!(log[0].id, 1);
    assert_eq!(log[0].role, Role::User);
    assert_eq!(log[0].msgtype, MessageType::Audio);
    assert_eq!(log[0].transcription, Some(text("said words")));
    assert_eq!(log[1].id, 1);
    assert_eq!(log[1].role, Role::Assistant);
    assert_eq!(log[1].msgtype, MessageType::Text);
    assert_eq!(log[1].content, "reply");
    assert_eq!(log[1].transcription, None);
    assert!(log[1].images.is_empty());
}

#[test]
fn engine_branch_keeps_prefix() {
    let mut log = vec![user_msg(1, "a"), user_msg(1, "b"), user_msg(3, "c"), user_msg(3, "d")];
    let mut title = text("Kept");
    apply_branch_and_append(
        &mut log,
        &mut title,
        2,
        MessageType::Image,
        text("look"),
        None,
        vec![text("http://img/1")],
        text("nice"),
    );
    assert_eq!(log.len(), 4);
    assert_eq!(log[0].content, "a");
    assert_eq!(log[1].content, "b");
    assert_eq!(log[2].content, "look");
    assert_eq!(log[2].id, 3);
    assert_eq!(log[2].images, vec![text("http://img/1")]);
    assert_eq!(log[3].content, "nice");
    assert_eq!(log[3].id, 3);
    assert_eq!(title, "Kept");
}

#[test]
fn engine_branch_past_end_appends() {
    let mut log = vec![user_msg(1, "a"), user_msg(1, "b")];
    let mut title = text("T");
    apply_branch_and_append(
        &mut log,
        &mut title,
        10,
        MessageType::Text,
        text("next"),
        None,
        vec![],
        text("ok"),
    );
    assert_eq!(log.len(), 4);
    assert_eq!(log[2].id, 3);
    assert_eq!(log[3].id, 3);
    assert_eq!(title, "T");
}

#[test]
fn end_to_end_first_turn_and_resubmit() {
    let mut tx = ConversationTable::new();
    let c = new_conversation(&mut tx, 7).unwrap();
    let fresh = find_by_user_id_and_conversation_id(&tx, 7, c).unwrap();
    assert_eq!(fresh.title, "New Chat");
    assert!(fresh.log.is_empty());

    let r = add_message(
        &mut tx,
        7,
        c,
        MessageType::Text,
        text("Plan my trip to Rome"),
        None,
        vec![],
        text("Sure, ..."),
        0,
    )
    .unwrap();
    assert_eq!(r.title, "Plan my trip");
    assert_eq!(r.log.len(), 2);

    let r = add_message(
        &mut tx,
        7,
        c,
        MessageType::Text,
        text("Plan my trip to Paris instead"),
        None,
        vec![],
        text("Got it, ..."),
        0,
    )
    .unwrap();
    assert_eq!(r.log.len(), 2);
    assert_eq!(r.title, "Plan my trip");
    assert_eq!(r.log[0].content, "Plan my trip to Paris instead");
    assert_eq!(r.log[1].content, "Got it, ...");
    assert!(r.updated_at >= r.created_at);
}

#[test]
fn resubmit_recomputes_title_from_new_message() {
    let mut tx = ConversationTable::new();
    insert_conversation(&mut tx, 7, 1, 100).unwrap();
    append_text(&mut tx, 7, 1, "Plan my trip to Rome", "Sure", 0, 101).unwrap();
    let r = append_text(&mut tx, 7, 1, "Book a hotel now please", "Done", 0, 102).unwrap();
    assert_eq!(r.title, "Book a hotel");
    assert_eq!(r.log.len(), 2);
}

#[test]
fn lookup_hides_other_users_conversations() {
    let mut tx = ConversationTable::new();
    insert_conversation(&mut tx, 2, 42, 0).unwrap();
    let missing = find_by_user_id_and_conversation_id(&tx, 1, 99);
    let foreign = find_by_user_id_and_conversation_id(&tx, 1, 42);
    assert!(missing.is_none());
    assert!(foreign.is_none());
    assert!(find_by_user_id_and_conversation_id(&tx, 2, 42).is_some());
    let e1 = append_text(&mut tx, 1, 99, "x", "y", 0, 1).unwrap_err();
    let e2 = append_text(&mut tx, 1, 42, "x", "y", 0, 1).unwrap_err();
    assert_eq!(e1, StoreError::NotFound);
    assert_eq!(e1, e2);
    assert_eq!(edit_title_at(&mut tx, 1, 42, text("t"), 1).unwrap_err(), StoreError::NotFound);
    let own = find_by_user_id_and_conversation_id(&tx, 2, 42).unwrap();
    assert_eq!(own.title, "New Chat");
    assert!(own.log.is_empty());
}

#[test]
fn rename_keeps_long_title() {
    let mut tx = ConversationTable::new();
    insert_conversation(&mut tx, 3, 5, 10).unwrap();
    let long = "a title that is much longer than thirty characters in all";
    let r = edit_title_at(&mut tx, 3, 5, text(long), 20).unwrap();
    assert_eq!(r.title, long);
    assert_eq!(r.updated_at, 20);
    assert_eq!(r.created_at, 10);
    let r = edit_title(&mut tx, 3, 5, text("short")).unwrap();
    assert_eq!(r.title, "short");
}

#[test]
fn auto_title_is_clamped() {
    let mut tx = ConversationTable::new();
    insert_conversation(&mut tx, 3, 5, 10).unwrap();
    let m = "Supercalifragilisticexpialidocious is a long word";
    let r = append_text(&mut tx, 3, 5, m, "yes", 0, 11).unwrap();
    assert_eq!(r.title, "Supercalifragilisticexpialidoc");
    assert!(r.title.chars().count() <= 30);
}

#[test]
fn update_time_never_before_creation() {
    let mut tx = ConversationTable::new();
    insert_conversation(&mut tx, 3, 5, 1000).unwrap();
    let r = append_text(&mut tx, 3, 5, "hello", "hi", 0, 10).unwrap();
    assert_eq!(r.updated_at, 1000);
    let r = edit_title_at(&mut tx, 3, 5, text("x"), 2000).unwrap();
    assert_eq!(r.updated_at, 2000);
}

#[test]
fn appends_at_end_both_stay() {
    let mut tx = ConversationTable::new();
    insert_conversation(&mut tx, 9, 1, 0).unwrap();
    append_text(&mut tx, 9, 1, "first question", "first answer", 0, 1).unwrap();
    append_text(&mut tx, 9, 1, "second", "two", 2, 2).unwrap();
    // A resubmission at 2 replaces the exchange after the first one.
    let r = append_text(&mut tx, 9, 1, "third", "three", 2, 3).unwrap();
    assert_eq!(r.log.len(), 4);
    let r = append_text(&mut tx, 9, 1, "fourth", "four", 4, 4).unwrap();
    assert_eq!(r.log.len(), 6);
    let contents: Vec<&str> = r.log.iter().map(|m| m.content.as_str()).collect();
    assert_eq!(contents, vec!["first question", "first answer", "third", "three", "fourth", "four"]);
    assert_eq!(r.log.len() % 2, 0);
}

#[test]
fn sequential_appends_at_current_end_keep_both_pairs() {
    let mut tx = ConversationTable::new();
    insert_conversation(&mut tx, 9, 1, 0).unwrap();
    append_text(&mut tx, 9, 1, "q1", "a1", 0, 1).unwrap();
    append_text(&mut tx, 9, 1, "q2", "a2", usize::MAX, 2).unwrap();
    let r = append_text(&mut tx, 9, 1, "q3", "a3", usize::MAX, 3).unwrap();
    let contents: Vec<&str> = r.log.iter().map(|m| m.content.as_str()).collect();
    assert_eq!(contents, vec!["q1", "a1", "q2", "a2", "q3", "a3"]);
    let ids: Vec<usize> = r.log.iter().map(|m| m.id).collect();
    assert_eq!(ids, vec![1, 1, 3, 3, 5, 5]);
}

#[test]
fn duplicate_id_is_a_persistence_error() {
    let mut tx = ConversationTable::new();
    assert_eq!(insert_conversation(&mut tx, 1, 8, 0), Ok(8));
    assert_eq!(insert_conversation(&mut tx, 2, 8, 0), Err(StoreError::Persistence));
    assert!(find_by_user_id_and_conversation_id(&tx, 2, 8).is_none());
    assert_eq!(tx.rows.len(), 1);
}

#[test]
fn list_is_most_recent_first_and_scoped() {
    let mut tx = ConversationTable::new();
    insert_conversation(&mut tx, 1, 10, 5).unwrap();
    insert_conversation(&mut tx, 2, 11, 6).unwrap();
    insert_conversation(&mut tx, 1, 12, 7).unwrap();
    insert_conversation(&mut tx, 1, 13, 1).unwrap();
    edit_title_at(&mut tx, 1, 10, text("bumped"), 50).unwrap();
    let list = find_by_user_id(&tx, 1);
    let ids: Vec<u128> = list.iter().map(|c| c.id).collect();
    assert_eq!(ids, vec![10, 12, 13]);
    assert!(find_by_user_id(&tx, 3).is_empty());
    assert_eq!(find_by_user_id(&tx, 2).len(), 1);
}

#[test]
fn new_conversations_get_distinct_ids() {
    let mut tx = ConversationTable::new();
    let a = new_conversation(&mut tx, 1).unwrap();
    let b = new_conversation(&mut tx, 1).unwrap();
    assert_ne!(a, b);
    assert_eq!(find_by_user_id(&tx, 1).len(), 2);
}

#[test]
fn redis_url_is_built() {
    assert_eq!(RedisConfig::create_url("localhost", 6379, "0"), "redis://localhost:6379/0");
    assert_eq!(RedisConfig::create_url("h", 0, "db"), "redis://h:0/db");
    let c = RedisConfig { port: 65535, host: text("cache.local"), database: text("sessions") };
    assert_eq!(c.get_url(), "redis://cache.local:65535/sessions");
}

#[test]
fn odd_branch_point_leaves_odd_log() {
    let mut log = vec![user_msg(1, "a"), user_msg(1, "b")];
    let mut title = text("T");
    apply_branch_and_append(
        &mut log,
        &mut title,
        1,
        MessageType::Text,
        text("edit"),
        None,
        vec![],
        text("ok"),
    );
    assert_eq!(log.len(), 3);
    assert_eq!(log[0].content, "a");
    assert_eq!(log[1].content, "edit");
    assert_eq!(log[1].id, 2);
    assert_eq!(log[2].id, 2);
}
