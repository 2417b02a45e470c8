use tillerinobot_live::anonymize::user_pseudonym;
use tillerinobot_live::message::{convert_message, Conn, FrontendMessage, LiveActivityMessage};
use tillerinobot_live::registry::{Registry, SendOutcome};

fn registry_abc() -> Registry<char> {
    let mut r = Registry::new();
    r.insert('A', 11);
    r.insert('B', 22);
    r.insert('C', 33);
    r
}

fn received(id: u64, name: &str) -> LiveActivityMessage {
    LiveActivityMessage::Received { event_id: id, irc_user_name: name.to_string() }
}

#[test]
fn translate_received() {
    let conn = Conn { web: (), salt: 12345 };
    assert_eq!(
        convert_message(&conn, &received(42, "alice")),
        FrontendMessage::Received { event_id: 42, user: -689031086 }
    );
}

#[test]
fn translate_sent_keeps_ping() {
    let conn = Conn { web: (), salt: 7 };
    let msg = LiveActivityMessage::Sent { event_id: 5, irc_user_name: "bob".to_string(), ping: Some(120) };
    assert_eq!(
        convert_message(&conn, &msg),
        FrontendMessage::Sent { event_id: 5, user: user_pseudonym("bob", 7), ping: Some(120) }
    );
    let msg = LiveActivityMessage::Sent { event_id: 6, irc_user_name: "bob".to_string(), ping: None };
    assert_eq!(
        convert_message(&conn, &msg),
        FrontendMessage::Sent { event_id: 6, user: user_pseudonym("bob", 7), ping: None }
    );
}

#[test]
fn translate_details_renames_text() {
    let conn = Conn { web: (), salt: 7 };
    let msg = LiveActivityMessage::ReceivedDetails { event_id: u64::MAX, text: "hi there".to_string() };
    assert_eq!(
        convert_message(&conn, &msg),
        FrontendMessage::MessageDetails { event_id: u64::MAX, message: "hi there".to_string() }
    );
}

#[test]
fn broadcast_one_message_per_connection_with_own_salt() {
    let r = registry_abc();
    let msgs = r.messages_for(&received(42, "alice"));
    assert_eq!(msgs.len(), 3);
    for (m, salt) in msgs.iter().zip([11u64, 22, 33]) {
        assert_eq!(*m, FrontendMessage::Received { event_id: 42, user: user_pseudonym("alice", salt) });
    }
    assert_eq!(r.salts(), vec![11, 22, 33]);
}

#[test]
fn end_to_end_received_for_one_client() {
    let mut r: Registry<()> = Registry::new();
    r.insert((), 12345);
    let msgs = r.consume_single(&Some(received(42, "alice")));
    assert_eq!(msgs, vec![FrontendMessage::Received { event_id: 42, user: -689031086 }]);
}

#[test]
fn undecodable_delivery_sends_nothing() {
    let r = registry_abc();
    assert!(r.consume_single(&None).is_empty());
}

#[test]
fn broadcast_on_empty_registry() {
    let r: Registry<char> = Registry::new();
    assert!(r.messages_for(&received(1, "x")).is_empty());
    assert_eq!(r.len(), 0);
}

#[test]
fn reap_removes_only_failing_connection() {
    let mut r = registry_abc();
    r.reap(&vec![SendOutcome::Delivered, SendOutcome::Failed, SendOutcome::Delivered]);
    let webs: Vec<char> = r.conns.iter().map(|c| c.web).collect();
    assert_eq!(webs, vec!['A', 'C']);
    assert_eq!(r.salts(), vec![11, 33]);
}

#[test]
fn reap_keeps_connection_with_full_queue() {
    let mut r = registry_abc();
    r.reap(&vec![SendOutcome::Delivered, SendOutcome::QueueFull, SendOutcome::Delivered]);
    let webs: Vec<char> = r.conns.iter().map(|c| c.web).collect();
    assert_eq!(webs, vec!['A', 'B', 'C']);
}

#[test]
fn reap_all_live_keeps_order() {
    let mut r = registry_abc();
    r.reap(&vec![SendOutcome::Delivered; 3]);
    assert_eq!(r.salts(), vec![11, 22, 33]);
}

#[test]
fn reap_all_failed_empties() {
    let mut r = registry_abc();
    r.reap(&vec![SendOutcome::Failed; 3]);
    assert_eq!(r.len(), 0);
}

#[test]
fn insert_after_reap_appends() {
    let mut r = registry_abc();
    r.reap(&vec![SendOutcome::Failed, SendOutcome::Delivered, SendOutcome::Failed]);
    r.insert('D', 44);
    assert_eq!(r.salts(), vec![22, 44]);
}
