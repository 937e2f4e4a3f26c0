use rmqtt::packet::QoS;
use rmqtt::queue::{drop_policy, mailbox_reason, removes_entry, Policy};
use rmqtt::reason::Reason;

#[test]
fn full_queues_drop_what_may_be_lost() {
    assert_eq!(drop_policy(QoS::AtMostOnce), Policy::Current);
    assert_eq!(drop_policy(QoS::AtLeastOnce), Policy::Early);
    assert_eq!(drop_policy(QoS::ExactlyOnce), Policy::Early);
}

#[test]
fn full_and_closed_mailboxes_are_told_apart() {
    assert_eq!(mailbox_reason(true), Reason::MessageQueueFull);
    assert_eq!(mailbox_reason(false), Reason::MailboxClosed);
}

#[test]
fn only_own_entries_are_removed() {
    assert!(removes_entry(Some(true)));
    assert!(!removes_entry(Some(false)));
    assert!(!removes_entry(None));
}
