use rmqtt::link::{FlowId, FlowKind, ReplyPath};
use rmqtt::subscription_binding::SubscriptionBindingStore;
use rmqtt::topic::TopicFilter;

fn data_path(flow: u64) -> ReplyPath {
    ReplyPath::new(FlowId::new(flow), FlowKind::Data, 0)
}

fn parsed(filter: &str) -> TopicFilter {
    TopicFilter::parse(filter).unwrap()
}

#[test]
fn activates_suback_committed_binding_and_routes_lowest_data_flow() {
    let mut store = SubscriptionBindingStore::new();
    store.begin(parsed("sensors/#"), data_path(7));
    store.begin(parsed("sensors/+/temp"), data_path(3));

    assert_eq!(store.route("sensors/a/temp"), None);
    assert!(store.activate(&parsed("sensors/#")));
    assert_eq!(store.route("sensors/a/temp"), Some(data_path(7)));
    assert!(store.activate(&parsed("sensors/+/temp")));
    assert_eq!(store.route("sensors/a/temp"), Some(data_path(3)));
}

#[test]
fn control_only_matching_binding_does_not_route() {
    let mut store = SubscriptionBindingStore::new();
    store.begin(parsed("sensors/#"), ReplyPath::control());
    store.activate(&parsed("sensors/#"));

    assert_eq!(store.route("sensors/a/temp"), None);
}

#[test]
fn resubscribe_replaces_prior_path() {
    let mut store = SubscriptionBindingStore::new();
    store.begin(parsed("sensors/#"), data_path(8));
    store.activate(&parsed("sensors/#"));
    store.begin(parsed("sensors/#"), data_path(4));
    store.activate(&parsed("sensors/#"));

    assert_eq!(store.route("sensors/a/temp"), Some(data_path(4)));
}

#[test]
fn unsubscribe_and_remove_flow_delete_bindings() {
    let mut store = SubscriptionBindingStore::new();
    store.begin(parsed("sensors/#"), data_path(8));
    store.begin(parsed("devices/#"), data_path(4));
    store.activate(&parsed("sensors/#"));
    store.activate(&parsed("devices/#"));

    assert!(store.unsubscribe(&parsed("sensors/#")));
    assert_eq!(store.route("sensors/a/temp"), None);
    assert_eq!(store.route("devices/a"), Some(data_path(4)));
    assert_eq!(store.remove_flow(FlowId::new(4)), 1);
    assert_eq!(store.route("devices/a"), None);
}

#[test]
fn restored_subscriptions_are_absent_until_begin_is_called() {
    let store = SubscriptionBindingStore::new();

    assert_eq!(store.route("sensors/a/temp"), None);
}

#[test]
fn equal_flows_are_told_apart_by_generation_and_filter() {
    let mut store = SubscriptionBindingStore::new();
    let newer = ReplyPath::new(FlowId::new(3), FlowKind::Data, 9);
    store.begin(parsed("a/#"), newer);
    store.activate(&parsed("a/#"));
    store.begin(parsed("a/b"), data_path(3));
    store.activate(&parsed("a/b"));
    assert_eq!(store.route("a/b"), Some(data_path(3)));

    assert!(!store.activate(&parsed("x/y")));
    assert!(!store.unsubscribe(&parsed("x/y")));
    assert_eq!(store.remove_flow(FlowId::new(3)), 2);
    assert_eq!(store.remove_flow(FlowId::new(3)), 0);
}

#[test]
fn bindings_without_a_match_lead_nothing() {
    let mut store = SubscriptionBindingStore::new();
    store.begin(parsed("a/+"), data_path(1));
    store.activate(&parsed("a/+"));
    assert_eq!(store.route("a/b/c"), None);
    assert_eq!(store.route("a/b"), Some(data_path(1)));
    assert_eq!(store.route("$SYS/a"), None);
}
