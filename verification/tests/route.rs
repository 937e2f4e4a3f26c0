use rmqtt::link::{FlowId, FlowKind, ReplyPath};
use rmqtt::route::{
    PacketIssuer, PacketRouteKey, PacketRouteLedger, RouteError, TransactionFamily, TransactionStage,
};

fn key(issuer: PacketIssuer, packet_id: u16) -> PacketRouteKey {
    PacketRouteKey::try_new(issuer, packet_id).expect("non-zero packet id")
}

fn path(flow_id: u64, generation: u64) -> ReplyPath {
    ReplyPath::new(FlowId::new(flow_id), FlowKind::Data, generation)
}

#[test]
fn same_numeric_packet_id_is_scoped_by_issuer() {
    let mut ledger = PacketRouteLedger::new();
    let client_key = key(PacketIssuer::Client, 7);
    let server_key = key(PacketIssuer::Server, 7);
    let client_path = path(11, 1);
    let server_path = path(12, 1);

    ledger
        .insert(
            client_key,
            TransactionFamily::PublishQos1,
            TransactionStage::PublishQos1AwaitPuback,
            client_path,
        )
        .unwrap();
    ledger
        .insert(
            server_key,
            TransactionFamily::Subscribe,
            TransactionStage::SubscribeAwaitSuback,
            server_path,
        )
        .unwrap();

    assert_eq!(ledger.len(), 2);
    assert_eq!(ledger.get(client_key).unwrap().path(), client_path);
    assert_eq!(ledger.get(server_key).unwrap().path(), server_path);
}

#[test]
fn same_issuer_cannot_reuse_packet_id_until_removed() {
    let mut ledger = PacketRouteLedger::new();
    let route_key = key(PacketIssuer::Client, 9);

    ledger
        .insert(
            route_key,
            TransactionFamily::PublishQos1,
            TransactionStage::PublishQos1AwaitPuback,
            path(21, 1),
        )
        .unwrap();

    let error = ledger
        .insert(
            route_key,
            TransactionFamily::Subscribe,
            TransactionStage::SubscribeAwaitSuback,
            path(22, 1),
        )
        .unwrap_err();

    assert!(matches!(error, RouteError::Conflict { key, .. } if key == route_key));
}

#[test]
fn qos2_duplicate_must_match_the_active_flow_and_stage() {
    let mut ledger = PacketRouteLedger::new();
    let route_key = key(PacketIssuer::Client, 22);
    let route_path = path(2, 7);
    let wrong_path = path(3, 7);

    assert!(ledger
        .insert_or_validate_duplicate(
            route_key,
            TransactionFamily::PublishQos2,
            TransactionStage::PublishQos2AwaitPubrel,
            route_path,
            false,
        )
        .unwrap());
    assert!(!ledger
        .insert_or_validate_duplicate(
            route_key,
            TransactionFamily::PublishQos2,
            TransactionStage::PublishQos2AwaitPubrel,
            route_path,
            true,
        )
        .unwrap());
    assert!(matches!(
        ledger.insert_or_validate_duplicate(
            route_key,
            TransactionFamily::PublishQos2,
            TransactionStage::PublishQos2AwaitPubrel,
            wrong_path,
            true,
        ),
        Err(RouteError::WrongFlow { .. })
    ));
    assert!(matches!(
        ledger.insert_or_validate_duplicate(
            route_key,
            TransactionFamily::PublishQos2,
            TransactionStage::PublishQos2AwaitPubrel,
            route_path,
            false,
        ),
        Err(RouteError::Conflict { .. })
    ));
}

#[test]
fn outbound_qos1_retry_reuses_the_existing_route() {
    let mut ledger = PacketRouteLedger::new();
    let route_key = key(PacketIssuer::Server, 23);
    let route_path = path(4, 9);

    assert!(ledger
        .insert_or_validate_duplicate(
            route_key,
            TransactionFamily::PublishQos1,
            TransactionStage::PublishQos1AwaitPuback,
            route_path,
            false,
        )
        .unwrap());
    assert!(!ledger
        .insert_or_validate_duplicate(
            route_key,
            TransactionFamily::PublishQos1,
            TransactionStage::PublishQos1AwaitPuback,
            route_path,
            true,
        )
        .unwrap());
    assert_eq!(ledger.len(), 1);
    assert_eq!(ledger.get(route_key).unwrap().path(), route_path);
}

#[test]
fn transition_validates_flow_family_and_stage_before_mutating() {
    let mut ledger = PacketRouteLedger::new();
    let route_key = key(PacketIssuer::Server, 10);
    let original_path = path(31, 1);

    ledger
        .insert(
            route_key,
            TransactionFamily::PublishQos2,
            TransactionStage::PublishQos2AwaitPubrec,
            original_path,
        )
        .unwrap();

    assert_eq!(
        ledger
            .transition(
                route_key,
                TransactionFamily::PublishQos2,
                TransactionStage::PublishQos2AwaitPubrec,
                TransactionStage::PublishQos2AwaitPubrel,
                path(32, 1),
            )
            .unwrap_err(),
        RouteError::WrongFlow { key: route_key, expected: original_path, actual: path(32, 1) }
    );
    assert_eq!(ledger.get(route_key).unwrap().stage(), TransactionStage::PublishQos2AwaitPubrec);

    assert_eq!(
        ledger
            .transition(
                route_key,
                TransactionFamily::PublishQos1,
                TransactionStage::PublishQos1AwaitPuback,
                TransactionStage::PublishQos1AwaitPuback,
                original_path,
            )
            .unwrap_err(),
        RouteError::WrongFamily {
            key: route_key,
            expected: TransactionFamily::PublishQos2,
            actual: TransactionFamily::PublishQos1,
        }
    );
    assert_eq!(ledger.get(route_key).unwrap().stage(), TransactionStage::PublishQos2AwaitPubrec);

    let next = ledger
        .transition(
            route_key,
            TransactionFamily::PublishQos2,
            TransactionStage::PublishQos2AwaitPubrec,
            TransactionStage::PublishQos2AwaitPubrel,
            original_path,
        )
        .unwrap();

    assert_eq!(next.stage(), TransactionStage::PublishQos2AwaitPubrel);
    assert_eq!(ledger.get(route_key).unwrap().stage(), TransactionStage::PublishQos2AwaitPubrel);
}

#[test]
fn completion_validates_then_removes_entry() {
    let mut ledger = PacketRouteLedger::new();
    let route_key = key(PacketIssuer::Client, 11);
    let route_path = path(41, 1);

    ledger
        .insert(
            route_key,
            TransactionFamily::Unsubscribe,
            TransactionStage::UnsubscribeAwaitUnsuback,
            route_path,
        )
        .unwrap();

    assert_eq!(
        ledger
            .complete(
                route_key,
                TransactionFamily::Unsubscribe,
                TransactionStage::SubscribeAwaitSuback,
                route_path,
            )
            .unwrap_err(),
        RouteError::WrongFamilyStage {
            family: TransactionFamily::Unsubscribe,
            stage: TransactionStage::SubscribeAwaitSuback,
        }
    );
    assert!(ledger.get(route_key).is_some());

    let completed = ledger
        .complete(
            route_key,
            TransactionFamily::Unsubscribe,
            TransactionStage::UnsubscribeAwaitUnsuback,
            route_path,
        )
        .unwrap();

    assert_eq!(completed.path(), route_path);
    assert!(ledger.get(route_key).is_none());
    assert_eq!(
        ledger.complete(
            route_key,
            TransactionFamily::Unsubscribe,
            TransactionStage::UnsubscribeAwaitUnsuback,
            route_path,
        ),
        Err(RouteError::NotFound { key: route_key })
    );
}

#[test]
fn flow_queries_and_removal_support_flow_and_generation_cleanup() {
    let mut ledger = PacketRouteLedger::new();
    let first = key(PacketIssuer::Client, 1);
    let second = key(PacketIssuer::Server, 1);
    let third = key(PacketIssuer::Client, 2);

    ledger
        .insert(
            first,
            TransactionFamily::PublishQos1,
            TransactionStage::PublishQos1AwaitPuback,
            path(51, 1),
        )
        .unwrap();
    ledger
        .insert(
            second,
            TransactionFamily::PublishQos2,
            TransactionStage::PublishQos2AwaitPubcomp,
            path(51, 2),
        )
        .unwrap();
    ledger
        .insert(third, TransactionFamily::Subscribe, TransactionStage::SubscribeAwaitSuback, path(52, 1))
        .unwrap();

    assert!(ledger.has_path_entries(path(51, 1)));
    assert!(ledger.has_flow_entries(FlowId::new(51)));
    assert_eq!(ledger.remove_path(path(51, 1)), 1);
    assert!(!ledger.has_path_entries(path(51, 1)));
    assert!(ledger.has_path_entries(path(51, 2)));
    assert_eq!(ledger.remove_flow(FlowId::new(51)), 1);
    assert!(!ledger.has_flow_entries(FlowId::new(51)));
    assert!(ledger.has_flow_entries(FlowId::new(52)));
    assert_eq!(ledger.len(), 1);
}

#[test]
fn zero_is_no_packet_identifier() {
    assert!(PacketRouteKey::try_new(PacketIssuer::Client, 0).is_none());
    assert_eq!(key(PacketIssuer::Client, 65535).packet_id().get(), 65535);
}

#[test]
fn families_accept_their_own_stages_only() {
    assert!(TransactionFamily::PublishQos2.accepts(TransactionStage::PublishQos2AwaitPubcomp));
    assert!(!TransactionFamily::PublishQos1.accepts(TransactionStage::PublishQos2AwaitPubcomp));
    assert!(TransactionFamily::Unsubscribe.accepts(TransactionStage::UnsubscribeAwaitUnsuback));
    assert!(!TransactionFamily::Unsubscribe.accepts(TransactionStage::SubscribeAwaitSuback));
}

#[test]
fn stage_of_another_family_is_refused_on_insertion() {
    let mut ledger = PacketRouteLedger::new();
    let route_key = key(PacketIssuer::Client, 3);

    assert_eq!(
        ledger.insert(
            route_key,
            TransactionFamily::PublishQos1,
            TransactionStage::SubscribeAwaitSuback,
            path(1, 1),
        ),
        Err(RouteError::WrongFamilyStage {
            family: TransactionFamily::PublishQos1,
            stage: TransactionStage::SubscribeAwaitSuback,
        })
    );
    assert_eq!(ledger.len(), 0);
}

#[test]
fn stage_that_is_not_in_turn_is_refused() {
    let mut ledger = PacketRouteLedger::new();
    let route_key = key(PacketIssuer::Server, 3);
    ledger
        .insert(
            route_key,
            TransactionFamily::PublishQos2,
            TransactionStage::PublishQos2AwaitPubrec,
            path(1, 1),
        )
        .unwrap();

    assert_eq!(
        ledger.validate(
            route_key,
            TransactionFamily::PublishQos2,
            TransactionStage::PublishQos2AwaitPubcomp,
            path(1, 1),
        ),
        Err(RouteError::WrongStage {
            key: route_key,
            expected: TransactionStage::PublishQos2AwaitPubrec,
            actual: TransactionStage::PublishQos2AwaitPubcomp,
        })
    );
}

#[test]
fn completed_identifier_can_be_used_again() {
    let mut ledger = PacketRouteLedger::new();
    let route_key = key(PacketIssuer::Client, 4);
    for round in 0..3 {
        ledger
            .insert(
                route_key,
                TransactionFamily::PublishQos1,
                TransactionStage::PublishQos1AwaitPuback,
                path(round, 1),
            )
            .unwrap();
        let done = ledger
            .complete(
                route_key,
                TransactionFamily::PublishQos1,
                TransactionStage::PublishQos1AwaitPuback,
                path(round, 1),
            )
            .unwrap();
        assert_eq!(done.flow_id(), FlowId::new(round));
        assert_eq!(ledger.len(), 0);
    }
}

#[test]
fn transition_keeps_the_path_and_other_transactions() {
    let mut ledger = PacketRouteLedger::new();
    let moved = key(PacketIssuer::Server, 5);
    let other = key(PacketIssuer::Client, 5);
    for route_key in [moved, other] {
        ledger
            .insert(
                route_key,
                TransactionFamily::PublishQos2,
                TransactionStage::PublishQos2AwaitPubrec,
                path(6, 2),
            )
            .unwrap();
    }
    ledger
        .transition(
            moved,
            TransactionFamily::PublishQos2,
            TransactionStage::PublishQos2AwaitPubrec,
            TransactionStage::PublishQos2AwaitPubcomp,
            path(6, 2),
        )
        .unwrap();

    assert_eq!(ledger.get(moved).unwrap().path(), path(6, 2));
    assert_eq!(ledger.get(other).unwrap().stage(), TransactionStage::PublishQos2AwaitPubrec);
    assert_eq!(ledger.remove(other).unwrap().family(), TransactionFamily::PublishQos2);
    assert!(ledger.remove(other).is_none());
}
