use comment_feed::{
    begin_broadcast, connect, default_channel_name, delivery_report, disconnect, finish_broadcast,
    gone_targets, join, leave, plan_pushes, switch_channel, validate_channel, ChannelSwitch,
    DeliveryOutcome, FeedError, PushRequest, Registry, StoreReply, StoreRequest, SwitchState,
};

fn s(x: &str) -> String {
    x.to_string()
}

fn sorted(mut v: Vec<String>) -> Vec<String> {
    v.sort();
    v
}

fn answer(reqs: &[PushRequest], gone: &str) -> Vec<DeliveryOutcome> {
    reqs.iter()
        .map(|r| {
            if r.connection_id == gone {
                DeliveryOutcome::TargetGone
            } else {
                DeliveryOutcome::Delivered
            }
        })
        .collect()
}

#[test]
fn join_then_query_contains_member() {
    let mut reg = Registry::new();
    join(&mut reg, &s("x"), &s("C"));
    assert_eq!(reg.query(&s("C")), vec![s("x")]);
    join(&mut reg, &s("x"), &s("C"));
    join(&mut reg, &s("x"), &s("C"));
    assert_eq!(reg.query(&s("C")), vec![s("x")]);
    assert!(reg.query(&s("D")).is_empty());
}

#[test]
fn leave_twice_is_a_no_op_the_second_time() {
    let mut reg = Registry::new();
    join(&mut reg, &s("x"), &s("C"));
    join(&mut reg, &s("y"), &s("C"));
    leave(&mut reg, &s("x"), &s("C"));
    assert_eq!(reg.query(&s("C")), vec![s("y")]);
    leave(&mut reg, &s("x"), &s("C"));
    assert_eq!(reg.query(&s("C")), vec![s("y")]);
}

#[test]
fn leave_unknown_connection_succeeds() {
    let mut reg = Registry::new();
    leave(&mut reg, &s("nobody"), &s("C"));
    assert!(reg.query(&s("C")).is_empty());
}

#[test]
fn switch_moves_between_channels() {
    let mut reg = Registry::new();
    join(&mut reg, &s("x"), &s("A"));
    assert_eq!(switch_channel(&mut reg, &s("x"), &s("A"), &s("B")), Ok(()));
    assert!(reg.query(&s("A")).is_empty());
    assert_eq!(reg.query(&s("B")), vec![s("x")]);
}

#[test]
fn broadcast_reaches_only_channel_members() {
    let mut reg = Registry::new();
    join(&mut reg, &s("a"), &s("C"));
    join(&mut reg, &s("b"), &s("C"));
    join(&mut reg, &s("z"), &s("other"));
    let reqs = begin_broadcast(&reg, &s("C"), &s("payload"));
    let ids = sorted(reqs.iter().map(|r| r.connection_id.clone()).collect());
    assert_eq!(ids, vec![s("a"), s("b")]);
    assert!(reqs.iter().all(|r| r.payload == "payload"));
}

#[test]
fn scenario_two_members_receive_hello() {
    let mut reg = Registry::new();
    join(&mut reg, &s("c1"), &s("room1"));
    join(&mut reg, &s("c2"), &s("room1"));
    let reqs = begin_broadcast(&reg, &s("room1"), &s("hello"));
    assert_eq!(reqs.len(), 2);
    let ids = sorted(reqs.iter().map(|r| r.connection_id.clone()).collect());
    assert_eq!(ids, vec![s("c1"), s("c2")]);
    assert!(reqs.iter().all(|r| r.payload == "hello"));
    let outcomes = vec![DeliveryOutcome::Delivered; reqs.len()];
    let report = finish_broadcast(&mut reg, &s("room1"), &reqs, &outcomes);
    assert_eq!(report.len(), 2);
    assert!(report.iter().all(|e| e.outcome == DeliveryOutcome::Delivered));
    assert_eq!(sorted(reg.query(&s("room1"))), vec![s("c1"), s("c2")]);
}

#[test]
fn scenario_empty_room_has_no_sends() {
    let mut reg = Registry::new();
    let reqs = begin_broadcast(&reg, &s("empty-room"), &s("hi"));
    assert!(reqs.is_empty());
    let report = finish_broadcast(&mut reg, &s("empty-room"), &reqs, &Vec::new());
    assert!(report.is_empty());
}

#[test]
fn scenario_switch_room1_to_room2() {
    let mut reg = Registry::new();
    join(&mut reg, &s("c1"), &s("room1"));
    assert_eq!(switch_channel(&mut reg, &s("c1"), &s("room1"), &s("room2")), Ok(()));
    assert!(reg.query(&s("room1")).is_empty());
    assert_eq!(reg.query(&s("room2")), vec![s("c1")]);
}

#[test]
fn scenario_gone_target_is_cleaned_up() {
    let mut reg = Registry::new();
    join(&mut reg, &s("c1"), &s("room1"));
    join(&mut reg, &s("c2"), &s("room1"));
    let reqs = begin_broadcast(&reg, &s("room1"), &s("x"));
    let outcomes = answer(&reqs, "c2");
    let report = finish_broadcast(&mut reg, &s("room1"), &reqs, &outcomes);
    assert_eq!(report.len(), 2);
    let c1 = report.iter().find(|e| e.connection_id == "c1").unwrap();
    assert_eq!(c1.outcome, DeliveryOutcome::Delivered);
    assert!(reqs.iter().any(|r| r.connection_id == "c1" && r.payload == "x"));
    assert_eq!(reg.query(&s("room1")), vec![s("c1")]);
}

#[test]
fn delivery_error_keeps_membership() {
    let mut reg = Registry::new();
    join(&mut reg, &s("c1"), &s("room1"));
    let reqs = begin_broadcast(&reg, &s("room1"), &s("x"));
    let report = finish_broadcast(&mut reg, &s("room1"), &reqs, &vec![DeliveryOutcome::DeliveryError]);
    assert_eq!(report[0].outcome, DeliveryOutcome::DeliveryError);
    assert_eq!(reg.query(&s("room1")), vec![s("c1")]);
}

#[test]
fn plan_and_report_keep_order() {
    let members = vec![s("b"), s("a"), s("c")];
    let reqs = plan_pushes(&members, &s("m"));
    let ids: Vec<String> = reqs.iter().map(|r| r.connection_id.clone()).collect();
    assert_eq!(ids, members);
    let outcomes = vec![
        DeliveryOutcome::TargetGone,
        DeliveryOutcome::Delivered,
        DeliveryOutcome::TargetGone,
    ];
    let report = delivery_report(&reqs, &outcomes);
    assert_eq!(report[0].connection_id, "b");
    assert_eq!(report[2].outcome, DeliveryOutcome::TargetGone);
    assert_eq!(gone_targets(&report), vec![s("b"), s("c")]);
}

#[test]
fn gone_targets_of_clean_report_is_empty() {
    let reqs = plan_pushes(&vec![s("a")], &s("m"));
    let report = delivery_report(&reqs, &vec![DeliveryOutcome::Delivered]);
    assert!(gone_targets(&report).is_empty());
}

#[test]
fn switch_machine_success_path() {
    let mut sw = ChannelSwitch::new(&s("x"), &s("A"), &s("B"));
    assert_eq!(sw.outcome(), None);
    match sw.start() {
        Some(StoreRequest::Delete(rec)) => {
            assert_eq!(rec.channel, "A");
            assert_eq!(rec.connection_id, "x");
        }
        _ => panic!("expected a delete"),
    }
    assert!(sw.start().is_none());
    match sw.on_reply(StoreReply::Done) {
        Some(StoreRequest::Put(rec)) => {
            assert_eq!(rec.channel, "B");
            assert_eq!(rec.connection_id, "x");
        }
        _ => panic!("expected a put"),
    }
    assert!(sw.on_reply(StoreReply::Done).is_none());
    assert_eq!(sw.state, SwitchState::Succeeded);
    assert_eq!(sw.outcome(), Some(Ok(())));
}

#[test]
fn switch_machine_delete_failure_is_store_unavailable() {
    let mut sw = ChannelSwitch::new(&s("x"), &s("A"), &s("B"));
    sw.start();
    assert!(sw.on_reply(StoreReply::Unavailable).is_none());
    assert_eq!(sw.outcome(), Some(Err(FeedError::StoreUnavailable)));
}

#[test]
fn switch_machine_insert_failure_is_partial() {
    let mut sw = ChannelSwitch::new(&s("x"), &s("A"), &s("B"));
    sw.start();
    sw.on_reply(StoreReply::Done);
    assert!(sw.on_reply(StoreReply::Unavailable).is_none());
    assert_eq!(sw.outcome(), Some(Err(FeedError::PartialSwitchFailure)));
    assert!(sw.on_reply(StoreReply::Done).is_none());
    assert_eq!(sw.state, SwitchState::Failed(FeedError::PartialSwitchFailure));
}

#[test]
fn empty_channel_name_is_malformed() {
    assert_eq!(validate_channel(&s("")), Err(FeedError::MalformedInput));
    assert_eq!(validate_channel(&s("room1")), Ok(()));
}

#[test]
fn connect_joins_default_and_disconnect_leaves() {
    let mut reg = Registry::new();
    assert_eq!(default_channel_name(), "default");
    connect(&mut reg, &s("c1"));
    assert_eq!(reg.query(&s("default")), vec![s("c1")]);
    assert_eq!(reg.channel_of(&s("c1")), Some(s("default")));
    assert_eq!(disconnect(&mut reg, &s("c1")), Some(s("default")));
    assert!(reg.query(&s("default")).is_empty());
    assert_eq!(disconnect(&mut reg, &s("c1")), None);
    assert_eq!(reg.channel_of(&s("c1")), None);
}

#[test]
fn disconnect_after_switch_leaves_new_channel() {
    let mut reg = Registry::new();
    connect(&mut reg, &s("c1"));
    switch_channel(&mut reg, &s("c1"), &s("default"), &s("room9")).unwrap();
    assert_eq!(disconnect(&mut reg, &s("c1")), Some(s("room9")));
    assert!(reg.query(&s("room9")).is_empty());
}
