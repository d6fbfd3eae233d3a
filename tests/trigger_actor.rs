use triggers_frontend::actor::{ActorAction, ActorEvent, ActorPhase, TriggerActor, TriggerCommand, TriggerStatus};
use triggers_frontend::config::{AMQPSubscriberInfo, ConfigError, FlagField, TriggerInfoFields};
use triggers_frontend::forward::{build_workflow_posts, send_amqp_data};
use triggers_frontend::workflow::{add_workflows, find_element_index, remove_workflows, WorkflowInfo};

fn wf(name: &str, url: &str) -> WorkflowInfo {
    WorkflowInfo::new(name.to_string(), url.to_string(), String::new())
}

fn fields(addr: Option<&str>, key: Option<&str>) -> TriggerInfoFields {
    TriggerInfoFields {
        amqp_addr: addr.map(|s| s.to_string()),
        routing_key: key.map(|s| s.to_string()),
        exchange: None,
        durable: FlagField::Absent,
        exclusive: FlagField::Absent,
        auto_delete: FlagField::Absent,
        no_wait: FlagField::Absent,
        with_ack: FlagField::Value(false),
    }
}

fn test_info() -> AMQPSubscriberInfo {
    AMQPSubscriberInfo::from_fields(fields(Some("broker://test"), Some("rk1"))).unwrap()
}

fn ready_actor(workflows: Vec<WorkflowInfo>) -> TriggerActor {
    let mut actor = TriggerActor::new("t1".to_string(), "trig".to_string(), test_info(), workflows);
    let acts = actor.handle_event(ActorEvent::SetupSucceeded);
    assert_eq!(acts.len(), 1);
    assert!(matches!(&acts[0], ActorAction::ReportStatus(TriggerStatus::Ready, m) if m.is_empty()));
    actor
}

fn delivery(key: &str, data: &[u8]) -> ActorEvent {
    ActorEvent::Delivery { routing_key: key.to_string(), data: data.to_vec() }
}

fn names(list: &Vec<WorkflowInfo>) -> Vec<String> {
    list.iter().map(|w| w.workflow_name.clone()).collect()
}

#[test]
fn defaults_fill_optional_fields() {
    let info = test_info();
    assert_eq!(info.amqp_addr, "broker://test");
    assert_eq!(info.routing_key, "rk1");
    assert_eq!(info.exchange, "egress_exchange");
    assert!(!info.durable);
    assert!(!info.exclusive);
    assert!(info.auto_delete);
    assert!(info.no_wait);
    assert!(!info.with_ack);
    assert!(info.no_ack());
}

#[test]
fn explicit_fields_override_defaults() {
    let mut f = fields(Some("amqp://h"), Some("k"));
    f.exchange = Some("ex".to_string());
    f.durable = FlagField::Value(true);
    f.auto_delete = FlagField::Value(false);
    f.with_ack = FlagField::Value(true);
    let info = AMQPSubscriberInfo::from_fields(f).unwrap();
    assert_eq!(info.exchange, "ex");
    assert!(info.durable);
    assert!(!info.auto_delete);
    assert!(info.with_ack);
    assert!(!info.no_ack());
}

#[test]
fn missing_required_field_is_rejected() {
    let e = AMQPSubscriberInfo::from_fields(fields(None, Some("k"))).unwrap_err();
    assert_eq!(e, ConfigError::MissingRequired);
    assert_eq!(e.message(), "One of the required fields, 'amqp_addr' or 'routing_key' is missing");
    let e = AMQPSubscriberInfo::from_fields(fields(Some("a"), None)).unwrap_err();
    assert_eq!(e, ConfigError::MissingRequired);
}

#[test]
fn malformed_flags_are_rejected() {
    let cases: Vec<(fn(&mut TriggerInfoFields), ConfigError)> = vec![
        (|f| f.durable = FlagField::Malformed, ConfigError::MalformedDurable),
        (|f| f.exclusive = FlagField::Malformed, ConfigError::MalformedExclusive),
        (|f| f.auto_delete = FlagField::Malformed, ConfigError::MalformedAutoDelete),
        (|f| f.no_wait = FlagField::Malformed, ConfigError::MalformedNoWait),
        (|f| f.with_ack = FlagField::Malformed, ConfigError::MalformedWithAck),
    ];
    for (set, want) in cases {
        let mut f = fields(Some("a"), Some("k"));
        set(&mut f);
        assert_eq!(AMQPSubscriberInfo::from_fields(f).unwrap_err(), want);
    }
    assert_eq!(ConfigError::MalformedNoWait.message(), "The field 'no_wait' must be a boolean");
}

#[test]
fn find_element_index_finds_first_match() {
    let list = vec![wf("a", "u1"), wf("b", "u2"), wf("a", "u1")];
    assert_eq!(find_element_index(&wf("a", "u1"), &list), Some(0));
    assert_eq!(find_element_index(&wf("b", "u2"), &list), Some(1));
    assert_eq!(find_element_index(&wf("b", "u9"), &list), None);
}

#[test]
fn add_replaces_existing_and_appends_in_order() {
    let mut list = vec![wf("a", "u1"), wf("b", "u2"), wf("c", "u3")];
    add_workflows(&mut list, &vec![wf("b", "u2"), wf("d", "u4")]);
    assert_eq!(names(&list), vec!["a", "c", "b", "d"]);
}

#[test]
fn remove_drops_first_match_and_ignores_absent() {
    let mut list = vec![wf("a", "u1"), wf("b", "u2"), wf("a", "u1")];
    remove_workflows(&mut list, &vec![wf("a", "u1"), wf("z", "u9")]);
    assert_eq!(names(&list), vec!["b", "a"]);
}

#[test]
fn adding_same_workflow_twice_keeps_one_copy() {
    let mut actor = ready_actor(vec![]);
    for _ in 0..2 {
        let acts = actor.handle_event(ActorEvent::Command(TriggerCommand::AddWorkflows(vec![wf("wf1", "http://localhost/x")])));
        assert!(matches!(acts.as_slice(), [ActorAction::RespondOk]));
    }
    assert_eq!(names(actor.workflows()), vec!["wf1"]);
}

#[test]
fn remove_command_updates_registry() {
    let mut actor = ready_actor(vec![wf("a", "u1"), wf("b", "u2")]);
    let acts = actor.handle_event(ActorEvent::Command(TriggerCommand::RemoveWorkflows(vec![wf("a", "u1")])));
    assert!(matches!(acts.as_slice(), [ActorAction::RespondOk]));
    assert_eq!(names(actor.workflows()), vec!["b"]);
}

#[test]
fn single_delivery_is_forwarded_and_counted() {
    let mut actor = ready_actor(vec![wf("wf1", "http://localhost/x")]);
    let acts = actor.handle_event(delivery("rk1", b"hello"));
    assert_eq!(acts.len(), 1);
    match &acts[0] {
        ActorAction::Post(p) => {
            assert_eq!(p.workflow_url, "http://localhost/x");
            assert_eq!(p.message.trigger_type, "amqp");
            assert_eq!(p.message.trigger_status, "ready");
            assert_eq!(p.message.trigger_name, "trig");
            assert_eq!(p.message.workflow_name, "wf1");
            assert_eq!(p.message.source, "rk1");
            assert_eq!(p.message.data, "hello");
        }
        _ => panic!("expected a post"),
    }
    let acts = actor.handle_event(ActorEvent::Command(TriggerCommand::GetStatus));
    match &acts[..] {
        [ActorAction::RespondStatus(s)] => {
            assert_eq!(s.trigger_count, 1);
            assert_eq!(s.trigger_id, "t1");
            assert_eq!(s.trigger_status, "ready");
            assert_eq!(s.trigger_type, "amqp");
            assert_eq!(names(&s.associated_workflows), vec!["wf1"]);
        }
        _ => panic!("expected a status answer"),
    }
}

#[test]
fn two_workflows_get_posts_in_registration_order() {
    let mut actor = ready_actor(vec![wf("first", "http://a"), wf("second", "http://b")]);
    let acts = actor.handle_event(delivery("rk", b"m"));
    let urls: Vec<String> = acts
        .iter()
        .map(|a| match a {
            ActorAction::Post(p) => p.workflow_url.clone(),
            _ => panic!("expected only posts"),
        })
        .collect();
    assert_eq!(urls, vec!["http://a", "http://b"]);
}

#[test]
fn invalid_utf8_is_counted_and_dropped() {
    let mut actor = ready_actor(vec![wf("wf1", "http://x")]);
    let acts = actor.handle_event(delivery("rk", &[0xff, 0xfe]));
    assert!(matches!(acts.as_slice(), [ActorAction::DiscardPayload]));
    assert_eq!(actor.phase(), ActorPhase::Ready);
    assert_eq!(actor.trigger_count(), 1);
    let acts = actor.handle_event(delivery("rk", b"ok"));
    assert!(matches!(acts.as_slice(), [ActorAction::Post(p)] if p.message.data == "ok"));
    assert_eq!(actor.trigger_count(), 2);
}

#[test]
fn deliveries_without_workflows_are_counted() {
    let mut actor = ready_actor(vec![]);
    for _ in 0..3 {
        assert!(actor.handle_event(delivery("rk", b"x")).is_empty());
    }
    assert_eq!(actor.trigger_count(), 3);
}

#[test]
fn stop_reports_once_and_then_ignores_events() {
    let mut actor = ready_actor(vec![wf("wf1", "http://x")]);
    let acts = actor.handle_event(ActorEvent::Command(TriggerCommand::Stop));
    assert!(matches!(
        acts.as_slice(),
        [ActorAction::RespondOk, ActorAction::CloseConnection, ActorAction::ReportStatus(TriggerStatus::StoppedNormal, m)] if m.is_empty()
    ));
    assert!(actor.is_stopped());
    assert!(actor.handle_event(ActorEvent::Command(TriggerCommand::GetStatus)).is_empty());
    assert!(actor.handle_event(delivery("rk", b"x")).is_empty());
    assert!(actor.handle_event(ActorEvent::CommandChannelClosed).is_empty());
    assert_eq!(actor.trigger_count(), 0);
}

#[test]
fn setup_failure_reports_error_and_never_ready() {
    let mut actor = TriggerActor::new("t1".to_string(), "trig".to_string(), test_info(), vec![]);
    let acts = actor.handle_event(ActorEvent::SetupFailed("connection refused".to_string()));
    assert!(matches!(
        acts.as_slice(),
        [ActorAction::ReportStatus(TriggerStatus::StoppedError, m)] if m == "Error: connection refused"
    ));
    assert_eq!(actor.phase(), ActorPhase::StoppedError);
    assert!(actor.handle_event(ActorEvent::SetupSucceeded).is_empty());
}

#[test]
fn events_before_setup_are_ignored() {
    let mut actor = TriggerActor::new("t1".to_string(), "trig".to_string(), test_info(), vec![]);
    assert!(actor.handle_event(delivery("rk", b"x")).is_empty());
    assert_eq!(actor.trigger_count(), 0);
    assert_eq!(actor.phase(), ActorPhase::Starting);
}

#[test]
fn protocol_errors_stop_with_error_reports() {
    let mut actor = ready_actor(vec![]);
    let acts = actor.handle_event(ActorEvent::CommandChannelClosed);
    assert!(matches!(
        acts.as_slice(),
        [ActorAction::ReportStatus(TriggerStatus::StoppedError, m)] if m == "Error: Trigger id t1, None recv on command channel"
    ));

    let mut actor = ready_actor(vec![]);
    let acts = actor.handle_event(ActorEvent::DeliveryFailed("bad frame".to_string()));
    assert!(matches!(
        acts.as_slice(),
        [ActorAction::ReportStatus(TriggerStatus::StoppedError, m)]
            if m == "Error: Trigger id t1, recv a msg on amqp channel, but unwrapping produced an error: bad frame"
    ));

    let mut actor = ready_actor(vec![]);
    let acts = actor.handle_event(ActorEvent::DeliveryStreamEnded);
    assert!(matches!(
        acts.as_slice(),
        [ActorAction::ReportStatus(TriggerStatus::StoppedError, m)]
            if m == "Error: Trigger id t1, None recv on amqp channel. Probably closed"
    ));
    assert_eq!(actor.phase(), ActorPhase::StoppedError);
}

#[test]
fn payload_decoding_builds_one_post_per_workflow() {
    let list = vec![wf("a", "http://a"), wf("b", "http://b")];
    let posts = send_amqp_data(&list, "héllo".as_bytes().to_vec(), &"n".to_string(), &"src".to_string()).unwrap();
    assert_eq!(posts.len(), 2);
    assert_eq!(posts[0].message.data, "héllo");
    assert_eq!(posts[1].message.workflow_name, "b");
    assert!(send_amqp_data(&list, vec![0xc3], &"n".to_string(), &"src".to_string()).is_none());
    let empty = send_amqp_data(&list, vec![], &"n".to_string(), &"src".to_string()).unwrap();
    assert_eq!(empty[0].message.data, "");
    let direct = build_workflow_posts(&list, &"n".to_string(), &"src".to_string(), &"t".to_string());
    assert_eq!(direct[1].workflow_url, "http://b");
    assert_eq!(direct[1].message.source, "src");
}
