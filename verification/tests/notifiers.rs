use k8s_notifier::notifier::log::{LogNotification, LogNotifier};
use k8s_notifier::notifier::slack::{
    get_notification_color, render_timestamp, same_text, SlackNotification, SlackNotifier,
};
use k8s_notifier::notifier::{
    failed_emissions, retain_at_least, run_step, EmitError, Loggable, Notifier, NotifierLogLevel,
    NotifierType, Received, Step,
};
use k8s_notifier::resource::ext::event::{Event, ObjectReference, Timestamp};
use k8s_notifier::resource::ext::node::{Node, NodeAddress, NodeCondition, NodeSpec, NodeStatus};
use k8s_notifier::resource::ext::pod::{Pod, PodStatus};
use k8s_notifier::resource::ext::ObjectMeta;
use k8s_notifier::resource::PackedResource;

const LEVELS: [NotifierLogLevel; 3] =
    [NotifierLogLevel::Info, NotifierLogLevel::Warn, NotifierLogLevel::Error];

fn meta(name: &str) -> ObjectMeta {
    ObjectMeta { name: Some(name.to_string()), generate_name: None, namespace: None, labels: vec![] }
}

fn slack(level: NotifierLogLevel) -> SlackNotifier {
    SlackNotifier::new("token".to_string(), "C123".to_string(), level, "prod".to_string())
}

fn node(unschedulable: Option<bool>) -> Node {
    Node { metadata: meta("node-1"), spec: Some(NodeSpec { unschedulable }), status: None }
}

fn pod(phase: Option<&str>) -> Pod {
    Pod {
        metadata: meta("web-1"),
        status: Some(PodStatus { phase: phase.map(|p| p.to_string()), pod_ip: None }),
    }
}

fn event(typ: Option<&str>) -> Event {
    Event {
        type_: typ.map(|t| t.to_string()),
        reason: None,
        message: None,
        first_timestamp: None,
        last_timestamp: None,
        involved_object: ObjectReference { kind: None, name: None },
        count: None,
    }
}

fn line(level: NotifierLogLevel, message: &str) -> LogNotification {
    LogNotification { level, message: message.to_string() }
}

fn messages(notifications: &[LogNotification]) -> Vec<String> {
    notifications.iter().map(|n| n.message.clone()).collect()
}

#[test]
fn levels_are_ordered_info_warn_error() {
    assert_eq!(NotifierLogLevel::Info.severity(), 0);
    assert_eq!(NotifierLogLevel::Warn.severity(), 1);
    assert_eq!(NotifierLogLevel::Error.severity(), 2);
    assert!(NotifierLogLevel::Info < NotifierLogLevel::Warn);
    assert!(NotifierLogLevel::Warn < NotifierLogLevel::Error);
}

#[test]
fn a_level_meets_a_threshold_iff_it_is_not_below_it() {
    for level in LEVELS {
        for threshold in LEVELS {
            assert_eq!(level.meets(threshold), level >= threshold);
        }
    }
    assert!(NotifierLogLevel::Warn.meets(NotifierLogLevel::Warn));
    assert!(!NotifierLogLevel::Warn.meets(NotifierLogLevel::Error));
}

#[test]
fn levels_and_kinds_render_lower_case() {
    assert_eq!(NotifierLogLevel::Info.to_string(), "info");
    assert_eq!(NotifierLogLevel::Warn.to_string(), "warn");
    assert_eq!(NotifierLogLevel::Error.to_string(), "error");
    assert_eq!(NotifierType::Log.to_string(), "log");
    assert_eq!(NotifierType::Slack.to_string(), "slack");
}

#[test]
fn only_notifications_at_or_above_the_threshold_are_kept() {
    let all = vec![
        line(NotifierLogLevel::Warn, "w1"),
        line(NotifierLogLevel::Info, "i1"),
        line(NotifierLogLevel::Error, "e1"),
        line(NotifierLogLevel::Info, "i2"),
        line(NotifierLogLevel::Warn, "w2"),
    ];
    let kept = retain_at_least(all.clone(), NotifierLogLevel::Warn);
    assert_eq!(messages(&kept), vec!["w1", "e1", "w2"]);
    let kept = retain_at_least(all.clone(), NotifierLogLevel::Error);
    assert_eq!(messages(&kept), vec!["e1"]);
    let kept = retain_at_least(all, NotifierLogLevel::Info);
    assert_eq!(messages(&kept), vec!["w1", "i1", "e1", "i2", "w2"]);
}

#[test]
fn a_notification_exactly_at_the_threshold_is_kept() {
    for threshold in LEVELS {
        for level in LEVELS {
            let kept = retain_at_least(vec![line(level, "m")], threshold);
            assert_eq!(kept.len() == 1, level >= threshold);
        }
    }
    assert!(retain_at_least(Vec::<LogNotification>::new(), NotifierLogLevel::Info).is_empty());
}

#[test]
fn log_notifier_says_which_kind_was_seen() {
    let notifier = LogNotifier::new(NotifierLogLevel::Warn);
    assert_eq!(Notifier::log_level(&notifier), NotifierLogLevel::Warn);
    let cases = vec![
        (PackedResource::Node(node(None)), "Node seen"),
        (PackedResource::Pod(pod(None)), "Pod seen"),
        (PackedResource::Event(event(None)), "Event seen"),
    ];
    for (resource, expected) in cases {
        let derived = notifier.create_notifications(&resource);
        assert_eq!(derived.len(), 1);
        assert_eq!(derived[0].message, expected);
        assert_eq!(derived[0].log_level(), NotifierLogLevel::Info);
    }
}

#[test]
fn colors_are_keyed_by_severity() {
    assert_eq!(get_notification_color(NotifierLogLevel::Info), "#3498DB");
    assert_eq!(get_notification_color(NotifierLogLevel::Warn), "#FFC107");
    assert_eq!(get_notification_color(NotifierLogLevel::Error), "#FF0000");
}

#[test]
fn same_text_compares_whole_texts() {
    assert!(same_text("Running", "Running"));
    assert!(!same_text("Running", "running"));
    assert!(!same_text("Run", "Running"));
    assert!(same_text("", ""));
}

#[test]
fn unschedulable_node_yields_one_error() {
    let derived = slack(NotifierLogLevel::Info).create_notifications(&PackedResource::Node(node(Some(true))));
    assert_eq!(derived.len(), 1);
    assert_eq!(derived[0].level, NotifierLogLevel::Error);
    assert_eq!(derived[0].inner.color, "#FF0000");
    assert_eq!(derived[0].inner.channel, "C123");
    assert_eq!(derived[0].inner.title, "Node `node-1` is *unschedulable* in cluster `prod`");
}

#[test]
fn schedulable_node_yields_one_info() {
    for mark in [None, Some(false)] {
        let derived = slack(NotifierLogLevel::Info).create_notifications(&PackedResource::Node(node(mark)));
        assert_eq!(derived.len(), 1);
        assert_eq!(derived[0].level, NotifierLogLevel::Info);
        assert_eq!(derived[0].inner.color, "#3498DB");
        assert_eq!(derived[0].inner.title, "Node `node-1` is *healthy* in cluster `prod`");
    }
    let bare = Node { metadata: meta("node-2"), spec: None, status: None };
    let derived = slack(NotifierLogLevel::Info).create_notifications(&PackedResource::Node(bare));
    assert_eq!(derived.len(), 1);
    assert_eq!(derived[0].level, NotifierLogLevel::Info);
}

#[test]
fn node_without_details_shows_placeholders() {
    let n = slack(NotifierLogLevel::Info).node_notification(&node(None));
    assert_eq!(n.inner.primary_fields, vec!["*Conditions*\n<None>", "*Addresses*\n<None>"]);
    assert_eq!(n.inner.secondary_fields, vec!["*Labels*\n<None>"]);
}

#[test]
fn node_details_are_listed_by_key() {
    let mut metadata = meta("node-1");
    metadata.labels = vec![
        ("arch".to_string(), "amd64".to_string()),
        ("zone".to_string(), "eu-1".to_string()),
    ];
    let full = Node {
        metadata,
        spec: None,
        status: Some(NodeStatus {
            conditions: Some(vec![
                NodeCondition { type_: "Ready".to_string(), status: "True".to_string() },
                NodeCondition { type_: "MemoryPressure".to_string(), status: "False".to_string() },
            ]),
            addresses: Some(vec![
                NodeAddress { type_: "InternalIP".to_string(), address: "10.0.0.1".to_string() },
                NodeAddress { type_: "Hostname".to_string(), address: "n1".to_string() },
                NodeAddress { type_: "InternalIP".to_string(), address: "10.0.0.2".to_string() },
            ]),
        }),
    };
    let n = slack(NotifierLogLevel::Info).node_notification(&full);
    assert_eq!(
        n.inner.primary_fields,
        vec![
            "*Conditions*\n• `MemoryPressure` : `False`\n• `Ready` : `True`",
            "*Addresses*\n• `Hostname` : `n1`\n• `InternalIP` : `10.0.0.2`",
        ]
    );
    assert_eq!(n.inner.secondary_fields, vec!["*Labels*\n• `arch` : `amd64`\n• `zone` : `eu-1`"]);
}

#[test]
fn pod_without_phase_yields_nothing() {
    let notifier = slack(NotifierLogLevel::Info);
    assert!(notifier.create_notifications(&PackedResource::Pod(pod(None))).is_empty());
    let bare = Pod { metadata: meta("p"), status: None };
    assert!(notifier.create_notifications(&PackedResource::Pod(bare)).is_empty());
}

#[test]
fn running_pod_yields_one_info() {
    let derived = slack(NotifierLogLevel::Info).create_notifications(&PackedResource::Pod(pod(Some("Running"))));
    assert_eq!(derived.len(), 1);
    assert_eq!(derived[0].level, NotifierLogLevel::Info);
    assert_eq!(derived[0].inner.color, "#3498DB");
    assert_eq!(derived[0].inner.title, "Pod `web-1` is in phase *Running* in cluster `prod`");
    assert_eq!(
        derived[0].inner.primary_fields,
        vec!["*Namespace*\n`<Unknown>`", "*IP Address*\n`<None>`"]
    );
    assert_eq!(derived[0].inner.secondary_fields, vec!["*Labels*\n<None>"]);
}

#[test]
fn pod_severity_follows_the_phase() {
    let notifier = slack(NotifierLogLevel::Info);
    let cases = [
        ("Running", NotifierLogLevel::Info),
        ("Succeeded", NotifierLogLevel::Info),
        ("Pending", NotifierLogLevel::Warn),
        ("Failed", NotifierLogLevel::Error),
        ("Unknown", NotifierLogLevel::Error),
        ("", NotifierLogLevel::Error),
    ];
    for (phase, level) in cases {
        let derived = notifier.pod_notifications(&pod(Some(phase)));
        assert_eq!(derived.len(), 1);
        assert_eq!(derived[0].level, level);
        assert_eq!(derived[0].inner.color, get_notification_color(level));
    }
}

#[test]
fn pod_details_are_shown() {
    let mut metadata = meta("web-1");
    metadata.namespace = Some("shop".to_string());
    metadata.labels = vec![("app".to_string(), "web".to_string())];
    let p = Pod {
        metadata,
        status: Some(PodStatus {
            phase: Some("Pending".to_string()),
            pod_ip: Some("10.1.2.3".to_string()),
        }),
    };
    let derived = slack(NotifierLogLevel::Info).pod_notifications(&p);
    assert_eq!(derived.len(), 1);
    assert_eq!(derived[0].inner.color, "#FFC107");
    assert_eq!(
        derived[0].inner.primary_fields,
        vec!["*Namespace*\n`shop`", "*IP Address*\n`10.1.2.3`"]
    );
    assert_eq!(derived[0].inner.secondary_fields, vec!["*Labels*\n• `app` : `web`"]);
}

#[test]
fn event_without_type_yields_nothing() {
    let notifier = slack(NotifierLogLevel::Info);
    assert!(notifier.create_notifications(&PackedResource::Event(event(None))).is_empty());
}

#[test]
fn event_severity_follows_the_type() {
    let notifier = slack(NotifierLogLevel::Info);
    for (typ, level) in [
        ("Normal", NotifierLogLevel::Info),
        ("Warning", NotifierLogLevel::Warn),
        ("normal", NotifierLogLevel::Warn),
        ("Anything", NotifierLogLevel::Warn),
    ] {
        let derived = notifier.create_notifications(&PackedResource::Event(event(Some(typ))));
        assert_eq!(derived.len(), 1);
        assert_eq!(derived[0].level, level);
        assert_eq!(derived[0].inner.color, get_notification_color(level));
    }
}

#[test]
fn event_without_details_shows_placeholders() {
    let derived = slack(NotifierLogLevel::Info).create_notifications(&PackedResource::Event(event(Some("Normal"))));
    assert_eq!(derived.len(), 1);
    assert_eq!(
        derived[0].inner.title,
        "*0* events seen from the <Unknown Resource> `<Unknown Name>`"
    );
    assert_eq!(
        derived[0].inner.primary_fields,
        vec!["*First Seen*\n`<Unknown>`", "*Last Seen*\n`<Unknown>`"]
    );
    assert_eq!(derived[0].inner.secondary_fields, vec!["*Reason*\n\"\"", "*Message*\n\"\""]);
}

#[test]
fn event_details_are_shown() {
    let e = Event {
        type_: Some("Warning".to_string()),
        reason: Some("BackOff".to_string()),
        message: Some("Back-off restarting failed container".to_string()),
        first_timestamp: Some(Timestamp { secs: 1431648000, nanos: 0 }),
        last_timestamp: Some(Timestamp { secs: 1431648061, nanos: 0 }),
        involved_object: ObjectReference {
            kind: Some("Pod".to_string()),
            name: Some("web-1".to_string()),
        },
        count: Some(12),
    };
    let derived = slack(NotifierLogLevel::Info).create_notifications(&PackedResource::Event(e));
    assert_eq!(derived.len(), 1);
    assert_eq!(derived[0].level, NotifierLogLevel::Warn);
    assert_eq!(derived[0].inner.title, "*12* events seen from the Pod `web-1`");
    assert_eq!(
        derived[0].inner.primary_fields,
        vec![
            "*First Seen*\n`2015-05-15 00:00:00 UTC`",
            "*Last Seen*\n`2015-05-15 00:01:01 UTC`",
        ]
    );
    assert_eq!(
        derived[0].inner.secondary_fields,
        vec!["*Reason*\nBackOff", "*Message*\nBack-off restarting failed container"]
    );
}

#[test]
fn event_times_are_taken_as_rendered() {
    let derived = slack(NotifierLogLevel::Info).event_notifications(
        &event(Some("Normal")),
        Some("then".to_string()),
        None,
    );
    assert_eq!(derived.len(), 1);
    assert_eq!(
        derived[0].inner.primary_fields,
        vec!["*First Seen*\n`then`", "*Last Seen*\n`<Unknown>`"]
    );
}

#[test]
fn timestamps_render_as_utc_date_and_time() {
    assert_eq!(render_timestamp(None), None);
    assert_eq!(
        render_timestamp(Some(Timestamp { secs: 0, nanos: 0 })),
        Some("1970-01-01 00:00:00 UTC".to_string())
    );
    assert_eq!(
        render_timestamp(Some(Timestamp { secs: 1431648000, nanos: 0 })),
        Some("2015-05-15 00:00:00 UTC".to_string())
    );
    assert_eq!(
        render_timestamp(Some(Timestamp { secs: 1, nanos: 500_000_000 })),
        Some("1970-01-01 00:00:01.500 UTC".to_string())
    );
}

#[test]
fn timestamps_out_of_range_render_as_absent() {
    assert_eq!(render_timestamp(Some(Timestamp { secs: i64::MAX, nanos: 0 })), None);
    assert_eq!(render_timestamp(Some(Timestamp { secs: 0, nanos: 2_000_000_000 })), None);
}

#[test]
fn a_snapshot_step_emits_what_passes_the_threshold() {
    let resource = Received::Resource(PackedResource::Node(node(Some(true))));
    for threshold in LEVELS {
        match run_step(&slack(threshold), &resource) {
            Step::Emit(kept) => {
                assert_eq!(kept.len(), 1);
                assert_eq!(kept[0].level, NotifierLogLevel::Error);
            }
            _ => panic!("a snapshot is emitted"),
        }
    }
    let resource = Received::Resource(PackedResource::Pod(pod(Some("Pending"))));
    for threshold in LEVELS {
        match run_step(&slack(threshold), &resource) {
            Step::Emit(kept) => assert_eq!(kept.len() == 1, NotifierLogLevel::Warn >= threshold),
            _ => panic!("a snapshot is emitted"),
        }
    }
}

#[test]
fn log_notifier_emits_only_at_info_threshold() {
    let resource = Received::Resource(PackedResource::Pod(pod(None)));
    for threshold in LEVELS {
        match run_step(&LogNotifier::new(threshold), &resource) {
            Step::Emit(kept) => assert_eq!(kept.len() == 1, threshold == NotifierLogLevel::Info),
            _ => panic!("a snapshot is emitted"),
        }
    }
}

#[test]
fn a_lag_signal_derives_nothing() {
    match run_step(&slack(NotifierLogLevel::Info), &Received::Lagged(7)) {
        Step::ReportLag(missed) => assert_eq!(missed, 7),
        _ => panic!("a lag signal is reported"),
    }
}

#[test]
fn the_end_of_the_stream_stops_the_notifier() {
    assert!(matches!(run_step(&slack(NotifierLogLevel::Info), &Received::Closed), Step::Stop));
    assert!(matches!(run_step(&LogNotifier::new(NotifierLogLevel::Info), &Received::Closed), Step::Stop));
}

#[test]
fn one_failed_emission_of_three_leaves_the_others_delivered() {
    let outcomes = vec![Ok(()), Err(EmitError { reason: "connection reset".to_string() }), Ok(())];
    assert_eq!(failed_emissions(&outcomes), vec![1]);
    let next = run_step(
        &slack(NotifierLogLevel::Info),
        &Received::Resource(PackedResource::Node(node(None))),
    );
    assert!(matches!(next, Step::Emit(_)));
}

#[test]
fn failed_emissions_are_listed_in_dispatch_order() {
    let fail = |reason: &str| Err(EmitError { reason: reason.to_string() });
    assert_eq!(failed_emissions(&vec![]), Vec::<usize>::new());
    assert_eq!(failed_emissions(&vec![Ok(()), Ok(())]), Vec::<usize>::new());
    assert_eq!(failed_emissions(&vec![fail("a"), Ok(()), fail("b"), fail("c")]), vec![0, 2, 3]);
}

#[test]
fn a_stalled_consumer_gets_one_lag_signal_then_the_retained_items() {
    let (tx, mut rx) = tokio::sync::broadcast::channel::<PackedResource>(2);
    for i in 0..5 {
        tx.send(PackedResource::Pod(Pod { metadata: meta(&format!("p{}", i)), status: None }))
            .expect("one consumer is subscribed");
    }
    let notifier = LogNotifier::new(NotifierLogLevel::Info);
    let mut reported = vec![];
    let mut seen = vec![];
    loop {
        let item = match rx.try_recv() {
            Ok(resource) => Received::Resource(resource),
            Err(tokio::sync::broadcast::error::TryRecvError::Lagged(missed)) => Received::Lagged(missed),
            Err(_) => break,
        };
        let name = match &item {
            Received::Resource(PackedResource::Pod(p)) => p.metadata.name.clone(),
            _ => None,
        };
        match run_step(&notifier, &item) {
            Step::Emit(kept) => {
                assert_eq!(kept.len(), 1);
                seen.push(name.expect("a pod was published"));
            }
            Step::ReportLag(missed) => reported.push(missed),
            Step::Stop => panic!("the channel is open"),
        }
    }
    assert_eq!(reported, vec![3]);
    assert_eq!(seen, vec!["p3", "p4"]);
    tx.send(PackedResource::Pod(Pod { metadata: meta("p5"), status: None }))
        .expect("one consumer is subscribed");
    match rx.try_recv() {
        Ok(PackedResource::Pod(p)) => assert_eq!(p.metadata.name, Some("p5".to_string())),
        _ => panic!("the next item is received"),
    }
}

#[test]
fn merged_sources_keep_their_own_order() {
    let named = |name: &str| PackedResource::Pod(Pod { metadata: meta(name), status: None });
    let a = futures::stream::iter(vec![named("A1"), named("A2")]);
    let b = futures::stream::iter(vec![named("B1")]);
    let merged = futures::stream::select_all(vec![a, b]);
    let items: Vec<PackedResource> =
        futures::executor::block_on(futures::StreamExt::collect::<Vec<PackedResource>>(merged));
    let names: Vec<String> = items
        .iter()
        .map(|item| match item {
            PackedResource::Pod(p) => p.metadata.name.clone().expect("named"),
            _ => panic!("only pods were merged"),
        })
        .collect();
    assert_eq!(names.len(), 3);
    let at = |name: &str| names.iter().position(|n| n == name).expect("present");
    assert!(at("A1") < at("A2"));
    assert!(names.contains(&"B1".to_string()));
}

#[test]
fn slack_notification_carries_its_level() {
    let n: SlackNotification = slack(NotifierLogLevel::Info).node_notification(&node(Some(true)));
    assert_eq!(n.log_level(), NotifierLogLevel::Error);
    assert_eq!(Notifier::log_level(&slack(NotifierLogLevel::Warn)), NotifierLogLevel::Warn);
}

#[test]
fn a_response_counts_as_delivered_whatever_its_status() {
    for status in [200, 204, 404, 429, 500] {
        assert!(SlackNotifier::post_outcome(Ok(status)).is_ok());
    }
}

#[test]
fn a_request_that_did_not_complete_is_a_failed_emission() {
    match SlackNotifier::post_outcome(Err("connection refused".to_string())) {
        Err(e) => assert_eq!(e.reason, "connection refused"),
        Ok(()) => panic!("the request did not complete"),
    }
}
