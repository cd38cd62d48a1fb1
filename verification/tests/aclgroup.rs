use dsh::aclgroup::{
    acl_group_value, already_granted_message, check_stream_options, get_kafka_acl_group_topic_options, get_streams,
    grant_acl_group, revoke_acl_group, revoke_message, stream_description, AclGroupLabel, KafkaAclGroup,
    KafkaAclGroupTopic, KafkaAclGroupTopicKind,
};
use dsh::value::Value;

fn topic(kind: KafkaAclGroupTopicKind, name: &str) -> KafkaAclGroupTopic {
    KafkaAclGroupTopic::new(kind, name)
}

fn strings(v: &[&str]) -> Vec<String> {
    v.iter().map(|s| s.to_string()).collect()
}

#[test]
fn topic_options_are_grouped_by_kind() {
    let (readable, writable) = get_kafka_acl_group_topic_options(
        &strings(&["int-a"]),
        &strings(&["pub-b", "pub-c"]),
        &strings(&[]),
        &strings(&[]),
        &strings(&[]),
        &strings(&["top-d"]),
    );
    assert_eq!(
        readable,
        vec![
            topic(KafkaAclGroupTopicKind::Internal, "int-a"),
            topic(KafkaAclGroupTopicKind::Public, "pub-b"),
            topic(KafkaAclGroupTopicKind::Public, "pub-c"),
        ]
    );
    assert_eq!(writable, vec![topic(KafkaAclGroupTopicKind::Topic, "top-d")]);
}

#[test]
fn streams_are_merged_and_sorted_by_name() {
    let readable = vec![topic(KafkaAclGroupTopicKind::Topic, "t2"), topic(KafkaAclGroupTopicKind::Internal, "t1")];
    let writable = vec![topic(KafkaAclGroupTopicKind::Topic, "t2"), topic(KafkaAclGroupTopicKind::Public, "t3")];
    let streams = get_streams(&readable, &writable);
    let listed: Vec<(String, KafkaAclGroupTopicKind, bool, bool)> =
        streams.iter().map(|s| (s.name.clone(), s.kind, s.readable, s.writable)).collect();
    assert_eq!(
        listed,
        vec![
            ("t1".to_string(), KafkaAclGroupTopicKind::Internal, true, false),
            ("t2".to_string(), KafkaAclGroupTopicKind::Topic, true, true),
            ("t3".to_string(), KafkaAclGroupTopicKind::Public, false, true),
        ]
    );
}

#[test]
fn same_name_different_kind_gives_two_streams() {
    let readable = vec![topic(KafkaAclGroupTopicKind::Topic, "s"), topic(KafkaAclGroupTopicKind::Public, "s")];
    let streams = get_streams(&readable, &vec![]);
    assert_eq!(streams.len(), 2);
    assert!(streams.iter().all(|s| s.name == "s" && s.readable && !s.writable));
}

#[test]
fn no_streams_for_empty_group() {
    assert!(get_streams(&vec![], &vec![]).is_empty());
}

#[test]
fn grant_adds_only_new_streams() {
    let mut group = KafkaAclGroup { readable_streams: vec![topic(KafkaAclGroupTopicKind::Topic, "a")], writable_streams: vec![] };
    let changes = grant_acl_group(
        &mut group,
        &vec![topic(KafkaAclGroupTopicKind::Topic, "a"), topic(KafkaAclGroupTopicKind::Topic, "b"), topic(KafkaAclGroupTopicKind::Topic, "b")],
        &vec![],
    );
    assert_eq!(group.readable_streams, vec![topic(KafkaAclGroupTopicKind::Topic, "a"), topic(KafkaAclGroupTopicKind::Topic, "b")]);
    assert_eq!(changes.readable, vec![false, true, false]);
    assert!(changes.writable.is_empty());
    assert!(changes.update);
}

#[test]
fn grant_of_granted_streams_changes_nothing() {
    let mut group = KafkaAclGroup {
        readable_streams: vec![topic(KafkaAclGroupTopicKind::Topic, "a")],
        writable_streams: vec![topic(KafkaAclGroupTopicKind::Internal, "w")],
    };
    let changes = grant_acl_group(&mut group, &vec![topic(KafkaAclGroupTopicKind::Topic, "a")], &vec![topic(KafkaAclGroupTopicKind::Internal, "w")]);
    assert!(!changes.update);
    assert_eq!(group.readable_streams.len(), 1);
    assert_eq!(group.writable_streams.len(), 1);
}

#[test]
fn revoke_removes_every_occurrence() {
    let mut group = KafkaAclGroup {
        readable_streams: vec![
            topic(KafkaAclGroupTopicKind::Topic, "a"),
            topic(KafkaAclGroupTopicKind::Topic, "b"),
            topic(KafkaAclGroupTopicKind::Topic, "a"),
        ],
        writable_streams: vec![topic(KafkaAclGroupTopicKind::Public, "w")],
    };
    let changes = revoke_acl_group(
        &mut group,
        &vec![topic(KafkaAclGroupTopicKind::Topic, "a"), topic(KafkaAclGroupTopicKind::Topic, "c")],
        &vec![topic(KafkaAclGroupTopicKind::Topic, "w")],
    );
    assert_eq!(group.readable_streams, vec![topic(KafkaAclGroupTopicKind::Topic, "b")]);
    assert_eq!(group.writable_streams, vec![topic(KafkaAclGroupTopicKind::Public, "w")]);
    assert_eq!(changes.readable, vec![true, false]);
    assert_eq!(changes.writable, vec![false]);
    assert!(changes.update);
}

#[test]
fn revoke_undoes_grant() {
    let mut group = KafkaAclGroup { readable_streams: vec![topic(KafkaAclGroupTopicKind::Topic, "x")], writable_streams: vec![] };
    let options = vec![topic(KafkaAclGroupTopicKind::Topic, "y"), topic(KafkaAclGroupTopicKind::Internal, "z")];
    grant_acl_group(&mut group, &options, &vec![]);
    assert_eq!(group.readable_streams.len(), 3);
    revoke_acl_group(&mut group, &options, &vec![]);
    assert_eq!(group.readable_streams, vec![topic(KafkaAclGroupTopicKind::Topic, "x")]);
}

#[test]
fn stream_options_are_required() {
    assert_eq!(check_stream_options(&vec![], &vec![]), Err("no readable or writable stream options are provided".to_string()));
    assert_eq!(check_stream_options(&vec![topic(KafkaAclGroupTopicKind::Topic, "a")], &vec![]), Ok(()));
    assert_eq!(check_stream_options(&vec![], &vec![topic(KafkaAclGroupTopicKind::Topic, "a")]), Ok(()));
}

#[test]
fn acl_group_messages() {
    let t = topic(KafkaAclGroupTopicKind::Internal, "events");
    assert_eq!(stream_description(&t), "internal stream 'events'");
    assert_eq!(already_granted_message(&t, true), "internal stream 'events' is already readable");
    assert_eq!(already_granted_message(&t, false), "internal stream 'events' is already writable");
    assert_eq!(revoke_message(&t, true, true), "revoke read access from internal stream 'events'");
    assert_eq!(revoke_message(&t, false, true), "revoke write access from internal stream 'events'");
    assert_eq!(revoke_message(&t, true, false), "read access is not granted to internal stream 'events'");
    assert_eq!(revoke_message(&t, false, false), "write access is not granted to internal stream 'events'");
}

#[test]
fn acl_group_values() {
    let streams = get_streams(&vec![topic(KafkaAclGroupTopicKind::Public, "p")], &vec![]);
    let s = &streams[0];
    assert_eq!(acl_group_value(Some(s), AclGroupLabel::Kind, "g"), Value::Plain("public".to_string()));
    assert_eq!(acl_group_value(Some(s), AclGroupLabel::StreamName, "g"), Value::Target("p".to_string()));
    assert_eq!(acl_group_value(Some(s), AclGroupLabel::Readable, "g"), Value::Plain("true".to_string()));
    assert_eq!(acl_group_value(Some(s), AclGroupLabel::Writable, "g"), Value::Plain("false".to_string()));
    assert_eq!(acl_group_value(Some(s), AclGroupLabel::AclGroupName, "g"), Value::Target("g".to_string()));
    assert_eq!(acl_group_value(None, AclGroupLabel::StreamName, "g"), Value::Warning("none".to_string()));
    assert_eq!(acl_group_value(None, AclGroupLabel::Kind, "g"), Value::Empty);
    assert_eq!(AclGroupLabel::AclGroupName.as_str(), "acl group");
    assert!(AclGroupLabel::AclGroupName.is_target_label());
    assert!(!AclGroupLabel::Kind.is_target_label());
}
