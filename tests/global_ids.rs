use webex::{
    cluster_from_bytes, decode_cluster, geo_uri_of, path_segment, Activity, Event, EventData,
    GlobalId, GlobalIdType, IdError, Target, DEFAULT_CLUSTER,
};

const UUID: &str = "5a00fb3c-1c8b-11ee-9d3a-5f2e0e1f6a11";
const KINDS: [GlobalIdType; 4] = [
    GlobalIdType::Message,
    GlobalIdType::Person,
    GlobalIdType::Room,
    GlobalIdType::AttachmentAction,
];

fn decoded_text(encoded: &str) -> String {
    String::from_utf8(base64::decode(encoded).unwrap()).unwrap()
}

fn event_with(event_type: &str, target_global_id: Option<&str>) -> Event {
    let target = target_global_id.map(|g| Target { global_id: g.to_string(), ..Default::default() });
    Event {
        id: UUID.to_string(),
        data: EventData {
            event_type: event_type.to_string(),
            activity: Some(Activity { target, ..Default::default() }),
            ..Default::default()
        },
        ..Default::default()
    }
}

#[test]
fn uuid_without_cluster_lands_in_default_cluster() {
    for k in KINDS {
        let g = GlobalId::new(k, UUID.to_string()).unwrap();
        assert_eq!(g.id_type(), k);
        assert_eq!(decode_cluster(g.id()), Some("us".to_string()));
    }
    assert_eq!(DEFAULT_CLUSTER, "us");
}

#[test]
fn encoded_message_id_exact_value() {
    let g = GlobalId::new(GlobalIdType::Message, UUID.to_string()).unwrap();
    assert_eq!(
        g.id(),
        "Y2lzY29zcGFyazovL3VzL01FU1NBR0UvNWEwMGZiM2MtMWM4Yi0xMWVlLTlkM2EtNWYyZTBlMWY2YTEx"
    );
}

#[test]
fn given_cluster_is_the_cluster_segment() {
    for c in ["eu", "us", "abc", "zz"] {
        for k in KINDS {
            let g = GlobalId::new_with_cluster(k, UUID.to_string(), Some(c)).unwrap();
            assert_eq!(g.id_type(), k);
            assert_eq!(decode_cluster(g.id()), Some(c.to_string()));
            let text = decoded_text(g.id());
            assert_eq!(text, format!("ciscospark://{}/{}/{}", c, k.as_str(), UUID));
        }
    }
}

#[test]
fn room_id_in_eu_exact_value() {
    let g = GlobalId::new_with_cluster(GlobalIdType::Room, UUID.to_string(), Some("eu")).unwrap();
    assert_eq!(
        g.id(),
        "Y2lzY29zcGFyazovL2V1L1JPT00vNWEwMGZiM2MtMWM4Yi0xMWVlLTlkM2EtNWYyZTBlMWY2YTEx"
    );
}

#[test]
fn unknown_kind_is_rejected() {
    for id in [UUID, "", "Y2lzY29zcGFyazovL2V1L01FU1NBR0UvYWJj"] {
        for c in [None, Some("eu")] {
            let r = GlobalId::new_with_cluster(GlobalIdType::Unknown, id.to_string(), c);
            assert_eq!(r.unwrap_err(), IdError::InvalidResourceKind);
        }
    }
    assert_eq!(
        GlobalId::new(GlobalIdType::Unknown, UUID.to_string()).unwrap_err(),
        IdError::InvalidResourceKind
    );
}

#[test]
fn expect_type_matches_recorded_kind() {
    let g = GlobalId::new(GlobalIdType::Room, UUID.to_string()).unwrap();
    assert_eq!(g.expect_type(GlobalIdType::Room), Ok(()));
    assert_eq!(
        g.expect_type(GlobalIdType::Message),
        Err(IdError::IdentifierKindMismatch(GlobalIdType::Message, GlobalIdType::Room))
    );
    assert_eq!(
        g.expect_type(GlobalIdType::Unknown),
        Err(IdError::IdentifierKindMismatch(GlobalIdType::Unknown, GlobalIdType::Room))
    );
}

#[test]
fn already_encoded_id_is_kept() {
    let encoded = "Y2lzY29zcGFyazovL2V1L01FU1NBR0UvYWJj";
    for c in [None, Some("eu"), Some("us")] {
        let g = GlobalId::new_with_cluster(GlobalIdType::Message, encoded.to_string(), c).unwrap();
        assert_eq!(g.id(), encoded);
        assert_eq!(g.id_type(), GlobalIdType::Message);
    }
    let g = GlobalId::new(GlobalIdType::Person, "not-a-uuid".to_string()).unwrap();
    assert_eq!(g.id(), "not-a-uuid");
}

#[test]
fn only_hyphenated_uuids_are_encoded() {
    let upper = "5A00FB3C-1C8B-11EE-9D3A-5F2E0E1F6A11";
    let g = GlobalId::new(GlobalIdType::Message, upper.to_string()).unwrap();
    assert_eq!(decoded_text(g.id()), format!("ciscospark://us/MESSAGE/{}", upper));
    // other forms the uuid parser reads, a hyphen out of place, a non-hex digit
    for id in [
        "5a00fb3c1c8b11ee9d3a5f2e0e1f6a11",
        "{5A00FB3C-1C8B-11EE-9D3A-5F2E0E1F6A11}",
        "URN:uuid:5a00fb3c-1c8b-11ee-9d3a-5f2e0e1f6a11",
        "5a00fb3c1-c8b-11ee-9d3a-5f2e0e1f6a11",
        "5a00fb3c-1c8b-11ee-9d3a-5f2e0e1f6a1g",
    ] {
        for c in [None, Some("eu")] {
            let g = GlobalId::new_with_cluster(GlobalIdType::Message, id.to_string(), c).unwrap();
            assert_eq!(g.id(), id);
        }
    }
}

#[test]
fn event_with_non_hyphenated_id_keeps_it() {
    let mut e = event_with("conversation.activity", Some("Y2lzY29zcGFyazovL2V1L01FU1NBR0UvYWJj"));
    e.id = "{5A00FB3C-1C8B-11EE-9D3A-5F2E0E1F6A11}".to_string();
    let g = e.get_global_id().unwrap();
    assert_eq!(g.id(), e.id);
    assert_eq!(g.id_type(), GlobalIdType::Message);
}

#[test]
fn event_id_segments_read_back() {
    let e = event_with("conversation.activity", Some("Y2lzY29zcGFyazovL2V1L01FU1NBR0UvYWJj"));
    let g = e.get_global_id().unwrap();
    let text = decoded_text(g.id());
    assert_eq!(path_segment(&text, 2), Some("eu".to_string()));
    assert_eq!(path_segment(&text, 3), Some("MESSAGE".to_string()));
    assert_eq!(path_segment(&text, 4), Some(UUID.to_string()));
}

#[test]
fn target_cluster_soft_failures() {
    for g in ["", "not base64!!", "Y2lzY29zcGFyazo=", "YS//L2I="] {
        let t = Target { global_id: g.to_string(), ..Default::default() };
        assert_eq!(t.get_cluster(), None);
    }
}

#[test]
fn cloned_id_keeps_kind_and_text() {
    let g = GlobalId::new(GlobalIdType::AttachmentAction, UUID.to_string()).unwrap();
    let h = g.clone();
    assert_eq!(h.id(), g.id());
    assert_eq!(h.id_type(), GlobalIdType::AttachmentAction);
}

#[test]
fn kind_tags() {
    assert_eq!(GlobalIdType::Message.as_str(), "MESSAGE");
    assert_eq!(GlobalIdType::Person.as_str(), "PEOPLE");
    assert_eq!(GlobalIdType::Room.as_str(), "ROOM");
    assert_eq!(GlobalIdType::AttachmentAction.as_str(), "ATTACHMENT_ACTION");
    assert_eq!(GlobalIdType::Unknown.as_str(), "<UNKNOWN>");
}

#[test]
fn geo_uri_layout() {
    assert_eq!(
        geo_uri_of("eu", GlobalIdType::Person, "abc"),
        "ciscospark://eu/PEOPLE/abc"
    );
    assert_eq!(geo_uri_of("", GlobalIdType::Room, ""), "ciscospark:///ROOM/");
}

#[test]
fn decode_cluster_soft_failures() {
    assert_eq!(decode_cluster(""), None);
    assert_eq!(decode_cluster("not base64!!"), None);
    // "ciscospark:" has a single segment
    assert_eq!(decode_cluster("Y2lzY29zcGFyazo="), None);
    // bytes 61 2f ff 2f 62: three segments, but not UTF-8
    assert_eq!(decode_cluster("YS//L2I="), None);
}

#[test]
fn decode_cluster_reads_third_segment() {
    assert_eq!(
        decode_cluster("Y2lzY29zcGFyazovL2V1L01FU1NBR0UvYWJj"),
        Some("eu".to_string())
    );
    let two_slashes = base64::encode("a/b/");
    assert_eq!(decode_cluster(&two_slashes), Some(String::new()));
}

#[test]
fn cluster_from_decoded_bytes() {
    assert_eq!(cluster_from_bytes(b"ciscospark://ap/ROOM/x".to_vec()), Some("ap".to_string()));
    assert_eq!(cluster_from_bytes(b"a/b".to_vec()), None);
    assert_eq!(cluster_from_bytes(vec![0x61, 0x2f, 0x2f, 0xc3]), None);
    assert_eq!(cluster_from_bytes(Vec::new()), None);
}

#[test]
fn path_segments() {
    assert_eq!(path_segment("a/b/c", 0), Some("a".to_string()));
    assert_eq!(path_segment("a/b/c", 2), Some("c".to_string()));
    assert_eq!(path_segment("a/b/c", 3), None);
    assert_eq!(path_segment("", 0), Some(String::new()));
    assert_eq!(path_segment("ü/é/ß/x", 2), Some("ß".to_string()));
}

#[test]
fn target_cluster() {
    let t = Target { global_id: "Y2lzY29zcGFyazovL2V1L01FU1NBR0UvYWJj".to_string(), ..Default::default() };
    assert_eq!(t.get_cluster(), Some("eu".to_string()));
    let t = Target::default();
    assert_eq!(t.get_cluster(), None);
}

#[test]
fn activity_type_by_event_tag() {
    assert_eq!(event_with("conversation.activity", None).activity_type(), GlobalIdType::Message);
    assert_eq!(event_with("unknown.tag", None).activity_type(), GlobalIdType::Unknown);
    assert_eq!(event_with("", None).activity_type(), GlobalIdType::Unknown);
}

#[test]
fn event_id_takes_cluster_from_target() {
    let e = event_with("conversation.activity", Some("Y2lzY29zcGFyazovL2V1L01FU1NBR0UvYWJj"));
    let g = e.get_global_id().unwrap();
    assert_eq!(g.id_type(), GlobalIdType::Message);
    let text = decoded_text(g.id());
    assert_eq!(text, format!("ciscospark://eu/MESSAGE/{}", UUID));
    assert_eq!(decode_cluster(g.id()), Some("eu".to_string()));
}

#[test]
fn event_id_without_target_uses_default_cluster() {
    let e = event_with("conversation.activity", None);
    let g = e.get_global_id().unwrap();
    assert_eq!(decoded_text(g.id()), format!("ciscospark://us/MESSAGE/{}", UUID));
    let mut e = e;
    e.data.activity = None;
    let g = e.get_global_id().unwrap();
    assert_eq!(decode_cluster(g.id()), Some("us".to_string()));
}

#[test]
fn event_id_with_unreadable_target_uses_default_cluster() {
    let e = event_with("conversation.activity", Some("%%%"));
    let g = e.get_global_id().unwrap();
    assert_eq!(decode_cluster(g.id()), Some("us".to_string()));
}

#[test]
fn event_of_unknown_type_has_no_id() {
    let e = event_with("unknown.tag", Some("Y2lzY29zcGFyazovL2V1L01FU1NBR0UvYWJj"));
    assert_eq!(e.get_global_id().unwrap_err(), IdError::InvalidResourceKind);
}
