use foxglove_bridge::bridge::{plan_bridge, plan_bridge_best_effort, create_foxglove_url, ChannelPlan};
use foxglove_bridge::config::{Configuration, JsonSubscription, ProtobufSubscription};
use foxglove_bridge::errors::BridgeError;
use foxglove_bridge::schema::{
    json_schema_for_name, resolve_json, resolve_protobuf, SchemaDescriptor, SchemaPayload,
};

/// A descriptor pool holding exactly one message type, `test.Thing`, built
/// from a hand-encoded file descriptor set.
fn test_pool() -> prost_reflect::DescriptorPool {
    // FileDescriptorSet { file: [ FileDescriptorProto {
    //     name: "test.proto", package: "test",
    //     message_type: [ DescriptorProto { name: "Thing" } ] } ] }
    let descriptor_proto: Vec<u8> = {
        let mut b = vec![0x0A, 0x05];
        b.extend_from_slice(b"Thing");
        b
    };
    let file_proto: Vec<u8> = {
        let mut b = vec![0x0A, 0x0A];
        b.extend_from_slice(b"test.proto");
        b.extend_from_slice(&[0x12, 0x04]);
        b.extend_from_slice(b"test");
        b.push(0x22);
        b.push(descriptor_proto.len() as u8);
        b.extend_from_slice(&descriptor_proto);
        b
    };
    let mut set: Vec<u8> = vec![0x0A, file_proto.len() as u8];
    set.extend_from_slice(&file_proto);
    prost_reflect::DescriptorPool::decode(set.as_slice()).expect("valid descriptor set")
}

#[test]
fn proto_resolution_succeeds_for_known_name() {
    let pool = test_pool();
    let name = String::from("test.Thing");
    let d: SchemaDescriptor = resolve_protobuf(&pool, &name).expect("known type resolves");
    assert_eq!(d.encoding_name, "protobuf");
    assert_eq!(d.schema_name, "test.Thing");
    assert_eq!(d.schema_encoding_hint, "protobuf");
    match d.schema {
        SchemaPayload::Binary(bytes) => {
            assert_eq!(bytes, pool.encode_to_vec());
            // The shipped schema is the whole pool: decoding it back resolves
            // the message type again.
            let round = prost_reflect::DescriptorPool::decode(bytes.as_slice())
                .expect("schema bytes decode back to a pool");
            assert!(round.get_message_by_name("test.Thing").is_some());
        }
        SchemaPayload::Text(_) => panic!("protobuf schema must be binary"),
    }
}

#[test]
fn proto_resolution_fails_for_unknown_name() {
    let pool = test_pool();
    let name = String::from("test.Missing");
    match resolve_protobuf(&pool, &name) {
        Err(BridgeError::SchemaNotFound { proto_type }) => {
            assert_eq!(proto_type, "test.Missing");
        }
        other => panic!("expected SchemaNotFound, got {:?}", other.map(|_| ())),
    }
}

#[test]
fn json_schema_table_has_all_known_names() {
    let names = [
        "GENERIC_JSON_SCHEMA",
        "IKEA_DIMMER_JSON_SCHEMA",
        "MOTION_SENSOR_JSON_SCHEMA",
        "CONTACT_SENSOR_JSON_SCHEMA",
        "CLIMATE_SENSOR_JSON_SCHEMA",
        "VOICE_PROBABILITY_JSON_SCHEMA",
    ];
    for name in names {
        let text = json_schema_for_name(&String::from(name))
            .unwrap_or_else(|| panic!("{} should be known", name));
        assert!(text.contains("\"type\": \"object\""), "{} is an object schema", name);
    }
}

#[test]
fn json_schema_table_exact_voice_probability_text() {
    let text = json_schema_for_name(&String::from("VOICE_PROBABILITY_JSON_SCHEMA")).unwrap();
    assert!(text.contains("\"probability\": {"));
    assert!(text.contains("\"timestamp\": {"));
    assert!(text.contains("\"required\""));
}

#[test]
fn json_schema_table_rejects_unknown_name() {
    assert!(json_schema_for_name(&String::from("NO_SUCH_SCHEMA")).is_none());
}

#[test]
fn json_resolution_falls_back_to_generic_schema() {
    let d = resolve_json(&String::from("my.Type"), &None).expect("no name always resolves");
    assert_eq!(d.encoding_name, "json");
    assert_eq!(d.schema_name, "my.Type");
    assert_eq!(d.schema_encoding_hint, "jsonschema");
    match d.schema {
        SchemaPayload::Text(text) => {
            assert!(text.contains("GenericJsonSchema"));
            assert!(text.contains("\"properties\": {}"));
        }
        SchemaPayload::Binary(_) => panic!("json schema must be text"),
    }
}

#[test]
fn json_resolution_uses_named_schema() {
    let d = resolve_json(
        &String::from("sensor.Motion"),
        &Some(String::from("MOTION_SENSOR_JSON_SCHEMA")),
    )
    .expect("known schema name resolves");
    match d.schema {
        SchemaPayload::Text(text) => assert!(text.contains("\"occupancy\"")),
        SchemaPayload::Binary(_) => panic!("json schema must be text"),
    }
}

#[test]
fn json_resolution_fails_for_unknown_schema_name() {
    match resolve_json(&String::from("t"), &Some(String::from("BOGUS_SCHEMA"))) {
        Err(BridgeError::UnknownJsonSchema { schema_name }) => {
            assert_eq!(schema_name, "BOGUS_SCHEMA");
        }
        other => panic!("expected UnknownJsonSchema, got {:?}", other.map(|_| ())),
    }
}

fn proto_sub(topic: &str, proto_type: &str) -> ProtobufSubscription {
    ProtobufSubscription { topic: String::from(topic), proto_type: String::from(proto_type) }
}

fn json_sub(
    topic: &str,
    message_type: &str,
    schema: Option<&str>,
    latched: Option<bool>,
) -> JsonSubscription {
    JsonSubscription {
        topic: String::from(topic),
        message_type: String::from(message_type),
        json_schema_name: schema.map(String::from),
        latched,
    }
}

#[test]
fn plan_orders_proto_channels_before_json_channels() {
    let pool = test_pool();
    let config = Configuration {
        protobuf_subscriptions: vec![proto_sub("robot/pose", "test.Thing")],
        json_subscriptions: vec![
            json_sub("home/dimmer", "Dimmer", Some("IKEA_DIMMER_JSON_SCHEMA"), None),
            json_sub("home/motion", "Motion", None, Some(true)),
        ],
    };
    let plans: Vec<ChannelPlan> = plan_bridge(&pool, &config).expect("everything resolves");
    assert_eq!(plans.len(), 3);
    assert_eq!(plans[0].topic, "robot/pose");
    assert_eq!(plans[0].descriptor.encoding_name, "protobuf");
    assert!(!plans[0].latched);
    assert_eq!(plans[1].topic, "home/dimmer");
    assert_eq!(plans[1].descriptor.encoding_name, "json");
    assert_eq!(plans[1].descriptor.schema_name, "Dimmer");
    assert!(!plans[1].latched);
    assert_eq!(plans[2].topic, "home/motion");
    assert_eq!(plans[2].descriptor.encoding_name, "json");
}

#[test]
fn latched_flag_passes_through_and_defaults_to_false() {
    let pool = test_pool();
    let config = Configuration {
        protobuf_subscriptions: vec![],
        json_subscriptions: vec![
            json_sub("a", "A", None, Some(true)),
            json_sub("b", "B", None, Some(false)),
            json_sub("c", "C", None, None),
        ],
    };
    let plans = plan_bridge(&pool, &config).unwrap();
    assert!(plans[0].latched);
    assert!(!plans[1].latched);
    assert!(!plans[2].latched);
}

#[test]
fn fatal_startup_isolation_plans_nothing_on_any_unresolvable_topic() {
    let pool = test_pool();
    let config = Configuration {
        protobuf_subscriptions: vec![
            proto_sub("a", "test.Thing"),
            proto_sub("b", "Missing.Msg"),
        ],
        json_subscriptions: vec![json_sub("c", "C", None, None)],
    };
    match plan_bridge(&pool, &config) {
        Err(BridgeError::SchemaNotFound { proto_type }) => {
            assert_eq!(proto_type, "Missing.Msg");
        }
        Ok(_) => panic!("planning must abort: no channel for topic a either"),
        Err(other) => panic!("unexpected error {:?}", other),
    }
}

#[test]
fn first_failure_wins_in_configuration_order() {
    let pool = test_pool();
    let config = Configuration {
        protobuf_subscriptions: vec![proto_sub("a", "test.Thing")],
        json_subscriptions: vec![
            json_sub("b", "B", Some("NOT_A_SCHEMA"), None),
            json_sub("c", "C", Some("ALSO_NOT_A_SCHEMA"), None),
        ],
    };
    match plan_bridge(&pool, &config) {
        Err(BridgeError::UnknownJsonSchema { schema_name }) => {
            assert_eq!(schema_name, "NOT_A_SCHEMA");
        }
        other => panic!("expected UnknownJsonSchema, got {:?}", other.map(|_| ()).err()),
    }
}

#[test]
fn empty_configuration_plans_no_channels() {
    let pool = test_pool();
    let config = Configuration { protobuf_subscriptions: vec![], json_subscriptions: vec![] };
    let plans = plan_bridge(&pool, &config).expect("nothing to resolve");
    assert!(plans.is_empty());
}

#[test]
fn best_effort_planning_keeps_resolvable_topics_and_reports_the_rest() {
    let pool = test_pool();
    let config = Configuration {
        protobuf_subscriptions: vec![
            proto_sub("a", "test.Thing"),
            proto_sub("b", "Missing.Msg"),
        ],
        json_subscriptions: vec![
            json_sub("c", "C", Some("NOT_A_SCHEMA"), None),
            json_sub("d", "D", None, Some(true)),
        ],
    };
    let outcomes = plan_bridge_best_effort(&pool, &config);
    assert_eq!(outcomes.len(), 4);
    let plan_a = outcomes[0].as_ref().expect("topic a resolves");
    assert_eq!(plan_a.topic, "a");
    match &outcomes[1] {
        Err(BridgeError::SchemaNotFound { proto_type }) => assert_eq!(proto_type, "Missing.Msg"),
        _ => panic!("topic b must fail with SchemaNotFound"),
    }
    match &outcomes[2] {
        Err(BridgeError::UnknownJsonSchema { schema_name }) => assert_eq!(schema_name, "NOT_A_SCHEMA"),
        _ => panic!("topic c must fail with UnknownJsonSchema"),
    }
    let plan_d = outcomes[3].as_ref().expect("topic d resolves");
    assert_eq!(plan_d.topic, "d");
    assert!(plan_d.latched);
}

#[test]
fn foxglove_url_is_the_fixed_viewer_link() {
    let url = create_foxglove_url();
    assert!(url.starts_with("https://app.foxglove.dev/"));
    assert!(url.contains("ds=foxglove-websocket"));
    assert!(url.contains("ds.url=ws://127.0.0.1:8765/"));
}
