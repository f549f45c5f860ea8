//! Schema resolver: maps each configured topic's declared type to a canonical
//! schema descriptor — a binary-encoded structural schema for protobuf topics,
//! or a named JSON text schema (with a generic fallback) for JSON topics.

use vstd::prelude::*;
use crate::errors::BridgeError;

verus! {

#[verifier::external_type_specification]
#[verifier::external_body]
pub struct ExDescriptorPool(prost_reflect::DescriptorPool);

/// The set of type names under which the pool's message descriptors can be
/// looked up; a function of the pool's contents alone.
pub uninterp spec fn pool_message_names(pool: prost_reflect::DescriptorPool) -> Set<Seq<char>>;

/// The serialized form of the whole descriptor pool; a function of the pool's
/// contents alone.
pub uninterp spec fn pool_encoded(pool: prost_reflect::DescriptorPool) -> Seq<u8>;

/// Relies on prost_reflect's `DescriptorPool::get_message_by_name`: it finds a
/// message descriptor exactly when the pool's name table holds the fully
/// qualified name, a read-only lookup determined by the pool's contents.
#[verifier::external_body]
fn pool_contains_message(pool: &prost_reflect::DescriptorPool, name: &str) -> (r: bool)
    ensures
        r == pool_message_names(*pool).contains(name@),
{
    pool.get_message_by_name(name).is_some()
}

/// Relies on prost_reflect's `DescriptorPool::encode_to_vec`: it serializes
/// the pool's files deterministically, as a file descriptor set.
#[verifier::external_body]
fn encode_pool(pool: &prost_reflect::DescriptorPool) -> (r: Vec<u8>)
    ensures
        r@ == pool_encoded(*pool),
{
    pool.encode_to_vec()
}

/// The schema payload shipped to visualization clients: serialized descriptors
/// for protobuf topics, JSON schema text for JSON topics.
pub enum SchemaPayload {
    Binary(Vec<u8>),
    Text(String),
}

/// The canonical schema descriptor of one topic, produced once at startup and
/// never mutated: the channel's encoding name, the advertised type name, the
/// schema payload, and the hint naming the schema payload's own encoding.
pub struct SchemaDescriptor {
    pub encoding_name: String,
    pub schema_name: String,
    pub schema: SchemaPayload,
    pub schema_encoding_hint: String,
}

/// Resolves a protobuf topic's type name against the preloaded, read-only
/// descriptor pool. Resolution succeeds exactly when the pool knows the name;
/// the descriptor then advertises the input name itself, with the serialized
/// form of the entire pool as schema, so that clients can resolve nested and
/// imported types. An unknown name is a fatal startup error for the topic.
pub fn resolve_protobuf(pool: &prost_reflect::DescriptorPool, proto_type: &String) -> (r: Result<
    SchemaDescriptor,
    BridgeError,
>)
    ensures
        r is Ok <==> pool_message_names(*pool).contains(proto_type@),
        r matches Ok(d) ==> d.encoding_name@ == "protobuf"@ && d.schema_name@ == proto_type@
            && (d.schema matches SchemaPayload::Binary(b) && b@ == pool_encoded(*pool))
            && d.schema_encoding_hint@ == "protobuf"@,
        r matches Err(e) ==> (e matches BridgeError::SchemaNotFound { proto_type: n } && n@
            == proto_type@),
{
    if pool_contains_message(pool, proto_type.as_str()) {
        Ok(SchemaDescriptor {
            encoding_name: "protobuf".to_owned(),
            schema_name: proto_type.clone(),
            schema: SchemaPayload::Binary(encode_pool(pool)),
            schema_encoding_hint: "protobuf".to_owned(),
        })
    } else {
        Err(BridgeError::SchemaNotFound { proto_type: proto_type.clone() })
    }
}

/// The generic permissive JSON schema, the fallback for JSON topics that name
/// no schema.
pub open spec fn generic_json_schema_text() -> Seq<char> {
    r#"
{
"title": "GenericJsonSchema",
"description": "Generic JSON Schema",
"type": "object",
"properties": {}
}
"#@
}

pub open spec fn ikea_dimmer_json_schema_text() -> Seq<char> {
    r#"
{
    "$schema": "http://json-schema.org/draft-04/schema#",
    "type": "object",
    "properties": {
      "action": {
        "type": "string"
      },
      "battery": {
        "type": "integer"
      },
      "brightness": {
        "type": "integer"
      },
      "linkquality": {
        "type": "integer"
      }
    },
    "required": [
      "action",
      "battery",
      "brightness",
      "linkquality"
    ]
}
"#@
}

pub open spec fn motion_sensor_json_schema_text() -> Seq<char> {
    r#"
{
    "$schema": "http://json-schema.org/draft-04/schema#",
    "type": "object",
    "properties": {
      "battery": {
        "type": "integer"
      },
      "battery_low": {
        "type": "boolean"
      },
      "linkquality": {
        "type": "integer"
      },
      "occupancy": {
        "type": "boolean"
      },
      "tamper": {
        "type": "boolean"
      },
      "voltage": {
        "type": "integer"
      }
    },
    "required": [
      "battery",
      "battery_low",
      "linkquality",
      "occupancy",
      "tamper",
      "voltage"
    ]
  }
"#@
}

pub open spec fn contact_sensor_json_schema_text() -> Seq<char> {
    r#"
{
"$schema": "http://json-schema.org/draft-04/schema#",
"type": "object",
"properties": {
    "battery": {
    "type": "integer"
    },
    "battery_low": {
    "type": "boolean"
    },
    "contact": {
    "type": "boolean"
    },
    "linkquality": {
    "type": "integer"
    },
    "tamper": {
    "type": "boolean"
    },
    "voltage": {
    "type": "integer"
    }
},
"required": [
    "battery",
    "battery_low",
    "contact",
    "linkquality",
    "tamper",
    "voltage"
]
}
"#@
}

pub open spec fn climate_sensor_json_schema_text() -> Seq<char> {
    r#"
{
"$schema": "http://json-schema.org/draft-04/schema#",
"type": "object",
"properties": {
    "battery": {
    "type": "integer"
    },
    "humidity": {
    "type": "number"
    },
    "linkquality": {
    "type": "integer"
    },
    "temperature": {
    "type": "number"
    },
    "voltage": {
    "type": "integer"
    }
},
"required": [
    "battery",
    "humidity",
    "linkquality",
    "temperature",
    "voltage"
]
}
"#@
}

pub open spec fn voice_probability_json_schema_text() -> Seq<char> {
    r#"
{
    "$schema": "http://json-schema.org/draft-04/schema#",
    "type": "object",
    "properties": {
      "probability": {
        "type": "number"
      },
      "timestamp": {
        "type": "string"
      }
    },
    "required": [
      "probability",
      "timestamp"
    ]
  }
"#@
}

/// The static, read-only table of known JSON schemas, keyed by name.
pub open spec fn json_schema_lookup(name: Seq<char>) -> Option<Seq<char>> {
    if name == "GENERIC_JSON_SCHEMA"@ {
        Some(generic_json_schema_text())
    } else if name == "IKEA_DIMMER_JSON_SCHEMA"@ {
        Some(ikea_dimmer_json_schema_text())
    } else if name == "MOTION_SENSOR_JSON_SCHEMA"@ {
        Some(motion_sensor_json_schema_text())
    } else if name == "CONTACT_SENSOR_JSON_SCHEMA"@ {
        Some(contact_sensor_json_schema_text())
    } else if name == "CLIMATE_SENSOR_JSON_SCHEMA"@ {
        Some(climate_sensor_json_schema_text())
    } else if name == "VOICE_PROBABILITY_JSON_SCHEMA"@ {
        Some(voice_probability_json_schema_text())
    } else {
        None
    }
}

/// Looks a JSON schema up by name in the static table, per
/// [`json_schema_lookup`].
pub fn json_schema_for_name(name: &String) -> (r: Option<String>)
    ensures
        r matches Some(s) ==> json_schema_lookup(name@) == Some(s@),
        r is None <==> json_schema_lookup(name@) is None,
{
    if *name == "GENERIC_JSON_SCHEMA".to_owned() {
        Some(
            r#"
{
"title": "GenericJsonSchema",
"description": "Generic JSON Schema",
"type": "object",
"properties": {}
}
"#.to_owned(),
        )
    } else if *name == "IKEA_DIMMER_JSON_SCHEMA".to_owned() {
        Some(
            r#"
{
    "$schema": "http://json-schema.org/draft-04/schema#",
    "type": "object",
    "properties": {
      "action": {
        "type": "string"
      },
      "battery": {
        "type": "integer"
      },
      "brightness": {
        "type": "integer"
      },
      "linkquality": {
        "type": "integer"
      }
    },
    "required": [
      "action",
      "battery",
      "brightness",
      "linkquality"
    ]
}
"#.to_owned(),
        )
    } else if *name == "MOTION_SENSOR_JSON_SCHEMA".to_owned() {
        Some(
            r#"
{
    "$schema": "http://json-schema.org/draft-04/schema#",
    "type": "object",
    "properties": {
      "battery": {
        "type": "integer"
      },
      "battery_low": {
        "type": "boolean"
      },
      "linkquality": {
        "type": "integer"
      },
      "occupancy": {
        "type": "boolean"
      },
      "tamper": {
        "type": "boolean"
      },
      "voltage": {
        "type": "integer"
      }
    },
    "required": [
      "battery",
      "battery_low",
      "linkquality",
      "occupancy",
      "tamper",
      "voltage"
    ]
  }
"#.to_owned(),
        )
    } else if *name == "CONTACT_SENSOR_JSON_SCHEMA".to_owned() {
        Some(
            r#"
{
"$schema": "http://json-schema.org/draft-04/schema#",
"type": "object",
"properties": {
    "battery": {
    "type": "integer"
    },
    "battery_low": {
    "type": "boolean"
    },
    "contact": {
    "type": "boolean"
    },
    "linkquality": {
    "type": "integer"
    },
    "tamper": {
    "type": "boolean"
    },
    "voltage": {
    "type": "integer"
    }
},
"required": [
    "battery",
    "battery_low",
    "contact",
    "linkquality",
    "tamper",
    "voltage"
]
}
"#.to_owned(),
        )
    } else if *name == "CLIMATE_SENSOR_JSON_SCHEMA".to_owned() {
        Some(
            r#"
{
"$schema": "http://json-schema.org/draft-04/schema#",
"type": "object",
"properties": {
    "battery": {
    "type": "integer"
    },
    "humidity": {
    "type": "number"
    },
    "linkquality": {
    "type": "integer"
    },
    "temperature": {
    "type": "number"
    },
    "voltage": {
    "type": "integer"
    }
},
"required": [
    "battery",
    "humidity",
    "linkquality",
    "temperature",
    "voltage"
]
}
"#.to_owned(),
        )
    } else if *name == "VOICE_PROBABILITY_JSON_SCHEMA".to_owned() {
        Some(
            r#"
{
    "$schema": "http://json-schema.org/draft-04/schema#",
    "type": "object",
    "properties": {
      "probability": {
        "type": "number"
      },
      "timestamp": {
        "type": "string"
      }
    },
    "required": [
      "probability",
      "timestamp"
    ]
  }
"#.to_owned(),
        )
    } else {
        None
    }
}

/// The schema text a JSON subscription resolves to: the named table entry, or
/// the generic fallback when no name is given.
pub open spec fn spec_json_schema_choice(schema_name: Option<String>) -> Option<Seq<char>> {
    match schema_name {
        None => Some(generic_json_schema_text()),
        Some(n) => json_schema_lookup(n@),
    }
}

/// Resolves a JSON topic's schema: the named schema from the static table, or
/// the generic permissive schema when no name is given. An unknown name is a
/// fatal startup error for the topic. The descriptor advertises the
/// subscription's own type name.
pub fn resolve_json(message_type: &String, schema_name: &Option<String>) -> (r: Result<
    SchemaDescriptor,
    BridgeError,
>)
    ensures
        r is Ok <==> spec_json_schema_choice(*schema_name) is Some,
        r matches Ok(d) ==> d.encoding_name@ == "json"@ && d.schema_name@ == message_type@
            && (d.schema matches SchemaPayload::Text(s) && Some(s@) == spec_json_schema_choice(
            *schema_name,
        )) && d.schema_encoding_hint@ == "jsonschema"@,
        r matches Err(e) ==> (schema_name matches Some(n) && (e
            matches BridgeError::UnknownJsonSchema { schema_name: m } && m@ == n@)),
{
    let schema_text: String = match schema_name {
        None => {
            r#"
{
"title": "GenericJsonSchema",
"description": "Generic JSON Schema",
"type": "object",
"properties": {}
}
"#.to_owned()
        },
        Some(n) => {
            match json_schema_for_name(n) {
                Some(s) => s,
                None => {
                    return Err(BridgeError::UnknownJsonSchema { schema_name: n.clone() });
                },
            }
        },
    };
    Ok(SchemaDescriptor {
        encoding_name: "json".to_owned(),
        schema_name: message_type.clone(),
        schema: SchemaPayload::Text(schema_text),
        schema_encoding_hint: "jsonschema".to_owned(),
    })
}

} // verus!
