//! Bridge orchestrator: turns the static configuration into one channel plan
//! per configured topic, eagerly failing on the first topic whose schema
//! cannot be resolved. Planning is all-or-nothing: on failure no plan — and
//! so no channel and no bus subscription — is produced, guaranteeing the
//! bridge never runs with a silently missing stream.

use vstd::prelude::*;
use crate::config::{Configuration, JsonSubscription, ProtobufSubscription};
use crate::encoding::MessageKind;
use crate::errors::BridgeError;
use crate::schema::{
    SchemaDescriptor,
    SchemaPayload,
    pool_encoded,
    pool_message_names,
    resolve_json,
    resolve_protobuf,
    spec_json_schema_choice,
};

verus! {

/// Everything the runtime needs to provision one topic's visualization
/// channel and start its forwarding loop: the bus topic, the topic's message
/// kind, the resolved schema descriptor, and the latched delivery flag.
pub struct ChannelPlan {
    pub topic: String,
    pub kind: MessageKind,
    pub descriptor: SchemaDescriptor,
    pub latched: bool,
}

/// Whether a protobuf subscription's type name resolves against the pool.
pub open spec fn proto_resolvable(
    pool: prost_reflect::DescriptorPool,
    sub: ProtobufSubscription,
) -> bool {
    pool_message_names(pool).contains(sub.proto_type@)
}

/// Whether a JSON subscription's schema name resolves against the static
/// table (a subscription without a name always resolves, to the generic
/// schema).
pub open spec fn json_resolvable(sub: JsonSubscription) -> bool {
    spec_json_schema_choice(sub.json_schema_name) is Some
}

/// Whether every configured subscription resolves, so that startup succeeds.
pub open spec fn config_resolvable(
    pool: prost_reflect::DescriptorPool,
    config: Configuration,
) -> bool {
    (forall|i: int|
        0 <= i < config.protobuf_subscriptions@.len() ==> proto_resolvable(
            pool,
            #[trigger] config.protobuf_subscriptions@[i],
        )) && (forall|j: int|
        0 <= j < config.json_subscriptions@.len() ==> json_resolvable(
            #[trigger] config.json_subscriptions@[j],
        ))
}

/// The plan of a protobuf topic: a channel advertising `protobuf` encoding
/// under the subscription's own type name, carrying the serialized descriptor
/// pool as schema, never latched.
pub open spec fn proto_plan_matches(
    pool: prost_reflect::DescriptorPool,
    sub: ProtobufSubscription,
    plan: ChannelPlan,
) -> bool {
    &&& plan.topic@ == sub.topic@
    &&& plan.kind is Protobuf
    &&& plan.descriptor.encoding_name@ == "protobuf"@
    &&& plan.descriptor.schema_name@ == sub.proto_type@
    &&& plan.descriptor.schema matches SchemaPayload::Binary(b) && b@ == pool_encoded(pool)
    &&& plan.descriptor.schema_encoding_hint@ == "protobuf"@
    &&& plan.latched == false
}

/// The plan of a JSON topic: a channel advertising `json` encoding under the
/// subscription's type name, carrying the resolved JSON schema text, latched
/// exactly when the subscription says so (absent means false).
pub open spec fn json_plan_matches(sub: JsonSubscription, plan: ChannelPlan) -> bool {
    &&& plan.topic@ == sub.topic@
    &&& plan.kind is Json
    &&& plan.descriptor.encoding_name@ == "json"@
    &&& plan.descriptor.schema_name@ == sub.message_type@
    &&& plan.descriptor.schema matches SchemaPayload::Text(s) && Some(s@)
        == spec_json_schema_choice(sub.json_schema_name)
    &&& plan.descriptor.schema_encoding_hint@ == "jsonschema"@
    &&& plan.latched == sub.latched.unwrap_or(false)
}

/// Whether `e` reports the first unresolvable subscription, in configuration
/// order: protobuf subscriptions first, then JSON subscriptions.
pub open spec fn is_first_failure(
    pool: prost_reflect::DescriptorPool,
    config: Configuration,
    e: BridgeError,
) -> bool {
    match e {
        BridgeError::SchemaNotFound { proto_type } => exists|i: int|
            0 <= i < config.protobuf_subscriptions@.len() && !proto_resolvable(
                pool,
                #[trigger] config.protobuf_subscriptions@[i],
            ) && proto_type@ == config.protobuf_subscriptions@[i].proto_type@ && (forall|k: int|
                0 <= k < i ==> proto_resolvable(pool, #[trigger] config.protobuf_subscriptions@[k])),
        BridgeError::UnknownJsonSchema { schema_name } => (forall|i: int|
            0 <= i < config.protobuf_subscriptions@.len() ==> proto_resolvable(
                pool,
                #[trigger] config.protobuf_subscriptions@[i],
            )) && exists|j: int|
            0 <= j < config.json_subscriptions@.len() && !json_resolvable(
                #[trigger] config.json_subscriptions@[j],
            ) && (config.json_subscriptions@[j].json_schema_name matches Some(n) && schema_name@
                == n@) && (forall|k: int|
                0 <= k < j ==> json_resolvable(#[trigger] config.json_subscriptions@[k])),
    }
}

/// Plans the whole bridge from the static configuration and the preloaded
/// descriptor pool: one channel plan per configured topic, protobuf topics
/// first and then JSON topics, each in configuration order. Planning succeeds
/// exactly when every subscription's schema resolves; the first unresolvable
/// subscription aborts the whole orchestration with its error, and then no
/// plan is produced at all — no channel is ever created for the topics before
/// it.
pub fn plan_bridge(pool: &prost_reflect::DescriptorPool, config: &Configuration) -> (r: Result<
    Vec<ChannelPlan>,
    BridgeError,
>)
    ensures
        r is Ok <==> config_resolvable(*pool, *config),
        r matches Ok(plans) ==> {
            &&& plans@.len() == config.protobuf_subscriptions@.len()
                + config.json_subscriptions@.len()
            &&& forall|i: int|
                0 <= i < config.protobuf_subscriptions@.len() ==> proto_plan_matches(
                    *pool,
                    config.protobuf_subscriptions@[i],
                    #[trigger] plans@[i],
                )
            &&& forall|j: int|
                0 <= j < config.json_subscriptions@.len() ==> json_plan_matches(
                    config.json_subscriptions@[j],
                    #[trigger] plans@[config.protobuf_subscriptions@.len() + j],
                )
        },
        r matches Err(e) ==> is_first_failure(*pool, *config, e),
{
    let mut plans: Vec<ChannelPlan> = Vec::new();
    let n_proto: usize = config.protobuf_subscriptions.len();
    let mut i: usize = 0;
    while i < n_proto
        invariant
            n_proto == config.protobuf_subscriptions@.len(),
            0 <= i <= n_proto,
            plans@.len() == i,
            forall|k: int|
                0 <= k < i ==> proto_plan_matches(
                    *pool,
                    config.protobuf_subscriptions@[k],
                    #[trigger] plans@[k],
                ),
            forall|k: int|
                0 <= k < i ==> proto_resolvable(
                    *pool,
                    #[trigger] config.protobuf_subscriptions@[k],
                ),
        decreases n_proto - i,
    {
        let sub = &config.protobuf_subscriptions[i];
        match resolve_protobuf(pool, &sub.proto_type) {
            Ok(descriptor) => {
                plans.push(
                    ChannelPlan {
                        topic: sub.topic.clone(),
                        kind: MessageKind::Protobuf,
                        descriptor,
                        latched: false,
                    },
                );
            },
            Err(e) => {
                return Err(e);
            },
        }
        i = i + 1;
    }
    let n_json: usize = config.json_subscriptions.len();
    let mut j: usize = 0;
    while j < n_json
        invariant
            n_proto == config.protobuf_subscriptions@.len(),
            n_json == config.json_subscriptions@.len(),
            0 <= j <= n_json,
            plans@.len() == n_proto + j,
            forall|k: int|
                0 <= k < n_proto ==> proto_plan_matches(
                    *pool,
                    config.protobuf_subscriptions@[k],
                    #[trigger] plans@[k],
                ),
            forall|k: int|
                0 <= k < n_proto ==> proto_resolvable(
                    *pool,
                    #[trigger] config.protobuf_subscriptions@[k],
                ),
            forall|k: int|
                0 <= k < j ==> json_plan_matches(
                    config.json_subscriptions@[k],
                    #[trigger] plans@[n_proto + k],
                ),
            forall|k: int| 0 <= k < j ==> json_resolvable(#[trigger] config.json_subscriptions@[k]),
        decreases n_json - j,
    {
        let sub = &config.json_subscriptions[j];
        match resolve_json(&sub.message_type, &sub.json_schema_name) {
            Ok(descriptor) => {
                let latched: bool = match &sub.latched {
                    Some(b) => *b,
                    None => false,
                };
                plans.push(
                    ChannelPlan { topic: sub.topic.clone(), kind: MessageKind::Json, descriptor, latched },
                );
            },
            Err(e) => {
                return Err(e);
            },
        }
        j = j + 1;
    }
    Ok(plans)
}

/// What one subscription comes to under best-effort planning: its channel
/// plan when its schema resolves, its startup error otherwise.
pub open spec fn proto_outcome_matches(
    pool: prost_reflect::DescriptorPool,
    sub: ProtobufSubscription,
    outcome: Result<ChannelPlan, BridgeError>,
) -> bool {
    match outcome {
        Ok(plan) => proto_resolvable(pool, sub) && proto_plan_matches(pool, sub, plan),
        Err(e) => !proto_resolvable(pool, sub) && (e matches BridgeError::SchemaNotFound {
            proto_type,
        } && proto_type@ == sub.proto_type@),
    }
}

pub open spec fn json_outcome_matches(
    sub: JsonSubscription,
    outcome: Result<ChannelPlan, BridgeError>,
) -> bool {
    match outcome {
        Ok(plan) => json_resolvable(sub) && json_plan_matches(sub, plan),
        Err(e) => !json_resolvable(sub) && (sub.json_schema_name matches Some(n) && (e
            matches BridgeError::UnknownJsonSchema { schema_name } && schema_name@ == n@)),
    }
}

/// The best-effort planning policy: instead of aborting at the first
/// unresolvable subscription, every subscription gets its own outcome — a
/// channel plan where its schema resolves, its startup error where it does
/// not — in the same order as [`plan_bridge`], protobuf topics first. The
/// caller starts the resolvable topics and reports the rest.
pub fn plan_bridge_best_effort(
    pool: &prost_reflect::DescriptorPool,
    config: &Configuration,
) -> (r: Vec<Result<ChannelPlan, BridgeError>>)
    ensures
        r@.len() == config.protobuf_subscriptions@.len() + config.json_subscriptions@.len(),
        forall|i: int|
            0 <= i < config.protobuf_subscriptions@.len() ==> proto_outcome_matches(
                *pool,
                config.protobuf_subscriptions@[i],
                #[trigger] r@[i],
            ),
        forall|j: int|
            0 <= j < config.json_subscriptions@.len() ==> json_outcome_matches(
                config.json_subscriptions@[j],
                #[trigger] r@[config.protobuf_subscriptions@.len() + j],
            ),
{
    let mut outcomes: Vec<Result<ChannelPlan, BridgeError>> = Vec::new();
    let n_proto: usize = config.protobuf_subscriptions.len();
    let mut i: usize = 0;
    while i < n_proto
        invariant
            n_proto == config.protobuf_subscriptions@.len(),
            0 <= i <= n_proto,
            outcomes@.len() == i,
            forall|k: int|
                0 <= k < i ==> proto_outcome_matches(
                    *pool,
                    config.protobuf_subscriptions@[k],
                    #[trigger] outcomes@[k],
                ),
        decreases n_proto - i,
    {
        let sub = &config.protobuf_subscriptions[i];
        let outcome = match resolve_protobuf(pool, &sub.proto_type) {
            Ok(descriptor) => Ok(
                ChannelPlan {
                    topic: sub.topic.clone(),
                    kind: MessageKind::Protobuf,
                    descriptor,
                    latched: false,
                },
            ),
            Err(e) => Err(e),
        };
        outcomes.push(outcome);
        i = i + 1;
    }
    let n_json: usize = config.json_subscriptions.len();
    let mut j: usize = 0;
    while j < n_json
        invariant
            n_proto == config.protobuf_subscriptions@.len(),
            n_json == config.json_subscriptions@.len(),
            0 <= j <= n_json,
            outcomes@.len() == n_proto + j,
            forall|k: int|
                0 <= k < n_proto ==> proto_outcome_matches(
                    *pool,
                    config.protobuf_subscriptions@[k],
                    #[trigger] outcomes@[k],
                ),
            forall|k: int|
                0 <= k < j ==> json_outcome_matches(
                    config.json_subscriptions@[k],
                    #[trigger] outcomes@[n_proto + k],
                ),
        decreases n_json - j,
    {
        let sub = &config.json_subscriptions[j];
        let outcome = match resolve_json(&sub.message_type, &sub.json_schema_name) {
            Ok(descriptor) => {
                let latched: bool = match &sub.latched {
                    Some(b) => *b,
                    None => false,
                };
                Ok(ChannelPlan { topic: sub.topic.clone(), kind: MessageKind::Json, descriptor, latched })
            },
            Err(e) => Err(e),
        };
        outcomes.push(outcome);
        j = j + 1;
    }
    outcomes
}

/// The fixed visualization client URL that points a browser at the locally
/// served websocket bridge.
pub open spec fn foxglove_url_text() -> Seq<char> {
    "https://app.foxglove.dev/david-weis/view?ds=foxglove-websocket&ds.url=ws://127.0.0.1:8765/&layoutId=ea22e72c-f654-4743-925a-7143a510d390"@
}

/// The URL a browser can be pointed at to view the bridge's channels.
pub fn create_foxglove_url() -> (r: String)
    ensures
        r@ == foxglove_url_text(),
{
    "https://app.foxglove.dev/david-weis/view?ds=foxglove-websocket&ds.url=ws://127.0.0.1:8765/&layoutId=ea22e72c-f654-4743-925a-7143a510d390".to_owned()
}

} // verus!
