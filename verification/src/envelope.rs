//! What the provisioning API answers: the envelope around every answer, and
//! the subscription and connection records inside it.

use crate::ident::Id128;
use vstd::prelude::*;

verus! {

/// The envelope of every answer of the provisioning API.
#[derive(Debug)]
pub struct ApiResponse<T> {
    pub status: u16,
    pub message: String,
    pub response: T,
}

/// An answer that holds a subscription record directly.
#[derive(Debug)]
pub struct SubscriptionResponse {
    pub status: u16,
    pub message: String,
    pub response: SubscriptionInstance,
}

/// The subscription record under its key `Subscription`.
#[derive(Debug)]
pub struct SubscriptionInstance {
    pub subscription: Subscription,
}

/// What the API answers when a subscription was created: its identifier and
/// the record.
#[derive(Debug)]
pub struct SubscriptionEnvelope {
    pub id: Id128,
    pub instance: SubscriptionInstance,
}

/// A subscription as the API describes it.
#[derive(Debug)]
pub struct Subscription {
    pub id: Id128,
    pub expires_at: String,
    pub referred_by: Option<String>,
    pub refer_code: String,
    pub bonus_days: Option<i64>,
    pub created_at: String,
    pub updated_at: String,
    pub is_deleted: bool,
}

/// What the API answers when a connection was created: its identifier and
/// the record.
#[derive(Debug)]
pub struct ConnectionResponse {
    pub id: Id128,
    pub instance: ConnectionInstance,
}

/// The connection record under its key `Connection`.
#[derive(Debug)]
pub struct ConnectionInstance {
    pub connection: Connection,
}

/// A connection as the API describes it.
#[derive(Debug)]
pub struct Connection {
    pub env: String,
    pub proto: ProtoWrapper,
    pub stat: ConnectionStat,
    pub subscription_id: Id128,
    pub created_at: String,
    pub modified_at: String,
    pub expired_at: Option<String>,
    pub is_deleted: bool,
    pub node_id: Option<Id128>,
}

/// The transports that the API knows by name.
#[derive(Clone, Copy, Debug, PartialEq, Eq, Structural)]
pub enum XrayProto {
    VlessXhttpReality,
    VlessGrpcReality,
    VlessTcpReality,
    Hysteria2,
}

/// What a Hysteria2 connection carries besides its name.
#[derive(Clone, Copy, Debug, PartialEq, Eq, Structural)]
pub struct Hysteria2Proto {
    pub token: Id128,
}

/// The transport of a connection, as the API tags it.
#[derive(Clone, Copy, Debug, PartialEq, Eq, Structural)]
pub enum ProtoWrapper {
    Xray(XrayProto),
    Hysteria2(Hysteria2Proto),
}

/// The traffic counters of a connection.
#[derive(Clone, Copy, Debug, PartialEq, Eq, Structural)]
pub struct ConnectionStat {
    pub downlink: u64,
    pub uplink: u64,
    pub online: u64,
}

} // verus!
