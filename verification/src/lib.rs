//! Trial activation for a subscription service.
//!
//! The crate holds the decisions of a one-endpoint trial service: which
//! requests are admitted, what is asked of the provisioning API, what is
//! written to the journal of granted trials and what is answered. Network,
//! file and mail transport are left to the caller, which performs the actions
//! that the functions here describe and hands back what came of them.

pub mod request;
pub mod text;
pub mod timestamp;
pub mod ident;
pub mod index;
pub mod envelope;
pub mod journal;
pub mod upstream;
pub mod notifier;
pub mod orchestrator;

pub use crate::envelope::{
    ApiResponse, Connection, ConnectionInstance, ConnectionResponse, ConnectionStat,
    Hysteria2Proto, ProtoWrapper, Subscription, SubscriptionEnvelope, SubscriptionInstance,
    SubscriptionResponse, XrayProto,
};
pub use crate::ident::Id128;
pub use crate::index::{Admission, TrialIndex};
pub use crate::journal::{load_trials, save_trial};
pub use crate::notifier::send_email;
pub use crate::orchestrator::{handle_trial, on_connections, on_subscription};
pub use crate::request::{TrialRequest, TrialResponse, TrialSource};
pub use crate::timestamp::Timestamp;
pub use crate::upstream::{auth_headers, create_connection, create_subscription};
