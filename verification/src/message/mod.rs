//! Control messages and their parameters.

pub mod filter;
pub mod laws;
pub mod messages;
pub mod parameter_type;
pub mod parameters;
pub mod types;
pub mod wire_id;

pub use filter::{FilterType, SubscriptionFilter};
pub use messages::{
    Fetch, FetchCancel, FetchOk, GoAway, Message, Namespace, NamespaceDone, Publish, PublishDone,
    PublishNamespace, PublishNamespaceCancel, PublishNamespaceDone, PublishOk, PublishSkipped,
    Publisher, RequestError, RequestOk, RequestUpdate, Routed, Subscribe, SubscribeNamespace,
    SubscribeOk, SubscribeTracks, Subscriber, TrackStatus, Unsubscribe,
};
pub use types::{
    FetchType, GroupOrder, PublishDoneCode, Redirect, RequestErrorCode, TrackExtensions,
    TrackProperties,
};
