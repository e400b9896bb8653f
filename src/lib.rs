//! Channel membership registry and broadcast dispatch for a real-time comment feed.

pub mod dispatch;
pub mod laws;
pub mod membership;
pub mod registry;

pub use dispatch::{
    begin_broadcast, delivery_report, finish_broadcast, gone_targets, plan_pushes, DeliveryEntry,
    DeliveryOutcome, PushRequest,
};
pub use membership::{
    connect, default_channel_name, disconnect, join, leave, switch_channel, validate_channel,
    ChannelSwitch, FeedError, StoreReply, SwitchState,
};
pub use registry::{ConnectionRecord, Registry, StoreRequest};
