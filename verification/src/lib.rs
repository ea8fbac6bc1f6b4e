//! The logic of a toolkit that finds miners on a network.
//!
//! At its heart is the bookkeeping of a scan over several groups of hosts
//! at once ([`network::scanner`]): which events go out, in which order, and
//! what holds of them at every moment. Around it stand the validation of
//! range expressions ([`network`]), the sizing of the event channel
//! ([`sizing`]), the throttling of progress reports ([`throttle`]), and the
//! state behind each page of the application ([`toolkit`]).
//!
//! Nothing here touches the network, the disk or the clock: probing,
//! storing and timing are the caller's part, and every function says what
//! it makes of what the caller hands it.

pub mod config;
pub mod dashboard;
pub mod device_detail_view;
pub mod errors;
pub mod health;
pub mod main_view;
pub mod named;
pub mod network;
pub mod network_config;
pub mod scanning;
pub mod scanning_view;
pub mod sizing;
pub mod sorting;
pub mod text;
pub mod theme;
pub mod throttle;
pub mod toolkit;
pub mod ui_helpers;
