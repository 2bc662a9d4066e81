//! Runtime core of a desktop browser shell: window-group addressing,
//! geometry resolution, surface layout, new-window policy, URL-change
//! monitoring and window-control dispatch, all verified.

pub mod dispatch;
pub mod encoding;
pub mod factory;
pub mod geometry;
pub mod labels;
pub mod layout;
pub mod monitor;
pub mod navigation;
pub mod policy;
pub mod relay;
pub mod search;
pub mod text;
