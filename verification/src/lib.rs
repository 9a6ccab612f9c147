//! Core of a desktop-wallpaper embedding engine: the rules by which a
//! top-level window is placed beneath the desktop's icon layer, kept apart
//! from the window system calls that carry them out.
//!
//! The library never calls the window system. Selections are functions of
//! snapshots that the caller has taken ([`window`]). Operations that change
//! windows are tasks ([`protocol`]): each names one request at a time and
//! is resumed with the reply, so that the order of the calls and the
//! reaction to each failure are decided here ([`locator`], [`mutator`],
//! [`engine`]). What the tasks achieve is proved against a model of the
//! desktop ([`model`], [`lifecycle`], [`retries`]).

pub mod engine;
pub mod error;
pub mod geometry;
pub mod handle;
pub mod lifecycle;
pub mod locator;
pub mod model;
pub mod mutator;
pub mod popup_chain;
pub mod protocol;
pub mod retries;
pub mod style;
pub mod text;
pub mod window;
