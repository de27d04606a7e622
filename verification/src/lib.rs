//! Keeps the system clock in step with linear timecode (LTC): the decisions of the
//! synchroniser and the contents of its terminal display, with their contracts.
#![allow(unused_imports)]

pub mod civil;
pub mod decimal;
pub mod frame;
pub mod network;
pub mod service;
pub mod startup;
pub mod sync_manager;
pub mod text;
pub mod ui;
