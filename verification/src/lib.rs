//! A GPU fan-speed controller core: a temperature-to-speed fan curve kept
//! strictly sorted, a reader/writer boundary for sharing it between a UI and
//! a poller, an interactive slider widget's input state machine, and the
//! poller's decision logic.
pub mod curve;
pub mod driver;
pub mod panel;
pub mod poller;
pub mod shared;
pub mod widget;
