//! Connection lifecycle and message relay core of a terminal WebSocket console.
//!
//! The crate holds the decisions of the console and none of its input or
//! output: a shell around it reads keys, talks to the network and draws the
//! screen, and asks the types here what to do next.
//!
//! - `app`: the interactive loop's state and its reaction to input events.
//! - `keys`: key strokes and the events they stand for.
//! - `focus`: the two text fields.
//! - `log`: the shared message log.
//! - `slot`: the holder of the current send-half.
//! - `controller`: what a connect attempt does to the slot.
//! - `relay`: what the inbound relay does with each frame.
//! - `text`: contracts for the `String` operations that the text fields use.

pub mod app;
pub mod controller;
pub mod focus;
pub mod keys;
pub mod log;
pub mod relay;
pub mod slot;
pub mod text;

pub use app::{App, Command};
pub use controller::{
    plan_connect, plan_parsed, settle, Attempt, ConnectFailure, ConnectOutcome, ConnectPlan,
    Settled, SkipReason, Trigger,
};
pub use focus::InputField;
pub use keys::{decode, InputEvent, Key, KeyKind, KeyStroke};
pub use log::{Author, ChatEntry, MessageLog};
pub use relay::{Frame, Relay, RelayStep};
pub use slot::{ConnectionSlot, SendFailure};
