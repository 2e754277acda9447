//! Verified core of the SayAll voice-remote runtime for Windows.
pub mod chord;
pub mod conduct;
pub mod deadline;
pub mod diagnostics;
pub mod error;
pub mod expectations;
pub mod gatt;
pub mod guarantees;
pub mod history;
pub mod ime;
pub mod interruption;
pub mod laws;
pub mod model;
pub mod order;
pub mod outcomes;
pub mod progress;
pub mod protocol;
pub mod reconnect;
pub mod renewal;
pub mod request;
pub mod setup;
pub mod sleep;
pub mod snapshot;
pub mod teardown;
pub mod text;
pub mod timestamp;
pub mod voice;
pub mod wetype;
pub mod worker;
