//! Core of a dual-source meeting recorder: the recording-session state
//! machine, device binding, capture-worker control, and the surrounding
//! meeting, setting and session bookkeeping, with contracts checked by Verus.

pub mod capture;
pub mod crm;
pub mod devices;
pub mod errors;
pub mod filesys;
pub mod ids;
pub mod ipc;
pub mod meetings;
pub mod native;
pub mod notifier;
pub mod openai;
pub mod recorder;
pub mod session;
pub mod setting;
pub mod strutil;
pub mod timefmt;
pub mod transcribe;
