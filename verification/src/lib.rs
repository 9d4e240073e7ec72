//! The escrowed callback protocol of a chat agent that asks an inference
//! provider for text and receives the result through an authenticated callback.
//!
//! The crate holds the protocol's decisions as functions on plain values. A
//! handler on the host platform reads the accounts of a call into one of the
//! context types ([`AiInference`], [`Callback`], [`Initialize`]), runs the
//! decision, and then carries out the transfers, the resize and the provider
//! call that the returned plan names.

pub mod accounts;
pub mod address;
pub mod ai_inference;
pub mod callback;
pub mod error;
pub mod initialize;
pub mod laws;
pub mod layout;
pub mod rent;
pub mod response;

pub use accounts::{AccountMeta, Config, Identity, Payer, Vault};
pub use address::Address;
pub use ai_inference::{Admission, AiInference, Allocation, InferenceRequest};
pub use callback::{Callback, Commit};
pub use error::ChatError;
pub use initialize::{ChatCreation, Initialize};
pub use response::{Response, ResponseAccount};
