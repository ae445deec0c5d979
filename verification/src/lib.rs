//! Verified core of the Flashblocks block builder.
//!
//! The library holds the decisions of the builder: how the time of a payload
//! job is split into flashblocks, when the flashblock loop stops, how the
//! publisher numbers flashblocks and times them, how the flashtestations
//! protocol sequences its contract calls, and the byte layouts that it hashes
//! and signs. Networking, the node and the command line live in the program
//! around it.

pub mod args;
pub mod attestation;
pub mod crypto;
pub mod executor;
pub mod hex;
pub mod limits;
pub mod pipeline;
pub mod publish;
pub mod service;
pub mod signer;
pub mod state;
pub mod step;
pub mod stop;
pub mod text;
pub mod watch;
pub mod websocket;

pub use limits::{FlashblockLimits, Limits};
pub use publish::{ExecutionPayloadBase, PublishFlashblock, Times};
pub use signer::{BuilderSigner, SignerError};
pub use state::{FlashblockNumber, TargetFlashblocks};
pub use stop::{BreakAfterMaxFlashblocks, ControlFlow};
