//! Identity material of a self-signed root certificate authority: key
//! generation, the root certificate, its PEM form on disk, signing requests
//! for leaf identities, and the start-up decisions between reloading and
//! generating.
//!
//! Everything cryptographic is done by OpenSSL, through the calls in
//! [`crypto`]. What OpenSSL builds is not taken on trust: the library reads
//! back off a new key pair, a new root and a new request what it handed
//! over, and decides on what it reads in functions that take the readings
//! as arguments. The library itself neither reads nor writes files: it says
//! which files to read and what to write into them, and is told how that
//! went.

pub mod bootstrap;
pub mod bytes;
pub mod ca;
pub mod crypto;
pub mod csr;
pub mod der;
pub mod error;
pub mod key;
pub mod store;

pub use bootstrap::{step, Action, Config, Event, Phase};
pub use ca::CA;
pub use csr::{generate_csr, RequestFields, SigningRequest};
pub use error::{CAError, IoFailure, IoKind};
pub use key::generate_key;
pub use store::PersistedCredential;
