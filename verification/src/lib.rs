//! A multi-call toolbox whose heart is a `chroot`-like isolation engine.
//!
//! The library holds the rules: how identities are resolved
//! ([`identity`], [`identity_db`]), how a target root is judged
//! ([`rootfs`], [`mount_probe`]), how an isolation request is assembled
//! ([`request`]) and in which order the operations of entering a new root
//! may be attempted ([`session`], [`pivot`], [`privilege`]). What holds of
//! every resolution and of every attempt is proved in [`identity_laws`] and
//! [`session_laws`]. The remaining modules decide what the small applets
//! write. The system calls that change anything are made by the caller.

pub mod applets;
pub mod echo;
pub mod env_listing;
pub mod error;
pub mod expand;
pub mod identity;
pub mod identity_db;
pub mod identity_laws;
pub mod kv;
pub mod listing;
pub mod mount_probe;
pub mod multicall;
pub mod nproc;
pub mod path_names;
pub mod pathmunge;
pub mod pivot;
pub mod privilege;
pub mod request;
pub mod rootfs;
pub mod session;
pub mod session_laws;
pub mod shell;
pub mod sleep;
pub mod stem;
pub mod text;
pub mod uname;
pub mod which;

pub use identity::{parse_colon_separated_pair, UserGroupPair};
pub use kv::parse_kv_pair;
