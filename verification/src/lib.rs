//! Verified core of a manager for disposable git worktrees.
//!
//! The library holds the logic that is worth getting right, stated in
//! contracts and proved:
//!
//! - [`config`]: the layered configuration and its resolution rules —
//!   repository override, then default, then fixed fallback; hook lists
//!   concatenated in order.
//! - [`state`] and [`codec`]: the state-record store — the path-hash
//!   identifier, the serialized record form with a proved
//!   serialize-then-parse round trip, and the enumeration that skips
//!   unreadable records and sorts the rest newest first.
//! - [`hooks`]: the hook pipeline policy — strict order, optional copies
//!   skipped when their source is missing, everything after the first
//!   failure abandoned.
//! - [`lifecycle`]: the create and exit state machines that sequence the
//!   backend calls — an occupied target path fails before any backend
//!   call, a hook failure is a warning on an otherwise complete creation,
//!   and a conflicted merge is aborted before anything is removed.
//! - [`cd`], [`list`], [`checkout`], [`new`], [`pr`], [`shell_init`],
//!   [`vcs`]: the name computations, matching rules and backend-output
//!   readers of the individual commands.
//!
//! Everything that touches the outside world — subprocesses, the
//! filesystem, the clock, the terminal — stays outside the library and
//! feeds it plain values: the machines hand out actions, the caller
//! performs them and reports what happened.

pub mod cd;
pub mod checkout;
pub mod codec;
pub mod config;
pub mod errors;
pub mod hooks;
pub mod lifecycle;
pub mod list;
pub mod new;
pub mod pr;
pub mod shell_init;
pub mod state;
pub mod strutil;
pub mod timefmt;
pub mod vcs;
