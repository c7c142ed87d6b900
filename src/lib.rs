//! Event-bound tickets: the ticket lifecycle state machine, the escrow
//! marketplace for resale, and the deterministic addresses of their records.
//!
//! Each operation takes the records it reads and, by `&mut`, those it may
//! change; a record that the operation may create or close is passed as the
//! `Option` held at its address. An operation either succeeds, changing its
//! records and returning what the asset registry and the payment subsystem are
//! to carry out, or returns an `ErrorCode` and changes nothing. Text is held as
//! UTF-8 bytes. The `laws` module states what holds across operations.
pub mod address;
pub mod error;
pub mod text;
pub mod state;
pub mod lifecycle;
pub mod market;
pub mod event;
pub mod issue;
pub mod laws;
