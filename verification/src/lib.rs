//! Server core for a two-player turn-based board game played over
//! long-lived server-push connections.
//!
//! The crate is split along the lines of the runtime design:
//! - [`tictactoe`] holds the pure game rules: turn order, move legality,
//!   and win/draw detection, plus a configurable move-suggestion policy;
//! - [`game`] holds one session's authoritative state: the board, the
//!   two player seats with their credentials, the spectator list, and
//!   the join / health-check / move / rematch / broadcast protocol;
//! - [`gamemanager`] is the process-wide directory of sessions by
//!   identifier, with periodic eviction of drained sessions;
//! - [`routes`] holds the decision logic behind each HTTP entry point.
//!
//! Connections themselves (sockets, push channels, liveness probes) live
//! with the transport layer around the crate: a connection is named here
//! by an opaque channel handle, probe outcomes come in as booleans, and
//! outbound events are queued per session for the transport to send.

pub mod game;
pub mod gamemanager;
pub mod routes;
pub mod tictactoe;
