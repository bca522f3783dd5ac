//! Reason codes carried by every `error` frame.
//!
//! Fatal codes: `connection`, `auth`, `internal`.
//! Recoverable codes: `idle`, `overload`, `protocol`.
use vstd::prelude::*;

verus! {

/// The round ended because the client was silent too long.
pub const IDLE: &'static str = "idle";

/// The link broke.
pub const CONNECTION: &'static str = "connection";

/// The credentials were missing or wrong.
pub const AUTH: &'static str = "auth";

/// Every recognition slot is taken.
pub const OVERLOAD: &'static str = "overload";

/// The client broke the message protocol.
pub const PROTOCOL: &'static str = "protocol";

/// The server failed internally.
pub const INTERNAL: &'static str = "internal";

} // verus!
