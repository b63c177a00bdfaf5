//! Decision logic of a bootstrap launcher: it reads the version that an
//! interpreter announces, picks the first usable interpreter from an ordered
//! list of candidates, and steers the three provisioning stages (environment
//! creation, dependency installation, application launch) with fail-fast
//! semantics.
//!
//! Starting processes and writing to the terminal are left to the caller.
//! Every decision in between is made here, under a contract that Verus
//! proves. The one exception is the styling of text, which is done by the
//! `colored` crate: the two functions in `paint` that call it state what
//! `colored` returns, and that is taken on trust.

pub mod error;
pub mod launcher;
pub mod locator;
pub mod paint;
pub mod precedence;
pub mod report;
pub mod stage;
pub mod text;
pub mod version;
