//! Account-linking core: the challenge/callback exchange that ties a chat
//! identity to an account on an external game platform, and the rule engine
//! that maps the linked account's rating to role grants.
//!
//! Everything here is pure logic over plain values. The surrounding binary
//! supplies transport: the key-value backend, the external platform's token
//! and profile endpoints, and the web boundary.

pub mod challenge;
pub mod protocol;
pub mod error;
pub mod rating_range;
pub mod roles;
pub mod store;
