//! Classification of HTTP client identification strings ("user-agent"
//! strings) into structured facts: the browser family that produced the
//! string (with its version), whether the string identifies an automated
//! crawler, and the operating system it reports (with its version).
//!
//! Each classifier is an ordered cascade of matchers; the first matcher
//! that succeeds decides the result. The matching itself — literal
//! substring tests and fixed token-version patterns — is implemented and
//! verified here over sequences of characters.

pub mod bot;
pub mod browser;
pub mod laws;
pub mod platform;
pub mod text;
pub mod user_agent;
