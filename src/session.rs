//! The authentication protocol: its messages and the state machine that
//! sequences them.
pub mod challenge;
pub mod machine;
pub mod oauth;
