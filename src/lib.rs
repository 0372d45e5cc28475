//! Client-side authentication session for a brokerage's OAuth2 login flow,
//! with out-of-band challenges (SMS or email codes) and MFA prompts.
pub mod api;
pub mod error;
pub mod headers;
pub mod json;
pub mod session;
pub mod time;
pub mod urls;
