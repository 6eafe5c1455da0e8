//! Workflow rules of the SSE Discord bot: identity verification, onboarding
//! requests and their configuration, stated and proved with Verus.
pub mod text;
pub mod verification;
pub mod crypto;
pub mod decimal;
pub mod domain;
pub mod urls;
pub mod config;
pub mod onboard;
pub mod pending;
pub mod provisioning;
pub mod verify;
pub mod authentik;
pub mod rows;
pub mod email;
pub mod gates;
