//! Domain values: verified identities and onboarding requests.
pub mod onboarding;
pub mod verification;
