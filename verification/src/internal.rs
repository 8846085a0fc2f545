//! Settings that carry their credentials with them, and the small rules of
//! rotations that give the application a newly named user each time.

pub mod argocd;
pub mod database;
pub mod random;
pub mod vault;
pub mod workflow;
