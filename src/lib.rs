//! Cryptographically secure random strings for passwords and tokens.
//!
//! The length of a requested string is checked against fixed bounds, an
//! alphabet is assembled from the requested character classes, and each
//! character is drawn uniformly from that alphabet with a ChaCha20 generator
//! seeded from the operating system's entropy source.
pub mod alphabet;
pub mod audit;
pub mod generator;

pub use alphabet::{
    build_alphabet, lemma_alphabet_no_duplicates, lemma_alphabet_size,
    lemma_enabling_classes_expands, MAX_ALLOWED_LENGTH, MIN_REQUIRED_LENGTH,
};
pub use audit::{get_audit_metadata, AuditMetadata, DependencyInfo};
pub use generator::{compose_secret, generate_secure_string, RandError};

