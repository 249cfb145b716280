//! Identity of this library and the versions of its random-number
//! dependencies, for supply-chain auditing.
use vstd::prelude::*;

verus! {

/// The name and version of one dependency.
#[derive(Debug)]
pub struct DependencyInfo {
    pub name: &'static str,
    pub version: &'static str,
}

/// The library's own name and version and those of the dependencies that
/// supply its randomness.
#[derive(Debug)]
pub struct AuditMetadata {
    pub crate_name: &'static str,
    pub crate_version: &'static str,
    pub security_dependencies: Vec<DependencyInfo>,
}

/// The name under which this library is published.
pub const CRATE_NAME: &'static str = "secure_string";

/// The version of this library.
pub const CRATE_VERSION: &'static str = "0.1.0";

/// The version of the `rand` crate that this library is built with.
pub const DEP_RAND_VERSION: &'static str = "0.9.5";

/// The version of the `rand_chacha` crate that this library is built with.
pub const DEP_CHACHA_VERSION: &'static str = "0.9.0";

/// Reports the library's identity and the versions of `rand` and
/// `rand_chacha`, in that order. Every call returns the same values.
pub fn get_audit_metadata() -> (r: AuditMetadata)
    ensures
        r.crate_name@ == CRATE_NAME@,
        r.crate_version@ == CRATE_VERSION@,
        r.security_dependencies@.len() == 2,
        r.security_dependencies@[0].name@ == "rand"@,
        r.security_dependencies@[0].version@ == DEP_RAND_VERSION@,
        r.security_dependencies@[1].name@ == "rand_chacha"@,
        r.security_dependencies@[1].version@ == DEP_CHACHA_VERSION@,
{
    AuditMetadata {
        crate_name: CRATE_NAME,
        crate_version: CRATE_VERSION,
        security_dependencies: vec![
            DependencyInfo { name: "rand", version: DEP_RAND_VERSION },
            DependencyInfo { name: "rand_chacha", version: DEP_CHACHA_VERSION },
        ],
    }
}

} // verus!
