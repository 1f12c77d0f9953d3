use vstd::prelude::*;

verus! {

/// The (major, minor, patch) triple that semver parsing yields for a
/// version text, or nothing when the text is not a valid version. The
/// result depends on the text alone.
pub uninterp spec fn semver_triple(s: Seq<char>) -> Option<(u64, u64, u64)>;

/// Relies on semver::Version::parse: a strict SemVer parse whose result
/// is a function of the text alone; its major, minor and patch components
/// are returned here.
#[verifier::external_body]
pub fn parse_version(s: &str) -> (r: Option<(u64, u64, u64)>)
    ensures
        r == semver_triple(s@),
{
    match semver::Version::parse(s) {
        Ok(v) => Some((v.major, v.minor, v.patch)),
        Err(_) => None,
    }
}

/// The current protocol version as a parsed (major, minor, patch)
/// triple, or nothing should the constant not parse.
pub fn protocol_version() -> (r: Option<(u64, u64, u64)>)
    ensures
        r == semver_triple(crate::PROTOCOL_VERSION@),
{
    parse_version(crate::PROTOCOL_VERSION)
}

/// Whether the two parsed versions agree on their major component.
pub fn majors_match(a: Option<(u64, u64, u64)>, b: Option<(u64, u64, u64)>) -> (r: bool)
    ensures
        r == match (a, b) {
            (Some(x), Some(y)) => x.0 == y.0,
            _ => false,
        },
{
    match (a, b) {
        (Some(x), Some(y)) => x.0 == y.0,
        _ => false,
    }
}

/// Whether `version` speaks the current protocol: it parses, and its
/// major component equals the protocol's.
pub fn is_compatible(version: &str) -> (r: bool)
    ensures
        r == match (semver_triple(version@), semver_triple(crate::PROTOCOL_VERSION@)) {
            (Some(v), Some(p)) => v.0 == p.0,
            _ => false,
        },
{
    let v = parse_version(version);
    let p = protocol_version();
    majors_match(v, p)
}

pub fn default_protocol_version() -> (r: String)
    ensures
        r@ == crate::PROTOCOL_VERSION@,
{
    String::from_str(crate::PROTOCOL_VERSION)
}

} // verus!
