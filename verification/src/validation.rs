use vstd::prelude::*;
use crate::errors::CommunicationError;
use crate::response::{NavigatorResponse, Source};

verus! {

/// True when `s` holds two consecutive dots somewhere.
pub open spec fn contains_dotdot(s: Seq<char>) -> bool {
    exists|i: int| 0 <= i && i + 2 <= s.len() && #[trigger] s[i] == '.' && s[i + 1] == '.'
}

/// A source path is acceptable when it is non-empty, holds no `..`
/// segment, and does not start at the filesystem root.
pub open spec fn valid_source_path(s: Seq<char>) -> bool {
    &&& s.len() > 0
    &&& !contains_dotdot(s)
    &&& s[0] != '/'
}

/// Path traversal is rejected on the path text alone: a path with `..` in
/// it, or one that starts with `/`, is never a valid source path, whatever
/// the filesystem holds.
pub proof fn lemma_traversal_rejected(s: Seq<char>)
    requires
        contains_dotdot(s) || (s.len() > 0 && s[0] == '/'),
    ensures
        !valid_source_path(s),
{
}

/// Scan for two consecutive dots.
#[verifier::loop_isolation(false)]
pub fn has_dotdot(s: &str) -> (r: bool)
    ensures
        r == contains_dotdot(s@),
{
    let n = s.unicode_len();
    if n < 2 {
        return false;
    }
    let mut i: usize = 0;
    while i < n - 1
        invariant
            2 <= n == s@.len(),
            i <= n - 1,
            forall|j: int| 0 <= j < i ==> !(#[trigger] s@[j] == '.' && s@[j + 1] == '.'),
        decreases n - i,
    {
        if s.get_char(i) == '.' && s.get_char(i + 1) == '.' {
            return true;
        }
        i += 1;
    }
    false
}

/// Basic sanity check on one source reference (`..` and absolute paths
/// are rejected even when such a file exists).
pub fn is_valid_source(source: &Source) -> (r: bool)
    ensures
        r == valid_source_path(source.file@),
{
    let n = source.file.as_str().unicode_len();
    if n == 0 {
        return false;
    }
    if has_dotdot(source.file.as_str()) {
        return false;
    }
    if source.file.as_str().get_char(0) == '/' {
        return false;
    }
    true
}

/// Replace every backslash by a forward slash.
pub open spec fn normalize_seps(s: Seq<char>) -> Seq<char> {
    s.map_values(|c: char| if c == '\\' { '/' } else { c })
}

/// Drop one leading `./`, if present.
pub open spec fn strip_dot_slash(s: Seq<char>) -> Seq<char> {
    if s.len() >= 2 && s[0] == '.' && s[1] == '/' {
        s.subrange(2, s.len() as int)
    } else {
        s
    }
}

/// What `sanitize_path` yields: trim, refuse absolute paths and `..`,
/// normalize separators and drop a leading `./`.
pub open spec fn sanitize_path_spec(s: Seq<char>) -> Option<Seq<char>> {
    let t = crate::strutil::trimmed(s);
    if t.len() > 0 && (t[0] == '/' || t[0] == '\\') {
        None
    } else if contains_dotdot(t) {
        None
    } else {
        Some(strip_dot_slash(normalize_seps(t)))
    }
}

/// Clean a user-supplied relative path, rejecting traversal attempts.
#[verifier::loop_isolation(false)]
pub fn sanitize_path(path: &str) -> (r: Option<String>)
    ensures
        match r {
            Some(out) => sanitize_path_spec(path@) == Some(out@),
            None => sanitize_path_spec(path@) is None,
        },
{
    let t = crate::strutil::trim_ascii(path);
    let n = t.as_str().unicode_len();
    if n > 0 {
        let first = t.as_str().get_char(0);
        if first == '/' || first == '\\' {
            return None;
        }
    }
    if has_dotdot(t.as_str()) {
        return None;
    }
    let mut out = String::new();
    let mut i: usize = 0;
    while i < n
        invariant
            n == t@.len(),
            i <= n,
            out@ == normalize_seps(t@.subrange(0, i as int)),
        decreases n - i,
    {
        let c = t.as_str().get_char(i);
        let mapped = if c == '\\' {
            '/'
        } else {
            c
        };
        crate::strutil::push_char(&mut out, mapped);
        proof {
            assert(t@.subrange(0, i + 1).drop_last() =~= t@.subrange(0, i as int));
            assert(normalize_seps(t@.subrange(0, i + 1)) =~= normalize_seps(
                t@.subrange(0, i as int),
            ).push(if t@[i as int] == '\\' { '/' } else { t@[i as int] }));
        }
        i += 1;
    }
    proof {
        assert(t@.subrange(0, n as int) =~= t@);
    }
    // drop one leading "./" after separators were normalized
    let m = out.as_str().unicode_len();
    if m >= 2 && out.as_str().get_char(0) == '.' && out.as_str().get_char(1) == '/' {
        let stripped = out.as_str().substring_char(2, m);
        return Some(String::from_str(stripped));
    }
    Some(out)
}

/// Whether `file` occurs in the list of knowledge-base files.
pub open spec fn file_known(existing: Seq<String>, file: Seq<char>) -> bool {
    exists|j: int| 0 <= j < existing.len() && existing[j]@ == file
}

/// A source passes the existence check: its path is acceptable in
/// itself (no traversal, not absolute), and it names a knowledge-base
/// file.
pub open spec fn source_accepted(existing: Seq<String>, file: Seq<char>) -> bool {
    valid_source_path(file) && file_known(existing, file)
}

/// Check every cited source against the knowledge base, whose
/// (relative) file names are handed in as `existing`. A source whose
/// path holds `..` or starts at the root is rejected outright, whatever
/// the listing holds; an acceptable path must then name a listed file.
#[verifier::loop_isolation(false)]
pub fn validate_sources_exist(response: &NavigatorResponse, existing: &Vec<String>) -> (r: Result<
    (),
    CommunicationError,
>)
    ensures
        r is Ok <==> forall|i: int|
            0 <= i < response.sources@.len() ==> source_accepted(
                existing@,
                (#[trigger] response.sources@[i]).file@,
            ),
        r is Err ==> match r->Err_0 {
            CommunicationError::ValidationError(f) => exists|i: int|
                0 <= i < response.sources@.len() && !valid_source_path(
                    (#[trigger] response.sources@[i]).file@,
                ) && f@ == response.sources@[i].file@,
            CommunicationError::SourceNotFound(f) => exists|i: int|
                0 <= i < response.sources@.len() && !file_known(
                    existing@,
                    (#[trigger] response.sources@[i]).file@,
                ) && f@ == response.sources@[i].file@,
            _ => false,
        },
{
    let n = response.sources.len();
    let mut i: usize = 0;
    while i < n
        invariant
            n == response.sources@.len(),
            i <= n,
            forall|j: int|
                0 <= j < i ==> source_accepted(existing@, (#[trigger] response.sources@[j]).file@),
        decreases n - i,
    {
        if !is_valid_source(&response.sources[i]) {
            return Err(
                CommunicationError::ValidationError(response.sources[i].file.clone()),
            );
        }
        let file = &response.sources[i].file;
        let mut found = false;
        let m = existing.len();
        let mut j: usize = 0;
        while j < m && !found
            invariant
                m == existing@.len(),
                j <= m,
                found ==> file_known(existing@, file@),
                !found ==> forall|p: int| 0 <= p < j ==> (#[trigger] existing@[p])@ != file@,
            decreases m - j, if found { 0int } else { 1int },
        {
            if crate::strutil::str_eq(existing[j].as_str(), file.as_str()) {
                found = true;
            } else {
                j += 1;
            }
        }
        if !found {
            return Err(CommunicationError::SourceNotFound(file.clone()));
        }
        i += 1;
    }
    Ok(())
}

/// Enforce a confidence floor (in thousandths): the response passes
/// exactly when its confidence is at or above the floor.
pub fn validate_confidence(response: &NavigatorResponse, threshold: u32) -> (r: Result<
    (),
    CommunicationError,
>)
    ensures
        r is Ok <==> response.confidence >= threshold,
        r is Err ==> (r->Err_0 matches CommunicationError::ConfidenceBelowThreshold {
            got,
            expected,
        } && got == response.confidence && expected == threshold),
{
    if response.confidence < threshold {
        return Err(CommunicationError::ConfidenceBelowThreshold {
            got: response.confidence,
            expected: threshold,
        });
    }
    Ok(())
}

/// Full post-hoc validation of a response: cited sources must exist, and
/// the confidence floor, when one is set, must be met. Source checking
/// comes first.
pub fn validate_response(
    response: &NavigatorResponse,
    existing: &Vec<String>,
    confidence_threshold: Option<u32>,
) -> (r: Result<(), CommunicationError>)
    ensures
        r is Ok <==> {
            &&& forall|i: int|
                0 <= i < response.sources@.len() ==> source_accepted(
                    existing@,
                    (#[trigger] response.sources@[i]).file@,
                )
            &&& match confidence_threshold {
                Some(t) => response.confidence >= t,
                None => true,
            }
        },
{
    validate_sources_exist(response, existing)?;
    if let Some(t) = confidence_threshold {
        validate_confidence(response, t)?;
    }
    Ok(())
}

} // verus!
