use vstd::prelude::*;
use crate::adapter::ClaudeAdapter;
use crate::errors::AutonavError;
use crate::response::{ConfidenceLevel, NavigatorResponse};
use crate::strutil::{all_digits, digits_value, is_digit, lower_seq, trimmed};

verus! {

/// Options of one query: a timeout in milliseconds, a confidence floor
/// in thousandths, and whether cited sources must exist.
#[derive(Debug)]
pub struct QueryOptions {
    pub timeout_ms: Option<u64>,
    pub confidence_threshold: Option<u32>,
    pub validate_sources: bool,
    pub verbose: bool,
}

impl Default for QueryOptions {
    fn default() -> (r: QueryOptions)
        ensures
            r.timeout_ms is None,
            r.confidence_threshold is None,
            !r.validate_sources,
            !r.verbose,
    {
        QueryOptions {
            timeout_ms: None,
            confidence_threshold: None,
            validate_sources: false,
            verbose: false,
        }
    }
}

impl QueryOptions {
    /// Fresh options: no timeout, no floor, no source check.
    pub fn new() -> (r: QueryOptions)
        ensures
            r.timeout_ms is None,
            r.confidence_threshold is None,
            !r.validate_sources,
            !r.verbose,
    {
        QueryOptions::default()
    }

    /// Bound the model call by a timeout in milliseconds.
    pub fn with_timeout(self, timeout_ms: u64) -> (r: QueryOptions)
        ensures
            r.timeout_ms == Some(timeout_ms),
            r.confidence_threshold == self.confidence_threshold,
            r.validate_sources == self.validate_sources,
            r.verbose == self.verbose,
    {
        QueryOptions { timeout_ms: Some(timeout_ms), ..self }
    }

    /// Require a named confidence level.
    pub fn with_confidence(self, level: ConfidenceLevel) -> (r: QueryOptions)
        ensures
            level is High ==> r.confidence_threshold == Some(800u32),
            level is Medium ==> r.confidence_threshold == Some(500u32),
            level is Low ==> r.confidence_threshold == Some(200u32),
            r.timeout_ms == self.timeout_ms,
            r.validate_sources == self.validate_sources,
            r.verbose == self.verbose,
    {
        let threshold = level.threshold();
        QueryOptions { confidence_threshold: Some(threshold), ..self }
    }

    /// Require a confidence floor, in thousandths.
    pub fn with_confidence_value(self, threshold: u32) -> (r: QueryOptions)
        ensures
            r.confidence_threshold == Some(threshold),
            r.timeout_ms == self.timeout_ms,
            r.validate_sources == self.validate_sources,
            r.verbose == self.verbose,
    {
        QueryOptions { confidence_threshold: Some(threshold), ..self }
    }

    /// Require every cited source to exist.
    pub fn validate_sources(self) -> (r: QueryOptions)
        ensures
            r.validate_sources,
            r.timeout_ms == self.timeout_ms,
            r.confidence_threshold == self.confidence_threshold,
            r.verbose == self.verbose,
    {
        QueryOptions { validate_sources: true, ..self }
    }

    /// Ask for verbose output.
    pub fn verbose(self) -> (r: QueryOptions)
        ensures
            r.verbose,
            r.timeout_ms == self.timeout_ms,
            r.confidence_threshold == self.confidence_threshold,
            r.validate_sources == self.validate_sources,
    {
        QueryOptions { verbose: true, ..self }
    }
}

/// The engine that runs queries: an adapter plus the post-hoc checks
/// applied to every answer. The model transport runs outside.
#[derive(Debug)]
pub struct QueryEngine {
    pub adapter: ClaudeAdapter,
}

impl QueryEngine {
    /// An engine around a default adapter.
    pub fn new() -> (r: QueryEngine)
        ensures
            r.adapter.model@ == crate::adapter::DEFAULT_MODEL@,
            r.adapter.max_turns == crate::adapter::DEFAULT_MAX_TURNS,
    {
        QueryEngine { adapter: ClaudeAdapter::new() }
    }

    /// An engine around the given adapter.
    pub fn with_adapter(adapter: ClaudeAdapter) -> (r: QueryEngine)
        ensures
            r.adapter == adapter,
    {
        QueryEngine { adapter }
    }

    /// The confidence floor a query runs under: the options' floor
    /// wins, else the navigator's configured one.
    pub fn effective_threshold(options: &QueryOptions, navigator_threshold: Option<u32>) -> (r:
        Option<u32>)
        ensures
            options.confidence_threshold is Some ==> r == options.confidence_threshold,
            options.confidence_threshold is None ==> r == navigator_threshold,
    {
        match options.confidence_threshold {
            Some(t) => Some(t),
            None => navigator_threshold,
        }
    }

    /// Apply the post-hoc checks to an answer: when asked for, every
    /// cited source must carry an acceptable path (no traversal, not
    /// absolute) naming a knowledge-base file, and the confidence
    /// floor, when one is set, must be met; a rejected answer is a
    /// typed query failure, never a partial answer.
    pub fn check_response(
        &self,
        response: &NavigatorResponse,
        existing: &Vec<String>,
        options: &QueryOptions,
        navigator_threshold: Option<u32>,
    ) -> (r: Result<(), AutonavError>)
        ensures
            r is Ok <==> {
                &&& (options.validate_sources ==> forall|i: int|
                    0 <= i < response.sources@.len() ==> crate::validation::source_accepted(
                        existing@,
                        (#[trigger] response.sources@[i]).file@,
                    ))
                &&& match (options.confidence_threshold, navigator_threshold) {
                    (Some(t), _) => response.confidence >= t,
                    (None, Some(t)) => response.confidence >= t,
                    (None, None) => true,
                }
            },
            r is Err ==> r->Err_0 is QueryError,
    {
        if options.validate_sources {
            match crate::validation::validate_sources_exist(response, existing) {
                Ok(()) => {},
                Err(_e) => {
                    return Err(AutonavError::QueryError(String::from_str("Source file not found")));
                },
            }
        }
        let threshold = Self::effective_threshold(options, navigator_threshold);
        if let Some(t) = threshold {
            match crate::validation::validate_confidence(response, t) {
                Ok(()) => {},
                Err(_e) => {
                    return Err(
                        AutonavError::QueryError(
                            String::from_str("Confidence threshold not met"),
                        ),
                    );
                },
            }
        }
        Ok(())
    }
}

/// The text of several chat messages joined into one question.
pub open spec fn joined_messages(msgs: Seq<String>) -> Seq<char>
    decreases msgs.len(),
{
    if msgs.len() == 0 {
        Seq::empty()
    } else if msgs.len() == 1 {
        msgs[0]@
    } else {
        msgs[0]@ + "\n\n"@ + joined_messages(msgs.drop_first())
    }
}

/// Join chat messages into the single question a conversation round
/// asks.
#[verifier::loop_isolation(false)]
pub fn join_messages(msgs: &Vec<String>) -> (r: String)
    ensures
        r@ == joined_messages(msgs@),
{
    let n = msgs.len();
    if n == 0 {
        return String::new();
    }
    let mut out = msgs[0].clone();
    let mut i: usize = 1;
    while i < n
        invariant
            1 <= i <= n,
            n == msgs@.len(),
            i < n ==> joined_messages(msgs@) == out@ + "\n\n"@ + joined_messages(
                msgs@.subrange(i as int, n as int),
            ),
            i == n ==> out@ == joined_messages(msgs@),
        decreases n - i,
    {
        let ghost pre = msgs@.subrange(i as int, n as int);
        proof {
            assert(pre[0] == msgs@[i as int]);
            assert(pre.drop_first() =~= msgs@.subrange(i + 1, n as int));
        }
        out.append("\n\n");
        out.append(msgs[i].as_str());
        i += 1;
    }
    out
}

/// How parse's whole-number form reads a text: an optional leading
/// plus, then digits that fit.
pub open spec fn bare_number(t: Seq<char>) -> Option<int> {
    let d = if t.len() > 0 && t[0] == '+' {
        t.drop_first()
    } else {
        t
    };
    if d.len() > 0 && all_digits(d) && digits_value(d) <= u64::MAX {
        Some(digits_value(d))
    } else {
        None
    }
}

/// Scan a run of digit groups with unit suffixes, accumulating
/// milliseconds: `s` seconds, `m` minutes, `h` hours; any other
/// character, an empty group before a unit, or a value out of range
/// fails; trailing digits without a unit are dropped; a zero total
/// fails.
pub open spec fn scan_units(t: Seq<char>, cur: Seq<char>, total: int) -> Option<int>
    decreases t.len(),
{
    if t.len() == 0 {
        if total > 0 {
            Some(total)
        } else {
            None
        }
    } else if is_digit(t[0]) {
        scan_units(t.drop_first(), cur.push(t[0]), total)
    } else if cur.len() == 0 {
        None
    } else if digits_value(cur) > u64::MAX {
        None
    } else {
        let unit: int = if t[0] == 's' {
            1000
        } else if t[0] == 'm' {
            60000
        } else if t[0] == 'h' {
            3600000
        } else {
            0
        };
        if unit == 0 {
            None
        } else if total + digits_value(cur) * unit > u64::MAX {
            None
        } else {
            scan_units(t.drop_first(), Seq::empty(), total + digits_value(cur) * unit)
        }
    }
}

/// What parsing a timeout text yields, in milliseconds: the text is
/// trimmed and lower-cased, a bare number counts as milliseconds, and
/// otherwise digit groups with `s`, `m` and `h` suffixes add up.
pub open spec fn parse_timeout_spec(raw: Seq<char>) -> Option<int> {
    let t = lower_seq(trimmed(raw));
    match bare_number(t) {
        Some(v) => Some(v),
        None => scan_units(t, Seq::empty(), 0),
    }
}

/// Parse a timeout such as "30s", "1m30s", "2h" or a bare number of
/// milliseconds.
#[verifier::loop_isolation(false)]
#[verifier::rlimit(100)]
pub fn parse_timeout(s: &str) -> (r: Option<u64>)
    ensures
        match r {
            Some(v) => parse_timeout_spec(s@) == Some(v as int),
            None => parse_timeout_spec(s@) is None,
        },
{
    let trimmed_text = crate::strutil::trim_ascii(s);
    let t = crate::strutil::to_ascii_lower(trimmed_text.as_str());
    let n = t.as_str().unicode_len();
    // the bare-number form
    let d_start: usize = if n > 0 && t.as_str().get_char(0) == '+' {
        1
    } else {
        0
    };
    if n > d_start {
        let digits_part = t.as_str().substring_char(d_start, n);
        proof {
            if d_start == 1 {
                assert(digits_part@ =~= t@.drop_first());
            } else {
                assert(digits_part@ =~= t@);
            }
        }
        match crate::decode::parse_uint(digits_part, 18446744073709551615) {
            Some(v) => {
                return Some(v);
            },
            None => {},
        }
    } else {
        proof {
            if n == 0 {
                assert(t@.len() == 0);
            } else {
                assert(t@.drop_first().len() == 0);
            }
        }
    }
    // the unit-suffix form
    proof {
        assert(t@.subrange(0, n as int) =~= t@);
    }
    let mut total: u64 = 0;
    let mut cur_val: u64 = 0;
    let mut cur_over = false;
    let mut cur_empty = true;
    let ghost mut gcur: Seq<char> = Seq::empty();
    let mut i: usize = 0;
    while i < n
        invariant
            i <= n,
            n == t@.len(),
            cur_empty <==> gcur.len() == 0,
            all_digits(gcur),
            !cur_over ==> cur_val == digits_value(gcur),
            cur_over ==> digits_value(gcur) > u64::MAX,
            scan_units(t@, Seq::empty(), 0) == scan_units(
                t@.subrange(i as int, n as int),
                gcur,
                total as int,
            ),
        decreases n - i,
    {
        let ghost remaining = t@.subrange(i as int, n as int);
        proof {
            assert(remaining[0] == t@[i as int]);
            assert(remaining.drop_first() =~= t@.subrange(i + 1, n as int));
        }
        let c = t.as_str().get_char(i);
        if '0' <= c && c <= '9' {
            let d: u64 = ((c as u8) - ('0' as u8)) as u64;
            let ghost old_gcur = gcur;
            proof {
                gcur = gcur.push(c);
                assert(gcur.drop_last() =~= old_gcur);
                assert(gcur.last() == c);
                assert(all_digits(gcur)) by {
                    assert(forall|j: int|
                        0 <= j < old_gcur.len() ==> #[trigger] gcur[j] == old_gcur[j]);
                }
                crate::strutil::lemma_digits_value_nonneg(old_gcur);
                assert(digits_value(gcur) == digits_value(old_gcur) * 10 + (c as int
                    - '0' as int));
            }
            if !cur_over {
                if cur_val <= (18446744073709551615u64 - d) / 10 {
                    proof {
                        assert(cur_val * 10 + d <= u64::MAX) by (nonlinear_arith)
                            requires
                                cur_val <= (18446744073709551615u64 - d) / 10,
                                d <= 9,
                                cur_val >= 0,
                        ;
                    }
                    cur_val = cur_val * 10 + d;
                } else {
                    cur_over = true;
                    proof {
                        assert(cur_val * 10 + d > u64::MAX) by (nonlinear_arith)
                            requires
                                cur_val > (18446744073709551615u64 - d) / 10,
                                d <= 9,
                                cur_val >= 0,
                        ;
                    }
                }
            } else {
                proof {
                    assert(digits_value(old_gcur) * 10 > u64::MAX) by (nonlinear_arith)
                        requires
                            digits_value(old_gcur) > u64::MAX,
                    ;
                }
            }
            cur_empty = false;
            i += 1;
            continue;
        }
        // a unit character closes the current digit group
        if cur_empty {
            return None;
        }
        if cur_over {
            return None;
        }
        let unit: u64 = if c == 's' {
            1000
        } else if c == 'm' {
            60000
        } else if c == 'h' {
            3600000
        } else {
            return None;
        };
        if cur_val > (18446744073709551615u64 - total) / unit {
            proof {
                assert(total + cur_val * unit > u64::MAX) by (nonlinear_arith)
                    requires
                        cur_val > ((18446744073709551615u64 - total) as int) / (unit as int),
                        unit >= 1000,
                        total <= u64::MAX,
                        cur_val >= 0,
                ;
            }
            return None;
        }
        proof {
            assert(total + cur_val * unit <= u64::MAX) by (nonlinear_arith)
                requires
                    cur_val <= ((18446744073709551615u64 - total) as int) / (unit as int),
                    unit >= 1,
                    total <= u64::MAX,
                    cur_val >= 0,
            ;
        }
        total = total + cur_val * unit;
        cur_val = 0;
        cur_empty = true;
        proof {
            gcur = Seq::empty();
        }
        i += 1;
    }
    proof {
        assert(t@.subrange(n as int, n as int) =~= Seq::<char>::empty());
    }
    if total > 0 {
        Some(total)
    } else {
        None
    }
}

} // verus!
