use vstd::prelude::*;
use crate::errors::AutonavError;
use crate::json::{JsonValue, lookup};
use crate::response::{NavigatorResponse, Source};
use crate::strutil::{all_digits, digits_value};
use crate::tools::{PluginStore, Tool, ToolResult};

verus! {

/// Model identifier used when none is chosen.
pub const DEFAULT_MODEL: &'static str = "sonnet-4-20250514";

/// Turn budget used when none is chosen.
pub const DEFAULT_MAX_TURNS: u32 = 10;

/// The client of the chat endpoint: which model to ask, how many turns
/// a query may take, and the credential to present. The transport that
/// carries requests lives outside; this adapter drives the conversation.
#[derive(Debug)]
pub struct ClaudeAdapter {
    pub model: String,
    pub max_turns: u32,
    pub api_key: Option<String>,
}

impl ClaudeAdapter {
    /// An adapter with default settings and no credential yet.
    pub fn new() -> (r: ClaudeAdapter)
        ensures
            r.model@ == DEFAULT_MODEL@,
            r.max_turns == DEFAULT_MAX_TURNS,
            r.api_key is None,
    {
        ClaudeAdapter {
            model: String::from_str(DEFAULT_MODEL),
            max_turns: DEFAULT_MAX_TURNS,
            api_key: None,
        }
    }

    /// Choose the model.
    pub fn with_model(self, model: &str) -> (r: ClaudeAdapter)
        ensures
            r.model@ == model@,
            r.max_turns == self.max_turns,
            r.api_key == self.api_key,
    {
        ClaudeAdapter { model: String::from_str(model), ..self }
    }

    /// Choose the turn budget.
    pub fn with_max_turns(self, max_turns: u32) -> (r: ClaudeAdapter)
        ensures
            r.max_turns == max_turns,
            r.model == self.model,
            r.api_key == self.api_key,
    {
        ClaudeAdapter { max_turns, ..self }
    }

    /// Supply the credential.
    pub fn with_api_key(self, api_key: &str) -> (r: ClaudeAdapter)
        ensures
            r.api_key matches Some(k) && k@ == api_key@,
            r.model == self.model,
            r.max_turns == self.max_turns,
    {
        ClaudeAdapter { api_key: Some(String::from_str(api_key)), ..self }
    }

    /// The credential, or the error a query without one fails with.
    pub fn api_key(&self) -> (r: Result<String, AutonavError>)
        ensures
            r is Ok <==> self.api_key is Some,
            r is Ok ==> r->Ok_0@ == self.api_key->0@,
            r is Err ==> r->Err_0 is ClaudeApiError,
    {
        match &self.api_key {
            Some(k) => Ok(k.clone()),
            None => Err(
                AutonavError::ClaudeApiError(String::from_str("ANTHROPIC_API_KEY not set")),
            ),
        }
    }
}

/// One message of the conversation history.
#[derive(Debug, Clone)]
pub struct Message {
    pub role: String,
    pub content: MessageContent,
}

/// What a message carries: plain text, the model's content blocks, or a
/// batch of tool results.
#[derive(Debug, Clone)]
pub enum MessageContent {
    Text(String),
    Blocks(Vec<ContentBlock>),
    ToolResults(Vec<ToolResult>),
}

/// One content block of a model response.
#[derive(Debug, Clone)]
pub enum ContentBlock {
    Text { text: String },
    ToolUse { id: String, name: String, input: JsonValue },
    ToolResult { tool_use_id: String, content: String },
}

/// What one model call returned: content blocks and a stop reason.
#[derive(Debug)]
pub struct ModelResponse {
    pub content: Vec<ContentBlock>,
    pub stop_reason: Option<String>,
}

/// The conversation history of one query, owned by the adapter loop and
/// discarded when the loop ends.
#[derive(Debug)]
pub struct Conversation {
    pub messages: Vec<Message>,
}

/// How one processed model response leaves the loop.
#[derive(Debug)]
pub enum StepOutcome {
    /// Tool results were appended; the model must be called again.
    Continue,
    /// A structured (or fallback) answer ends the loop.
    Answered(NavigatorResponse),
    /// The response ends the loop with no answer at all.
    NoAnswer,
}

/// The first text block's text.
pub open spec fn first_text(content: Seq<ContentBlock>) -> Option<Seq<char>>
    decreases content.len(),
{
    if content.len() == 0 {
        None
    } else {
        match content[0] {
            ContentBlock::Text { text } => Some(text@),
            _ => first_text(content.drop_first()),
        }
    }
}

/// Extract the first text block of a response, if any.
#[verifier::loop_isolation(false)]
pub fn extract_text(content: &Vec<ContentBlock>) -> (r: Option<String>)
    ensures
        match r {
            Some(t) => first_text(content@) == Some(t@),
            None => first_text(content@) is None,
        },
{
    let n = content.len();
    proof {
        assert(content@.subrange(0, n as int) =~= content@);
    }
    let mut i: usize = 0;
    while i < n
        invariant
            n == content@.len(),
            i <= n,
            first_text(content@) == first_text(content@.subrange(i as int, n as int)),
        decreases n - i,
    {
        let ghost pre = content@.subrange(i as int, n as int);
        proof {
            assert(pre[0] == content@[i as int]);
            assert(pre.drop_first() =~= content@.subrange(i + 1, n as int));
        }
        match &content[i] {
            ContentBlock::Text { text } => {
                return Some(text.clone());
            },
            _ => {},
        }
        i += 1;
    }
    proof {
        assert(content@.subrange(n as int, n as int) =~= Seq::<ContentBlock>::empty());
    }
    None
}

proof fn lemma_dot_index_bounds(t: Seq<char>, from: int)
    requires
        0 <= from,
    ensures
        dot_index(t, from) matches Some(i) ==> from <= i < t.len() && t[i] == '.',
    decreases t.len() - from,
{
    if from < t.len() && t[from] != '.' {
        lemma_dot_index_bounds(t, from + 1);
    }
}

/// Index of the first dot at or after `from`.
pub open spec fn dot_index(t: Seq<char>, from: int) -> Option<int>
    decreases t.len() - from,
{
    if from < 0 || from >= t.len() {
        None
    } else if t[from] == '.' {
        Some(from)
    } else {
        dot_index(t, from + 1)
    }
}

/// A plain decimal number text: digits, optionally a dot and more
/// digits.
pub open spec fn is_decimal_text(t: Seq<char>) -> bool {
    match dot_index(t, 0) {
        None => t.len() > 0 && all_digits(t),
        Some(d) => {
            &&& d > 0
            &&& d + 1 < t.len()
            &&& all_digits(t.subrange(0, d))
            &&& all_digits(t.subrange(d + 1, t.len() as int))
        },
    }
}

/// The fractional digits scaled to thousandths (the first three digits
/// count; shorter runs are padded).
pub open spec fn frac_milli(frac: Seq<char>) -> int {
    if frac.len() >= 3 {
        digits_value(frac.subrange(0, 3))
    } else if frac.len() == 2 {
        digits_value(frac) * 10
    } else if frac.len() == 1 {
        digits_value(frac) * 100
    } else {
        0
    }
}

/// A confidence number text read as thousandths, clamped into
/// `0..=1000`; a negative number clamps to zero, a malformed text yields
/// nothing.
pub open spec fn milli_of_text(t: Seq<char>) -> Option<int> {
    if t.len() > 0 && t[0] == '-' {
        if is_decimal_text(t.drop_first()) {
            Some(0)
        } else {
            None
        }
    } else if is_decimal_text(t) {
        let raw = match dot_index(t, 0) {
            None => digits_value(t) * 1000,
            Some(d) => digits_value(t.subrange(0, d)) * 1000 + frac_milli(
                t.subrange(d + 1, t.len() as int),
            ),
        };
        if raw > 1000 {
            Some(1000)
        } else {
            Some(raw)
        }
    } else {
        None
    }
}

#[verifier::loop_isolation(false)]
fn find_dot(t: &str) -> (r: Option<usize>)
    ensures
        match r {
            Some(d) => dot_index(t@, 0) == Some(d as int),
            None => dot_index(t@, 0) is None,
        },
{
    let n = t.unicode_len();
    let mut i: usize = 0;
    while i < n
        invariant
            n == t@.len(),
            i <= n,
            dot_index(t@, 0) == dot_index(t@, i as int),
        decreases n - i,
    {
        if t.get_char(i) == '.' {
            proof {
                assert(dot_index(t@, i as int) == Some(i as int));
            }
            return Some(i);
        }
        i += 1;
    }
    proof {
        assert(dot_index(t@, n as int) is None);
    }
    None
}

#[verifier::loop_isolation(false)]
fn digits_run(t: &str, a: usize, b: usize) -> (r: bool)
    requires
        a <= b <= t@.len(),
    ensures
        r == all_digits(t@.subrange(a as int, b as int)),
{
    let mut i: usize = a;
    while i < b
        invariant
            a <= i <= b <= t@.len(),
            forall|j: int| a <= j < i ==> crate::strutil::is_digit(#[trigger] t@[j]),
        decreases b - i,
    {
        let c = t.get_char(i);
        if !('0' <= c && c <= '9') {
            proof {
                assert(t@.subrange(a as int, b as int)[i - a] == t@[i as int]);
            }
            return false;
        }
        i += 1;
    }
    proof {
        assert forall|j: int| 0 <= j < b - a implies crate::strutil::is_digit(
            #[trigger] t@.subrange(a as int, b as int)[j],
        ) by {
            assert(t@.subrange(a as int, b as int)[j] == t@[j + a]);
        }
    }
    true
}

/// Read a confidence number text as clamped thousandths.
#[verifier::loop_isolation(false)]
#[verifier::rlimit(30)]
pub fn parse_confidence_milli(t: &str) -> (r: Option<u32>)
    ensures
        match r {
            Some(m) => milli_of_text(t@) == Some(m as int),
            None => milli_of_text(t@) is None,
        },
{
    let n = t.unicode_len();
    if n > 0 && t.get_char(0) == '-' {
        // a negative confidence clamps to zero when the rest is a number
        let rest = t.substring_char(1, n);
        proof {
            assert(rest@ == t@.drop_first());
        }
        let ok = match find_dot(rest) {
            None => {
                let m = rest.unicode_len();
                proof {
                    assert(rest@.subrange(0, m as int) =~= rest@);
                }
                m > 0 && digits_run(rest, 0, m)
            },
            Some(d) => {
                let m = rest.unicode_len();
                proof {
                    lemma_dot_index_bounds(rest@, 0);
                }
                d > 0 && d + 1 < m && digits_run(rest, 0, d) && digits_run(rest, d + 1, m)
            },
        };
        if ok {
            return Some(0);
        } else {
            return None;
        }
    }
    match find_dot(t) {
        None => {
            proof {
                assert(t@.subrange(0, n as int) =~= t@);
            }
            if n == 0 || !digits_run(t, 0, n) {
                return None;
            }
            // any whole number of 1 or more clamps to 1000
            match crate::decode::parse_uint(t, 0) {
                Some(_z) => Some(0),
                None => {
                    proof {
                        crate::strutil::lemma_digits_value_nonneg(t@);
                        assert(digits_value(t@) >= 1);
                        assert(digits_value(t@) * 1000 >= 1000) by (nonlinear_arith)
                            requires
                                digits_value(t@) >= 1,
                        ;
                    }
                    Some(1000)
                },
            }
        },
        Some(d) => {
            proof {
                lemma_dot_index_bounds(t@, 0);
            }
            if !(d > 0 && d + 1 < n) {
                return None;
            }
            if !digits_run(t, 0, d) || !digits_run(t, d + 1, n) {
                return None;
            }
            let ip = t.substring_char(0, d);
            proof {
                assert(ip@ == t@.subrange(0, d as int));
            }
            let ip_val = crate::decode::parse_uint(ip, 1);
            let frac_start = d + 1;
            let frac_len = n - frac_start;
            let k: usize = if frac_len >= 3 {
                3
            } else {
                frac_len
            };
            let frac = t.substring_char(frac_start, frac_start + k);
            proof {
                assert(frac@ == t@.subrange(frac_start as int, frac_start + k));
                assert(all_digits(frac@)) by {
                    assert forall|j: int| 0 <= j < frac@.len() implies crate::strutil::is_digit(
                        #[trigger] frac@[j],
                    ) by {
                        assert(frac@[j] == t@.subrange(d + 1, n as int)[j]);
                    }
                }
            }
            let frac_val = match crate::decode::parse_uint(frac, 999) {
                Some(v) => v,
                None => {
                    proof {
                        lemma_digits_upper(frac@);
                    }
                    999
                },
            };
            let scale: u64 = if k == 3 {
                1
            } else if k == 2 {
                10
            } else {
                100
            };
            let ghost full_frac = t@.subrange(d + 1, n as int);
            proof {
                if k < 3 {
                    assert(full_frac =~= frac@);
                }
                if k == 3 {
                    assert(full_frac.subrange(0, 3) =~= frac@);
                }
                lemma_frac_scale_bound(frac@, scale as int);
            }
            let fm: u64 = frac_val * scale;
            match ip_val {
                Some(iv) => {
                    let raw: u64 = iv * 1000 + fm;
                    if raw > 1000 {
                        Some(1000)
                    } else {
                        Some(raw as u32)
                    }
                },
                None => {
                    proof {
                        let ipd = t@.subrange(0, d as int);
                        crate::strutil::lemma_digits_value_nonneg(ipd);
                        assert(digits_value(ipd) >= 2);
                        assert(digits_value(ipd) * 1000 >= 2000) by (nonlinear_arith)
                            requires
                                digits_value(ipd) >= 2,
                        ;
                        assert(frac_milli(full_frac) >= 0) by {
                            lemma_frac_nonneg(full_frac);
                        }
                    }
                    Some(1000)
                },
            }
        },
    }
}

proof fn lemma_frac_nonneg(frac: Seq<char>)
    requires
        all_digits(frac),
    ensures
        frac_milli(frac) >= 0,
{
    if frac.len() >= 3 {
        let sub = frac.subrange(0, 3);
        assert(all_digits(sub)) by {
            assert(forall|j: int| 0 <= j < 3 ==> #[trigger] sub[j] == frac[j]);
        }
        crate::strutil::lemma_digits_value_nonneg(sub);
    } else {
        crate::strutil::lemma_digits_value_nonneg(frac);
        if frac.len() == 2 {
            assert(digits_value(frac) * 10 >= 0) by (nonlinear_arith)
                requires
                    digits_value(frac) >= 0,
            ;
        } else if frac.len() == 1 {
            assert(digits_value(frac) * 100 >= 0) by (nonlinear_arith)
                requires
                    digits_value(frac) >= 0,
            ;
        }
    }
}

proof fn lemma_digits_tiny(s: Seq<char>)
    requires
        all_digits(s),
        s.len() <= 1,
    ensures
        0 <= digits_value(s) <= 9,
{
    crate::strutil::lemma_digits_value_nonneg(s);
    if s.len() == 1 {
        assert(s.drop_last().len() == 0);
        assert(digits_value(s.drop_last()) == 0);
    }
}

proof fn lemma_digits_small(s: Seq<char>)
    requires
        all_digits(s),
        s.len() <= 2,
    ensures
        0 <= digits_value(s) <= 99,
{
    crate::strutil::lemma_digits_value_nonneg(s);
    if s.len() == 2 {
        let pre = s.drop_last();
        assert(all_digits(pre)) by {
            assert(forall|j: int| 0 <= j < pre.len() ==> #[trigger] pre[j] == s[j]);
        }
        lemma_digits_tiny(pre);
        assert(digits_value(pre) * 10 <= 90) by (nonlinear_arith)
            requires
                0 <= digits_value(pre) <= 9,
        ;
    } else {
        lemma_digits_tiny(s);
    }
}

proof fn lemma_digits_upper(s: Seq<char>)
    requires
        all_digits(s),
        s.len() <= 3,
    ensures
        0 <= digits_value(s) <= 999,
{
    crate::strutil::lemma_digits_value_nonneg(s);
    if s.len() == 3 {
        let pre = s.drop_last();
        assert(all_digits(pre)) by {
            assert(forall|j: int| 0 <= j < pre.len() ==> #[trigger] pre[j] == s[j]);
        }
        lemma_digits_small(pre);
        assert(digits_value(pre) * 10 <= 990) by (nonlinear_arith)
            requires
                0 <= digits_value(pre) <= 99,
        ;
    } else {
        lemma_digits_small(s);
    }
}

proof fn lemma_frac_scale_bound(frac: Seq<char>, scale: int)
    requires
        all_digits(frac),
        frac.len() == 3 ==> scale == 1,
        frac.len() == 2 ==> scale == 10,
        frac.len() == 1 ==> scale == 100,
        1 <= frac.len() <= 3,
    ensures
        digits_value(frac) * scale <= 999,
        digits_value(frac) * scale >= 0,
{
    crate::strutil::lemma_digits_value_nonneg(frac);
    if frac.len() == 3 {
        lemma_digits_upper(frac);
    } else if frac.len() == 2 {
        lemma_digits_small(frac);
        assert(digits_value(frac) * 10 <= 999 && digits_value(frac) * 10 >= 0) by (nonlinear_arith)
            requires
                0 <= digits_value(frac) <= 99,
        ;
    } else {
        lemma_digits_tiny(frac);
        assert(digits_value(frac) * 100 <= 999 && digits_value(frac) * 100 >= 0)
            by (nonlinear_arith)
            requires
                0 <= digits_value(frac) <= 9,
        ;
    }
}


/// The `answer` string of a submit-answer input, when there is one.
pub open spec fn input_answer(input: JsonValue) -> Option<Seq<char>> {
    match input {
        JsonValue::Obj(e) => match lookup(e@, "answer"@) {
            Some(JsonValue::Str(s)) => Some(s@),
            _ => None,
        },
        _ => None,
    }
}

/// The confidence of a submit-answer input, in thousandths: a readable
/// number clamped into range; anything absent or malformed takes the
/// default of one half.
pub open spec fn input_confidence(input: JsonValue) -> int {
    match input {
        JsonValue::Obj(e) => match lookup(e@, "confidence"@) {
            Some(JsonValue::Num(n)) => match milli_of_text(n@) {
                Some(m) => m,
                None => 500,
            },
            _ => 500,
        },
        _ => 500,
    }
}

/// One source object's texts, when it has the three string fields.
pub open spec fn source_triple(v: JsonValue) -> Option<(Seq<char>, Seq<char>, Seq<char>)> {
    match v {
        JsonValue::Obj(e) => {
            match (lookup(e@, "file"@), lookup(e@, "section"@), lookup(e@, "relevance"@)) {
                (
                    Some(JsonValue::Str(f)),
                    Some(JsonValue::Str(s)),
                    Some(JsonValue::Str(r)),
                ) => Some((f@, s@, r@)),
                _ => None,
            }
        },
        _ => None,
    }
}

/// The texts of a list of source objects, or nothing when one of them
/// is malformed.
pub open spec fn source_triples(items: Seq<JsonValue>) -> Option<
    Seq<(Seq<char>, Seq<char>, Seq<char>)>,
>
    decreases items.len(),
{
    if items.len() == 0 {
        Some(Seq::empty())
    } else {
        match source_triple(items[0]) {
            Some(t) => match source_triples(items.drop_first()) {
                Some(rest) => Some(seq![t] + rest),
                None => None,
            },
            None => None,
        }
    }
}

/// The sources of a submit-answer input: a well-formed list is taken as
/// given, anything else degrades to no sources at all.
pub open spec fn input_sources(input: JsonValue) -> Seq<(Seq<char>, Seq<char>, Seq<char>)> {
    match input {
        JsonValue::Obj(e) => match lookup(e@, "sources"@) {
            Some(JsonValue::Arr(items)) => match source_triples(items@) {
                Some(ts) => ts,
                None => Seq::empty(),
            },
            _ => Seq::empty(),
        },
        _ => Seq::empty(),
    }
}

/// The texts of decoded sources, for stating contracts.
pub open spec fn triples_of(s: Seq<Source>) -> Seq<(Seq<char>, Seq<char>, Seq<char>)> {
    s.map_values(|src: Source| (src.file@, src.section@, src.relevance@))
}

#[verifier::loop_isolation(false)]
fn decode_sources(items: &Vec<JsonValue>) -> (r: Option<Vec<Source>>)
    ensures
        match r {
            Some(srcs) => source_triples(items@) == Some(triples_of(srcs@)),
            None => source_triples(items@) is None,
        },
{
    let n = items.len();
    let mut out: Vec<Source> = Vec::new();
    proof {
        assert(items@.subrange(0, n as int) =~= items@);
        assert(triples_of(out@) =~= Seq::<(Seq<char>, Seq<char>, Seq<char>)>::empty());
    }
    let mut i: usize = 0;
    while i < n
        invariant
            n == items@.len(),
            i <= n,
            source_triples(items@) is Some <==> source_triples(
                items@.subrange(i as int, n as int),
            ) is Some,
            source_triples(items@) matches Some(all) ==> source_triples(
                items@.subrange(i as int, n as int),
            ) matches Some(rest) && all == triples_of(out@) + rest,
        decreases n - i,
    {
        let ghost pre = items@.subrange(i as int, n as int);
        proof {
            assert(pre[0] == items@[i as int]);
            assert(pre.drop_first() =~= items@.subrange(i + 1, n as int));
        }
        let item = &items[i];
        let file = match crate::json::get(item, "file") {
            Some(JsonValue::Str(f)) => f.clone(),
            _ => {
                return None;
            },
        };
        let section = match crate::json::get(item, "section") {
            Some(JsonValue::Str(sec)) => sec.clone(),
            _ => {
                return None;
            },
        };
        let relevance = match crate::json::get(item, "relevance") {
            Some(JsonValue::Str(rel)) => rel.clone(),
            _ => {
                return None;
            },
        };
        let ghost before_out = out@;
        out.push(Source { file, section, relevance });
        proof {
            match source_triples(items@) {
                Some(_all) => {
                    assert(triples_of(out@) =~= triples_of(before_out).push(
                        source_triple(items@[i as int])->0,
                    ));
                    assert(triples_of(before_out) + source_triples(pre).unwrap() =~= triples_of(
                        out@,
                    ) + source_triples(pre.drop_first()).unwrap());
                }
                None => {}
            }
        }
        i += 1;
    }
    proof {
        assert(items@.subrange(n as int, n as int) =~= Seq::<JsonValue>::empty());
        match source_triples(items@) {
            Some(all) => {
                assert(all =~= triples_of(out@));
            }
            None => {}
        }
    }
    Some(out)
}

/// Build the answer a submit-answer call hands in: the answer text is
/// required, a missing confidence defaults to one half, and malformed
/// sources degrade to an empty list rather than failing.
pub fn handle_submit(question: &str, input: &JsonValue) -> (r: Result<
    NavigatorResponse,
    AutonavError,
>)
    ensures
        r is Ok <==> input_answer(*input) is Some,
        r is Err ==> (r->Err_0 matches AutonavError::ToolError(m) && m@
            == "Missing answer field"@),
        r is Ok ==> {
            let a = r->Ok_0;
            &&& a.answer@ == input_answer(*input)->0
            &&& a.confidence == input_confidence(*input)
            &&& triples_of(a.sources@) == input_sources(*input)
            &&& a.query@ == question@
            &&& a.protocol_version@ == crate::PROTOCOL_VERSION@
            &&& a.metadata@.len() == 0
            &&& a.timestamp is Some
            &&& a.wf()
        },
{
    let answer: String = match crate::json::get(input, "answer") {
        Some(JsonValue::Str(s)) => s.clone(),
        _ => {
            return Err(AutonavError::ToolError(String::from_str("Missing answer field")));
        },
    };
    let confidence: u32 = match crate::json::get(input, "confidence") {
        Some(JsonValue::Num(txt)) => {
            match parse_confidence_milli(txt.as_str()) {
                Some(m) => m,
                None => 500,
            }
        },
        _ => 500,
    };
    let sources: Vec<Source> = match crate::json::get(input, "sources") {
        Some(JsonValue::Arr(items)) => {
            match decode_sources(items) {
                Some(s) => s,
                None => Vec::new(),
            }
        },
        _ => Vec::new(),
    };
    proof {
        if sources@.len() == 0 {
            assert(triples_of(sources@) =~= Seq::<(Seq<char>, Seq<char>, Seq<char>)>::empty());
        }
    }
    let mut r = NavigatorResponse::new(question, answer.as_str(), confidence);
    r.sources = sources;
    Ok(r)
}


/// Run one requested tool. A submit-answer call yields the answer that
/// ends the loop; the two configuration tools run against the store; an
/// unknown tool name is an error that fails the query.
pub fn execute_tool(name: &str, input: JsonValue, question: &str, store: &mut PluginStore) -> (r:
    Result<(JsonValue, Option<NavigatorResponse>), AutonavError>)
    ensures
        r is Err ==> r->Err_0 is ToolError,
        name@ == "submit_answer"@ ==> {
            &&& *final(store) == *old(store)
            &&& (r is Ok <==> input_answer(input) is Some)
            &&& (r is Err ==> (r->Err_0 matches AutonavError::ToolError(m) && m@
                == "Missing answer field"@))
            &&& r is Ok ==> {
                let a = r->Ok_0.1->0;
                &&& r->Ok_0.1 is Some
                &&& a.answer@ == input_answer(input)->0
                &&& a.confidence == input_confidence(input)
                &&& triples_of(a.sources@) == input_sources(input)
                &&& a.query@ == question@
                &&& a.wf()
            }
        },
        name@ == "get_plugin_config"@ ==> {
            &&& *final(store) == *old(store)
            &&& (r is Ok <==> {
                &&& crate::tools::input_plugin(input) is Some
                &&& old(store).doc is Some
                &&& (crate::tools::known_plugin_name(crate::tools::input_plugin(input)->0)
                    || crate::tools::input_plugin(input)->0 == "all"@)
            })
            &&& r is Ok ==> r->Ok_0.1 is None
        },
        name@ == "update_plugin_config"@ ==> {
            &&& (r is Ok <==> {
                &&& crate::tools::input_plugin(input) is Some
                &&& crate::tools::known_plugin_name(crate::tools::input_plugin(input)->0)
                &&& crate::tools::input_reason(input) is Some
                &&& (input matches JsonValue::Obj(e) && lookup(e@, "updates"@) is Some)
                &&& (old(store).doc matches Some(d) && d is Obj)
            })
            &&& r is Ok ==> (r->Ok_0.1 is None && (final(store).doc matches Some(nd) && nd
                is Obj))
            &&& r is Err ==> final(store).doc == old(store).doc
        },
        (name@ != "submit_answer"@ && name@ != "get_plugin_config"@ && name@
            != "update_plugin_config"@) ==> (r is Err && *final(store) == *old(store)),
{
    proof {
        broadcast use vstd::string::group_string_axioms;

        reveal_strlit("submit_answer");
        reveal_strlit("get_plugin_config");
        reveal_strlit("update_plugin_config");
        assert("submit_answer"@.len() == 13);
        assert("get_plugin_config"@.len() == 17);
        assert("update_plugin_config"@.len() == 20);
        assert("submit_answer"@ != "get_plugin_config"@);
        assert("submit_answer"@ != "update_plugin_config"@);
        assert("get_plugin_config"@ != "update_plugin_config"@);
    }
    if crate::strutil::str_eq(name, "submit_answer") {
        match handle_submit(question, &input) {
            Ok(a) => Ok((JsonValue::Null, Some(a))),
            Err(e) => Err(e),
        }
    } else if crate::strutil::str_eq(name, "get_plugin_config") {
        match crate::tools::get_plugin_config(&input, store) {
            Ok(out) => Ok((out, None)),
            Err(e) => Err(e),
        }
    } else if crate::strutil::str_eq(name, "update_plugin_config") {
        match crate::tools::update_plugin_config(input, store) {
            Ok(out) => Ok((out, None)),
            Err(e) => Err(e),
        }
    } else {
        Err(AutonavError::ToolError(String::from_str("Unknown tool")))
    }
}

/// The stop reason read as one of the loop's three cases.
pub open spec fn is_tool_use_stop(stop: Option<String>) -> bool {
    stop matches Some(s) && s@ == "tool_use"@
}

pub open spec fn is_end_turn_stop(stop: Option<String>) -> bool {
    stop is None || (stop matches Some(s) && s@ == "end_turn"@)
}

/// The first submit-answer tool request of a turn.
pub open spec fn first_submit(content: Seq<ContentBlock>) -> Option<ContentBlock>
    decreases content.len(),
{
    if content.len() == 0 {
        None
    } else if content[0] matches ContentBlock::ToolUse { name, .. } && name@
        == "submit_answer"@ {
        Some(content[0])
    } else {
        first_submit(content.drop_first())
    }
}

/// Whether the store holds a configuration document (an object).
pub open spec fn doc_is_obj(store: PluginStore) -> bool {
    store.doc matches Some(d) && d is Obj
}

/// Whether one tool request is sure to succeed: a well-formed
/// submit-answer call, or a configuration call with a complete input
/// while a configuration document is held; any block that requests no
/// tool asks nothing and cannot fail.
pub open spec fn tool_block_ok(b: ContentBlock, doc_obj: bool) -> bool {
    match b {
        ContentBlock::ToolUse { name, input, .. } => {
            if name@ == "submit_answer"@ {
                input_answer(input) is Some
            } else if name@ == "get_plugin_config"@ {
                &&& crate::tools::input_plugin(input) is Some
                &&& (crate::tools::known_plugin_name(crate::tools::input_plugin(input)->0)
                    || crate::tools::input_plugin(input)->0 == "all"@)
                &&& doc_obj
            } else if name@ == "update_plugin_config"@ {
                &&& crate::tools::input_plugin(input) is Some
                &&& crate::tools::known_plugin_name(crate::tools::input_plugin(input)->0)
                &&& crate::tools::input_reason(input) is Some
                &&& (input matches JsonValue::Obj(e) && lookup(e@, "updates"@) is Some)
                &&& doc_obj
            } else {
                false
            }
        },
        _ => true,
    }
}

/// The input-side conditions one tool request needs, whatever the
/// store holds: without them the call fails, whatever else is true.
pub open spec fn tool_block_wf(b: ContentBlock) -> bool {
    match b {
        ContentBlock::ToolUse { name, input, .. } => {
            if name@ == "submit_answer"@ {
                input_answer(input) is Some
            } else if name@ == "get_plugin_config"@ {
                &&& crate::tools::input_plugin(input) is Some
                &&& (crate::tools::known_plugin_name(crate::tools::input_plugin(input)->0)
                    || crate::tools::input_plugin(input)->0 == "all"@)
            } else if name@ == "update_plugin_config"@ {
                &&& crate::tools::input_plugin(input) is Some
                &&& crate::tools::known_plugin_name(crate::tools::input_plugin(input)->0)
                &&& crate::tools::input_reason(input) is Some
                &&& (input matches JsonValue::Obj(e) && lookup(e@, "updates"@) is Some)
            } else {
                false
            }
        },
        _ => true,
    }
}

/// A turn whose every tool request is sure to succeed, given whether a
/// configuration document is held.
pub open spec fn turn_tools_ok(m: ModelResponse, doc_obj: bool) -> bool {
    &&& is_tool_use_stop(m.stop_reason)
    &&& forall|i: int|
        0 <= i < m.content@.len() ==> tool_block_ok(#[trigger] m.content@[i], doc_obj)
}

/// A response that ends the query with no answer at all: an unexpected
/// stop reason, or an ordinary completion without any text block.
pub open spec fn gives_no_answer(m: ModelResponse) -> bool {
    ||| (!is_tool_use_stop(m.stop_reason) && !is_end_turn_stop(m.stop_reason))
    ||| (is_end_turn_stop(m.stop_reason) && first_text(m.content@) is None)
}

/// Start a conversation with the templated first user message.
pub fn begin_conversation(question: &str) -> (r: Conversation)
    ensures
        r.messages@.len() == 1,
        r.messages@[0].role@ == "user"@,
        r.messages@[0].content matches MessageContent::Text(t) && t@
            == crate::prompts::ANSWER_PROMPT_HEAD@ + question@ + crate::prompts::ANSWER_PROMPT_TAIL@,
{
    let text = crate::prompts::create_answer_question_prompt(question);
    let mut messages: Vec<Message> = Vec::new();
    messages.push(Message { role: String::from_str("user"), content: MessageContent::Text(text) });
    Conversation { messages }
}

/// The tools advertised for a query: submitting an answer always, the
/// two self-configuration tools only when a plugin-configuration path
/// exists.
pub fn build_tools(has_plugin_config: bool) -> (r: Vec<Tool>)
    ensures
        has_plugin_config ==> r@.len() == 3,
        !has_plugin_config ==> r@.len() == 1,
        r@[0].name@ == "submit_answer"@,
        has_plugin_config ==> r@[1].name@ == "get_plugin_config"@ && r@[2].name@
            == "update_plugin_config"@,
{
    let mut tools: Vec<Tool> = Vec::new();
    tools.push(crate::tools::submit_answer_tool());
    if has_plugin_config {
        let mut extra = crate::tools::self_config_tools();
        proof {
            assert(extra@[0].name@ == "get_plugin_config"@);
        }
        tools.append(&mut extra);
    }
    tools
}

/// Process one model response: dispatch the requested tools, append the
/// turn's messages, and decide whether the loop continues, ends with an
/// answer, or ends with nothing.
#[verifier::loop_isolation(false)]
#[verifier::rlimit(60)]
pub fn process_response(
    state: &mut Conversation,
    response: ModelResponse,
    question: &str,
    store: &mut PluginStore,
) -> (r: Result<StepOutcome, AutonavError>)
    ensures
        turn_tools_ok(response, doc_is_obj(*old(store))) ==> {
            &&& doc_is_obj(*final(store)) == doc_is_obj(*old(store))
            &&& match first_submit(response.content@) {
                Some(b) => r matches Ok(StepOutcome::Answered(a)) && {
                    let input = b->ToolUse_input;
                    &&& a.answer@ == input_answer(input)->0
                    &&& a.confidence == input_confidence(input)
                    &&& triples_of(a.sources@) == input_sources(input)
                    &&& a.query@ == question@
                    &&& a.wf()
                },
                None => r matches Ok(StepOutcome::Continue),
            }
        },
        is_end_turn_stop(response.stop_reason) ==> {
            &&& *final(store) == *old(store)
            &&& match first_text(response.content@) {
                Some(text) => r matches Ok(StepOutcome::Answered(a)) && a.answer@ == text
                    && a.confidence == 500 && a.sources@.len() == 0 && a.query@ == question@,
                None => r matches Ok(StepOutcome::NoAnswer),
            }
        },
        (!is_tool_use_stop(response.stop_reason) && !is_end_turn_stop(response.stop_reason)) ==> {
            &&& r matches Ok(StepOutcome::NoAnswer)
            &&& *final(store) == *old(store)
        },
        (is_tool_use_stop(response.stop_reason) && (exists|i: int|
            0 <= i < response.content@.len() && !tool_block_wf(
                #[trigger] response.content@[i],
            ))) ==> (r matches Err(e) && e is ToolError),
{
    proof {
        broadcast use vstd::string::group_string_axioms;

        reveal_strlit("tool_use");
        reveal_strlit("end_turn");
        assert("tool_use"@[0] == 't' && "end_turn"@[0] == 'e');
        assert("tool_use"@ != "end_turn"@);
    }
    let ModelResponse { content, stop_reason } = response;
    let is_tool_use = match &stop_reason {
        Some(s) => crate::strutil::str_eq(s.as_str(), "tool_use"),
        None => false,
    };
    let is_end_turn = match &stop_reason {
        Some(s) => crate::strutil::str_eq(s.as_str(), "end_turn"),
        None => true,
    };
    if is_tool_use {
        proof {
            reveal_strlit("submit_answer");
            reveal_strlit("get_plugin_config");
            reveal_strlit("update_plugin_config");
            assert("submit_answer"@.len() == 13);
            assert("get_plugin_config"@.len() == 17);
            assert("update_plugin_config"@.len() == 20);
            assert("submit_answer"@ != "get_plugin_config"@);
            assert("submit_answer"@ != "update_plugin_config"@);
            assert("get_plugin_config"@ != "update_plugin_config"@);
        }
        let history_blocks = content.clone();
        let mut rest = content;
        let mut results: Vec<ToolResult> = Vec::new();
        let mut answer: Option<NavigatorResponse> = None;
        let ghost orig = rest@;
        let ghost n = orig.len();
        let ghost doc_obj0 = doc_is_obj(*old(store));
        let ghost all_ok = forall|i: int|
            0 <= i < n ==> tool_block_ok(#[trigger] orig[i], doc_obj0);
        proof {
            assert(orig.subrange(0, n as int) =~= orig);
        }
        loop
            invariant
                rest@.len() <= n,
                rest@ =~= orig.subrange(n - rest@.len(), n as int),
                forall|j: int| 0 <= j < n - rest@.len() ==> tool_block_wf(#[trigger] orig[j]),
                all_ok ==> doc_is_obj(*store) == doc_obj0,
                all_ok ==> match answer {
                    None => first_submit(rest@) == first_submit(orig),
                    Some(a) => match first_submit(orig) {
                        Some(b) => {
                            let input = b->ToolUse_input;
                            &&& a.answer@ == input_answer(input)->0
                            &&& a.confidence == input_confidence(input)
                            &&& triples_of(a.sources@) == input_sources(input)
                            &&& a.query@ == question@
                            &&& a.wf()
                        },
                        None => false,
                    },
                },
            decreases rest@.len(),
        {
            let ghost before = rest@;
            let ghost k = n - before.len();
            if rest.len() == 0 {
                break;
            }
            let block = rest.remove(0);
            proof {
                assert(before[0] == block);
                assert(block == orig[k]);
                assert(rest@ =~= before.drop_first());
                if all_ok {
                    assert(tool_block_ok(orig[k], doc_obj0));
                }
            }
            match block {
                ContentBlock::ToolUse { id, name, input } => {
                    let ghost ginput = input;
                    proof {
                        if name@ == "submit_answer"@ {
                            assert(first_submit(before) == Some(orig[k]));
                        } else {
                            assert(first_submit(before) == first_submit(before.drop_first()));
                        }
                    }
                    let exec_result = execute_tool(name.as_str(), input, question, store);
                    let (result, maybe_answer) = match exec_result {
                        Ok(pair) => pair,
                        Err(e) => {
                            proof {
                                if all_ok {
                                    assert(tool_block_ok(orig[k], doc_obj0));
                                    if name@ == "submit_answer"@ {
                                        assert(input_answer(ginput) is Some);
                                    } else if name@ == "get_plugin_config"@ {
                                        assert(doc_obj0);
                                    } else if name@ == "update_plugin_config"@ {
                                        assert(doc_obj0);
                                    }
                                    assert(false);
                                }
                            }
                            return Err(e);
                        },
                    };
                    proof {
                        if name@ == "submit_answer"@ {
                            assert(input_answer(ginput) is Some);
                        } else if name@ == "get_plugin_config"@ {
                            assert(crate::tools::input_plugin(ginput) is Some);
                        } else if name@ == "update_plugin_config"@ {
                            assert(crate::tools::input_reason(ginput) is Some);
                        } else {
                            assert(false);
                        }
                        assert(tool_block_wf(orig[k]));
                        if all_ok {
                            if name@ == "submit_answer"@ {
                                assert(maybe_answer is Some);
                            } else if name@ == "get_plugin_config"@ {
                                assert(maybe_answer is None);
                            } else if name@ == "update_plugin_config"@ {
                                assert(maybe_answer is None);
                                assert(doc_is_obj(*store));
                            }
                        }
                    }
                    results.push(ToolResult { tool_use_id: id, tool_name: name, result });
                    if answer.is_none() {
                        match maybe_answer {
                            Some(a) => {
                                answer = Some(a);
                            },
                            None => {},
                        }
                    }
                },
                _ => {
                    proof {
                        assert(first_submit(before) == first_submit(before.drop_first()));
                    }
                },
            }
        }
        proof {
            assert(first_submit(orig.subrange(n as int, n as int)) is None);
        }
        state.messages.push(
            Message {
                role: String::from_str("assistant"),
                content: MessageContent::Blocks(history_blocks),
            },
        );
        state.messages.push(
            Message {
                role: String::from_str("user"),
                content: MessageContent::ToolResults(results),
            },
        );
        match answer {
            Some(a) => Ok(StepOutcome::Answered(a)),
            None => Ok(StepOutcome::Continue),
        }
    } else if is_end_turn {
        match extract_text(&content) {
            Some(text) => {
                Ok(
                    StepOutcome::Answered(
                        NavigatorResponse::new(question, text.as_str(), 500),
                    ),
                )
            },
            None => Ok(StepOutcome::NoAnswer),
        }
    } else {
        Ok(StepOutcome::NoAnswer)
    }
}


/// Whether turn `k` of a script is the submitting turn: every earlier
/// turn keeps the loop going (tools sure to succeed, nothing
/// submitted), and turn `k` itself is a within-budget turn whose tools
/// are sure to succeed and which asks to submit an answer.
pub open spec fn submit_turn_at(
    script: Seq<ModelResponse>,
    k: int,
    max_turns: int,
    doc_obj: bool,
) -> bool {
    &&& 0 <= k < max_turns
    &&& k < script.len()
    &&& forall|i: int|
        0 <= i < k ==> turn_tools_ok(#[trigger] script[i], doc_obj) && first_submit(
            script[i].content@,
        ) is None
    &&& turn_tools_ok(script[k], doc_obj)
    &&& first_submit(script[k].content@) is Some
}

/// Run the whole agentic loop against a scripted sequence of model
/// responses, as a test harness or a deterministic driver would. The
/// returned count is the number of model calls made.
///
/// The loop's laws are stated here for every budget and script: a
/// within-budget turn that submits an answer, after turns that only
/// ran their tools, ends the loop within that same turn with exactly
/// the first submitted answer; a model that keeps requesting tools
/// without ever submitting is called exactly once per budgeted turn
/// and the query then fails with a typed error, never silently and
/// never with an extra call; a first turn that ends with plain text
/// yields that text as the fallback answer; and a turn that yields
/// neither tools nor text ends the query at once with the typed
/// failure.
#[verifier::loop_isolation(false)]
#[verifier::rlimit(100)]
pub fn run_query_script(
    max_turns: u32,
    question: &str,
    script: Vec<ModelResponse>,
    store: &mut PluginStore,
) -> (r: (Result<NavigatorResponse, AutonavError>, usize))
    ensures
        r.1 <= max_turns,
        r.1 <= script@.len(),
        forall|k: int|
            #[trigger] submit_turn_at(script@, k, max_turns as int, doc_is_obj(*old(store)))
                ==> {
                let input = first_submit(script@[k].content@)->0->ToolUse_input;
                &&& r.0 matches Ok(a) && {
                    &&& a.answer@ == input_answer(input)->0
                    &&& a.confidence == input_confidence(input)
                    &&& triples_of(a.sources@) == input_sources(input)
                    &&& a.query@ == question@
                    &&& a.wf()
                }
                &&& r.1 == k + 1
            },
        (max_turns >= 1 && script@.len() >= max_turns && (forall|i: int|
            0 <= i < max_turns ==> turn_tools_ok(#[trigger] script@[i], doc_is_obj(*old(store)))
                && first_submit(script@[i].content@) is None)) ==> {
            &&& r.0 matches Err(e) && e is QueryError
            &&& r.1 == max_turns
        },
        (max_turns >= 1 && script@.len() >= 1 && is_end_turn_stop(script@[0].stop_reason)
            && first_text(script@[0].content@) is Some) ==> {
            &&& r.0 matches Ok(a) && {
                &&& a.answer@ == first_text(script@[0].content@)->0
                &&& a.confidence == 500
                &&& a.sources@.len() == 0
                &&& a.query@ == question@
            }
            &&& r.1 == 1
        },
        (max_turns >= 1 && script@.len() >= 1 && gives_no_answer(script@[0])) ==> {
            &&& r.0 matches Err(e) && e is QueryError
            &&& r.1 == 1
        },
        max_turns == 0 ==> (r.0 matches Err(e) && e is QueryError && r.1 == 0),
{
    let ghost orig = script@;
    let ghost doc_obj0 = doc_is_obj(*old(store));
    let mut script = script;
    let mut state = begin_conversation(question);
    let mut calls: usize = 0;
    loop
        invariant
            calls <= max_turns,
            calls + script@.len() == orig.len(),
            script@ =~= orig.subrange(calls as int, orig.len() as int),
            forall|k: int|
                #[trigger] submit_turn_at(orig, k, max_turns as int, doc_obj0) ==> calls <= k,
            (max_turns >= 1 && orig.len() >= max_turns && (forall|i: int|
                0 <= i < max_turns ==> turn_tools_ok(#[trigger] orig[i], doc_obj0)
                    && first_submit(orig[i].content@) is None)) ==> doc_is_obj(*store)
                == doc_obj0,
            (exists|k: int| #[trigger] submit_turn_at(orig, k, max_turns as int, doc_obj0))
                ==> doc_is_obj(*store) == doc_obj0,
            (max_turns >= 1 && orig.len() >= 1 && is_end_turn_stop(orig[0].stop_reason)
                && first_text(orig[0].content@) is Some) ==> calls == 0,
            (max_turns >= 1 && orig.len() >= 1 && gives_no_answer(orig[0])) ==> calls == 0,
            calls == 0 ==> *store == *old(store),
        decreases max_turns - calls,
    {
        let ghost hyp_cont = max_turns >= 1 && orig.len() >= max_turns && (forall|i: int|
            0 <= i < max_turns ==> turn_tools_ok(#[trigger] orig[i], doc_obj0) && first_submit(
                orig[i].content@,
            ) is None);
        let ghost hyp_fallback = max_turns >= 1 && orig.len() >= 1 && is_end_turn_stop(
            orig[0].stop_reason,
        ) && first_text(orig[0].content@) is Some;
        let ghost hyp_noans = max_turns >= 1 && orig.len() >= 1 && gives_no_answer(orig[0]);
        if calls >= max_turns as usize {
            proof {
                assert forall|k: int|
                    #[trigger] submit_turn_at(orig, k, max_turns as int, doc_obj0)
                        implies false by {
                    assert(calls <= k);
                }
                if hyp_fallback {
                    assert(calls == 0);
                    assert(false);
                }
                if hyp_noans {
                    assert(calls == 0);
                    assert(false);
                }
            }
            break;
        }
        if script.len() == 0 {
            proof {
                assert forall|k: int|
                    #[trigger] submit_turn_at(orig, k, max_turns as int, doc_obj0)
                        implies false by {
                    assert(calls <= k && k < orig.len());
                }
                if hyp_cont {
                    assert(calls < max_turns);
                    assert(false);
                }
                if hyp_fallback {
                    assert(false);
                }
                if hyp_noans {
                    assert(false);
                }
            }
            break;
        }
        let response = script.remove(0);
        proof {
            assert(response == orig[calls as int]);
        }
        calls = calls + 1;
        let ghost store_at_call = *store;
        let ghost calls0 = calls - 1;
        let outcome = match process_response(&mut state, response, question, store) {
            Ok(o) => o,
            Err(e) => {
                proof {
                    assert forall|k: int|
                        #[trigger] submit_turn_at(orig, k, max_turns as int, doc_obj0)
                            implies false by {
                        assert(doc_is_obj(store_at_call) == doc_obj0);
                        if calls0 < k {
                            assert(turn_tools_ok(orig[calls0], doc_is_obj(store_at_call)));
                        } else {
                            assert(calls0 == k);
                            assert(turn_tools_ok(orig[k], doc_is_obj(store_at_call)));
                        }
                    }
                    if hyp_cont {
                        assert(turn_tools_ok(orig[calls0], doc_is_obj(store_at_call)));
                        assert(false);
                    }
                    if hyp_fallback {
                        assert(is_end_turn_stop(orig[0].stop_reason));
                        assert(false);
                    }
                    if hyp_noans {
                        assert(gives_no_answer(orig[0]));
                        assert(false);
                    }
                }
                return (Err(e), calls);
            },
        };
        match outcome {
            StepOutcome::Answered(a) => {
                proof {
                    assert forall|k: int|
                        #[trigger] submit_turn_at(orig, k, max_turns as int, doc_obj0)
                            implies k == calls0 by {
                        assert(doc_is_obj(store_at_call) == doc_obj0);
                        if calls0 < k {
                            assert(turn_tools_ok(orig[calls0], doc_is_obj(store_at_call)));
                            assert(first_submit(orig[calls0].content@) is None);
                            assert(false);
                        }
                    }
                    assert forall|k: int|
                        #[trigger] submit_turn_at(orig, k, max_turns as int, doc_obj0)
                            implies first_submit(orig[k].content@) is Some && a.query@
                            == question@ by {
                        assert(k == calls0);
                        assert(turn_tools_ok(orig[k], doc_is_obj(store_at_call)));
                    }
                    if hyp_cont {
                        assert(turn_tools_ok(orig[calls0], doc_is_obj(store_at_call)));
                        assert(first_submit(orig[calls0].content@) is None);
                        assert(false);
                    }
                    if hyp_noans {
                        assert(gives_no_answer(orig[0]));
                        assert(false);
                    }
                }
                return (Ok(a), calls);
            },
            StepOutcome::NoAnswer => {
                proof {
                    assert forall|k: int|
                        #[trigger] submit_turn_at(orig, k, max_turns as int, doc_obj0)
                            implies false by {
                        assert(doc_is_obj(store_at_call) == doc_obj0);
                        if calls0 < k {
                            assert(turn_tools_ok(orig[calls0], doc_is_obj(store_at_call)));
                        } else {
                            assert(calls0 == k);
                            assert(turn_tools_ok(orig[k], doc_is_obj(store_at_call)));
                        }
                    }
                    if hyp_cont {
                        assert(turn_tools_ok(orig[calls0], doc_is_obj(store_at_call)));
                        assert(false);
                    }
                    if hyp_fallback {
                        assert(is_end_turn_stop(orig[0].stop_reason));
                        assert(false);
                    }
                }
                return (
                    (Err(AutonavError::QueryError(String::from_str("No response generated")))),
                    calls,
                );
            },
            StepOutcome::Continue => {
                proof {
                    assert forall|k: int|
                        #[trigger] submit_turn_at(orig, k, max_turns as int, doc_obj0)
                            implies calls <= k && doc_is_obj(*store) == doc_obj0 by {
                        assert(doc_is_obj(store_at_call) == doc_obj0);
                        if calls0 == k {
                            assert(turn_tools_ok(orig[k], doc_is_obj(store_at_call)));
                            assert(false);
                        }
                        assert(calls0 < k);
                        assert(turn_tools_ok(orig[calls0], doc_is_obj(store_at_call)));
                    }
                    if hyp_cont {
                        assert(turn_tools_ok(orig[calls0], doc_is_obj(store_at_call)));
                    }
                    if hyp_fallback {
                        assert(is_end_turn_stop(orig[0].stop_reason));
                        assert(false);
                    }
                    if hyp_noans {
                        assert(gives_no_answer(orig[0]));
                        assert(false);
                    }
                }
            },
        }
    }
    (Err(AutonavError::QueryError(String::from_str("No response generated"))), calls)
}

} // verus!
