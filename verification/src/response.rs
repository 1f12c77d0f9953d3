use vstd::prelude::*;
use crate::json::JsonValue;

verus! {

/// A source reference cited by a navigator answer.
#[derive(Debug)]
pub struct Source {
    /// Path relative to the knowledge base.
    pub file: String,
    /// Section or heading reference.
    pub section: String,
    /// Why this source is relevant.
    pub relevance: String,
}

/// A navigator's answer to one query.
///
/// Confidence is carried in thousandths, so `850` stands for a confidence
/// of 0.85; a well-formed response keeps it at or below `1000`.
#[derive(Debug)]
pub struct NavigatorResponse {
    /// Protocol version this response speaks.
    pub protocol_version: String,
    /// The original question.
    pub query: String,
    /// The grounded answer text.
    pub answer: String,
    /// Sources cited by the answer, in citation order.
    pub sources: Vec<Source>,
    /// Confidence in thousandths, `0..=1000`.
    pub confidence: u32,
    /// Open metadata attached to the response.
    pub metadata: Vec<(String, JsonValue)>,
    /// Seconds since the Unix epoch when the response was produced.
    pub timestamp: Option<i64>,
}

impl NavigatorResponse {
    /// A response is well formed when its confidence is a valid fraction.
    pub open spec fn wf(&self) -> bool {
        self.confidence <= 1000
    }

    /// Build a response with no sources and no metadata, stamped with the
    /// current time.
    pub fn new(query: &str, answer: &str, confidence: u32) -> (r: NavigatorResponse)
        ensures
            r.protocol_version@ == crate::PROTOCOL_VERSION@,
            r.query@ == query@,
            r.answer@ == answer@,
            r.sources@.len() == 0,
            r.confidence == confidence,
            r.metadata@.len() == 0,
            r.timestamp is Some,
    {
        NavigatorResponse {
            protocol_version: String::from_str(crate::PROTOCOL_VERSION),
            query: String::from_str(query),
            answer: String::from_str(answer),
            sources: Vec::new(),
            confidence,
            metadata: Vec::new(),
            timestamp: Some(crate::clock::now_unix()),
        }
    }

    /// Append one cited source.
    pub fn with_source(self, file: &str, section: &str, relevance: &str) -> (r: NavigatorResponse)
        ensures
            r.sources@.len() == self.sources@.len() + 1,
            forall|i: int| 0 <= i < self.sources@.len() ==> r.sources@[i] == self.sources@[i],
            r.sources@.last().file@ == file@,
            r.sources@.last().section@ == section@,
            r.sources@.last().relevance@ == relevance@,
            r.protocol_version == self.protocol_version,
            r.query == self.query,
            r.answer == self.answer,
            r.confidence == self.confidence,
            r.metadata == self.metadata,
            r.timestamp == self.timestamp,
    {
        let mut s = self;
        s.sources.push(Source {
            file: String::from_str(file),
            section: String::from_str(section),
            relevance: String::from_str(relevance),
        });
        s
    }

    /// Whether this response's confidence reaches `threshold` (in
    /// thousandths); the boundary itself passes.
    pub fn meets_confidence(&self, threshold: u32) -> (r: bool)
        ensures
            r == (self.confidence >= threshold),
    {
        self.confidence >= threshold
    }
}

/// Named confidence floors a caller can ask for.
#[derive(Debug, Clone, Copy, PartialEq, Eq, Structural)]
pub enum ConfidenceLevel {
    High,
    Medium,
    Low,
}

impl ConfidenceLevel {
    /// The floor each level stands for, in thousandths.
    pub fn threshold(&self) -> (r: u32)
        ensures
            *self is High ==> r == 800,
            *self is Medium ==> r == 500,
            *self is Low ==> r == 200,
    {
        match self {
            ConfidenceLevel::High => 800,
            ConfidenceLevel::Medium => 500,
            ConfidenceLevel::Low => 200,
        }
    }

    /// Parse a level name, ignoring ASCII case.
    pub fn from_str(s: &str) -> (r: Option<ConfidenceLevel>)
        ensures
            r == {
                let l = crate::strutil::lower_seq(s@);
                if l == "high"@ {
                    Some(ConfidenceLevel::High)
                } else if l == "medium"@ {
                    Some(ConfidenceLevel::Medium)
                } else if l == "low"@ {
                    Some(ConfidenceLevel::Low)
                } else {
                    None::<ConfidenceLevel>
                }
            },
    {
        let l = crate::strutil::to_ascii_lower(s);
        if crate::strutil::str_eq(l.as_str(), "high") {
            Some(ConfidenceLevel::High)
        } else if crate::strutil::str_eq(l.as_str(), "medium") {
            Some(ConfidenceLevel::Medium)
        } else if crate::strutil::str_eq(l.as_str(), "low") {
            Some(ConfidenceLevel::Low)
        } else {
            None
        }
    }

    /// The lower-case name of this level.
    pub fn as_str(&self) -> (r: String)
        ensures
            *self is High ==> r@ == "high"@,
            *self is Medium ==> r@ == "medium"@,
            *self is Low ==> r@ == "low"@,
    {
        match self {
            ConfidenceLevel::High => String::from_str("high"),
            ConfidenceLevel::Medium => String::from_str("medium"),
            ConfidenceLevel::Low => String::from_str("low"),
        }
    }
}

} // verus!
