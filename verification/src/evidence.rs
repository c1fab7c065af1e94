//! Evidence, its authority and span, and the claims that cite it.
use vstd::prelude::*;

use crate::stamp::{fresh_id, now_rfc3339};

verus! {

/// How much a source can be trusted, from least to most.
#[derive(Debug, Clone, Copy, PartialEq, Eq, Structural)]
pub enum SourceAuthority {
    Low,
    Medium,
    High,
    Primary,
}

impl SourceAuthority {
    /// The position of the authority in the order `Low < Medium < High < Primary`.
    pub open spec fn spec_rank(self) -> u8 {
        match self {
            SourceAuthority::Low => 0,
            SourceAuthority::Medium => 1,
            SourceAuthority::High => 2,
            SourceAuthority::Primary => 3,
        }
    }

    /// The position of the authority in the order `Low < Medium < High < Primary`.
    #[verifier::when_used_as_spec(spec_rank)]
    pub fn rank(self) -> (r: u8)
        ensures
            r == self.spec_rank(),
    {
        match self {
            SourceAuthority::Low => 0,
            SourceAuthority::Medium => 1,
            SourceAuthority::High => 2,
            SourceAuthority::Primary => 3,
        }
    }

    /// Whether `self >= other` in that order.
    pub fn at_least(self, other: SourceAuthority) -> (b: bool)
        ensures
            b == (self.spec_rank() >= other.spec_rank()),
    {
        self.rank() >= other.rank()
    }
}

/// Lines of a document that a piece of evidence quotes.
pub struct EvidenceSpan {
    pub start_line: u32,
    pub end_line: u32,
    pub excerpt: String,
}

impl Clone for EvidenceSpan {
    fn clone(&self) -> (res: Self)
        ensures
            res == *self,
    {
        EvidenceSpan {
            start_line: self.start_line,
            end_line: self.end_line,
            excerpt: self.excerpt.clone(),
        }
    }
}

/// A source that supports a conclusion.
pub struct Evidence {
    /// The 128-bit value of the evidence's UUID.
    pub id: u128,
    pub source_uri: String,
    pub source_title: String,
    pub authority: SourceAuthority,
    pub span: Option<EvidenceSpan>,
    pub content: String,
    /// RFC 3339 time at which the evidence was gathered.
    pub retrieved_at: String,
}

impl Clone for Evidence {
    fn clone(&self) -> (res: Self)
        ensures
            res == *self,
    {
        let span = match &self.span {
            Some(s) => Some(s.clone()),
            None => None,
        };
        Evidence {
            id: self.id,
            source_uri: self.source_uri.clone(),
            source_title: self.source_title.clone(),
            authority: self.authority,
            span,
            content: self.content.clone(),
            retrieved_at: self.retrieved_at.clone(),
        }
    }
}

impl Evidence {
    /// New evidence with a fresh identifier, stamped with the current time
    /// and without a span.
    pub fn new(
        source_uri: String,
        source_title: String,
        authority: SourceAuthority,
        content: String,
    ) -> (e: Self)
        ensures
            e.source_uri == source_uri,
            e.source_title == source_title,
            e.authority == authority,
            e.span is None,
            e.content == content,
    {
        Evidence {
            id: fresh_id(),
            source_uri,
            source_title,
            authority,
            span: None,
            content,
            retrieved_at: now_rfc3339(),
        }
    }

    /// The same evidence, quoting lines `start..=end` with `excerpt`.
    pub fn with_span(self, start: u32, end: u32, excerpt: String) -> (e: Self)
        ensures
            e.id == self.id,
            e.source_uri == self.source_uri,
            e.source_title == self.source_title,
            e.authority == self.authority,
            e.content == self.content,
            e.retrieved_at == self.retrieved_at,
            e.span == Some(EvidenceSpan { start_line: start, end_line: end, excerpt }),
    {
        let mut e = self;
        e.span = Some(EvidenceSpan { start_line: start, end_line: end, excerpt });
        e
    }
}

/// Confidence, in hundredths, of a claim that cites no evidence.
pub const UNGROUNDED_CONFIDENCE_PERCENT: u8 = 30;

/// Confidence, in hundredths, of a claim that cites evidence.
pub const GROUNDED_CONFIDENCE_PERCENT: u8 = 85;

/// A statement made by an agent, with the evidence it rests on.
pub struct Claim {
    /// The 128-bit value of the claim's UUID.
    pub id: u128,
    pub statement: String,
    /// Confidence in hundredths (85 stands for 0.85).
    pub confidence_percent: u8,
    /// The identifiers of the evidence cited.
    pub evidence_ids: Vec<u128>,
    pub agent: String,
}

impl Clone for Claim {
    fn clone(&self) -> (res: Self)
        ensures
            res.id == self.id,
            res.statement == self.statement,
            res.confidence_percent == self.confidence_percent,
            res.evidence_ids@ == self.evidence_ids@,
            res.agent == self.agent,
    {
        let ids = self.evidence_ids.clone();
        assert(ids@ =~= self.evidence_ids@);
        Claim {
            id: self.id,
            statement: self.statement.clone(),
            confidence_percent: self.confidence_percent,
            evidence_ids: ids,
            agent: self.agent.clone(),
        }
    }
}

impl Claim {
    /// A new claim with a fresh identifier; its confidence is 0.85 when it
    /// cites evidence and 0.3 when it cites none.
    pub fn new(statement: String, agent: String, evidence_ids: Vec<u128>) -> (c: Self)
        ensures
            c.statement == statement,
            c.agent == agent,
            c.evidence_ids == evidence_ids,
            c.spec_is_grounded() == (evidence_ids@.len() > 0),
            c.confidence_percent == if c.spec_is_grounded() {
                GROUNDED_CONFIDENCE_PERCENT
            } else {
                UNGROUNDED_CONFIDENCE_PERCENT
            },
    {
        let confidence_percent = if evidence_ids.len() == 0 {
            UNGROUNDED_CONFIDENCE_PERCENT
        } else {
            GROUNDED_CONFIDENCE_PERCENT
        };
        Claim { id: fresh_id(), statement, confidence_percent, evidence_ids, agent }
    }

    /// Whether the claim cites at least one piece of evidence.
    pub open spec fn spec_is_grounded(&self) -> bool {
        self.evidence_ids@.len() > 0
    }

    /// Whether the claim cites at least one piece of evidence.
    #[verifier::when_used_as_spec(spec_is_grounded)]
    pub fn is_grounded(&self) -> (b: bool)
        ensures
            b == self.spec_is_grounded(),
    {
        self.evidence_ids.len() > 0
    }
}

} // verus!
