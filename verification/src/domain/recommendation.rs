//! Non-executable recommendations produced by intelligence providers.
use vstd::prelude::*;
use crate::clock::now_utc;
use crate::domain::text_map::TextMap;
use crate::domain::number::{in_unit_interval, Real64};
use crate::ids::{AgentId, IdSource, RecommendationId};
use crate::text::decimal;

verus! {

/// Metadata about the provider that generated a recommendation.
#[derive(Debug)]
pub struct ProviderMetadata {
    pub provider_name: String,
    pub model_name: String,
    pub cache_hit: bool,
    pub generation_latency_ms: u64,
    pub extra: TextMap,
}

impl ProviderMetadata {
    /// Metadata with no extra entries.
    pub fn new(
        provider_name: String,
        model_name: String,
        cache_hit: bool,
        generation_latency_ms: u64,
    ) -> (m: Self)
        ensures
            m.provider_name == provider_name,
            m.model_name == model_name,
            m.cache_hit == cache_hit,
            m.generation_latency_ms == generation_latency_ms,
            m.extra@ == Map::<Seq<char>, Seq<char>>::empty(),
    {
        ProviderMetadata {
            provider_name,
            model_name,
            cache_hit,
            generation_latency_ms,
            extra: TextMap::new(),
        }
    }

    /// The same metadata with the extra entry `key` set to `value` (in place of any
    /// value it had).
    pub fn with_extra(self, key: String, value: String) -> (m: Self)
        ensures
            m.provider_name == self.provider_name,
            m.model_name == self.model_name,
            m.cache_hit == self.cache_hit,
            m.generation_latency_ms == self.generation_latency_ms,
            m.extra@ == self.extra@.insert(key@, value@),
    {
        let mut m = self;
        m.extra.insert(key, value);
        m
    }
}

/// `a` and `b` hold the same metadata (their extra entries compared as maps).
pub open spec fn same_metadata(a: ProviderMetadata, b: ProviderMetadata) -> bool {
    &&& a.provider_name == b.provider_name
    &&& a.model_name == b.model_name
    &&& a.cache_hit == b.cache_hit
    &&& a.generation_latency_ms == b.generation_latency_ms
    &&& a.extra@ == b.extra@
}

impl Clone for ProviderMetadata {
    fn clone(&self) -> (r: Self)
        ensures
            same_metadata(r, *self),
    {
        ProviderMetadata {
            provider_name: self.provider_name.clone(),
            model_name: self.model_name.clone(),
            cache_hit: self.cache_hit,
            generation_latency_ms: self.generation_latency_ms,
            extra: self.extra.clone(),
        }
    }
}

/// A recommendation: it may classify workloads, suggest configuration changes or explain
/// system behaviour, but it never triggers a mutation, bypasses policy or creates an
/// executable action.
#[derive(Debug)]
pub struct Recommendation {
    pub id: RecommendationId,
    pub source_agent: AgentId,
    pub timestamp: String,
    pub confidence: Real64,
    pub summary: String,
    pub reasoning: String,
    pub provider: Option<ProviderMetadata>,
}

impl Clone for Recommendation {
    fn clone(&self) -> (r: Self)
        ensures
            r.id == self.id,
            r.source_agent == self.source_agent,
            r.timestamp == self.timestamp,
            r.confidence == self.confidence,
            r.summary == self.summary,
            r.reasoning == self.reasoning,
            match (r.provider, self.provider) {
                (Some(a), Some(b)) => same_metadata(a, b),
                (None, None) => true,
                _ => false,
            },
    {
        Recommendation {
            id: self.id.clone(),
            source_agent: self.source_agent.clone(),
            timestamp: self.timestamp.clone(),
            confidence: self.confidence,
            summary: self.summary.clone(),
            reasoning: self.reasoning.clone(),
            provider: match &self.provider {
                Some(p) => Some(p.clone()),
                None => None,
            },
        }
    }
}

impl Recommendation {
    /// A new recommendation with a fresh id and no provider metadata.
    /// The confidence must lie in `[0.0, 1.0]`.
    pub fn new(
        source_agent: AgentId,
        confidence: Real64,
        summary: String,
        reasoning: String,
        ids: &mut IdSource,
    ) -> (r: Self)
        requires
            in_unit_interval(confidence.0),
        ensures
            r.id@ == "RecommendationId-"@ + decimal(old(ids).recommendation as nat),
            *final(ids) == (IdSource {
                recommendation: crate::ids::next_sequence(old(ids).recommendation),
                ..*old(ids)
            }),
            r.source_agent == source_agent,
            crate::clock::is_timestamp(r.timestamp@),
            r.confidence == confidence,
            r.summary == summary,
            r.reasoning == reasoning,
            r.provider.is_none(),
    {
        let id = ids.next_recommendation_id();
        let timestamp = now_utc();
        Recommendation {
            id,
            source_agent,
            timestamp,
            confidence,
            summary,
            reasoning,
            provider: None,
        }
    }

    /// The same recommendation, attributed to `provider`.
    pub fn with_provider(self, provider: ProviderMetadata) -> (r: Self)
        ensures
            r == (Recommendation { provider: Some(provider), ..self }),
    {
        Recommendation { provider: Some(provider), ..self }
    }
}

} // verus!
