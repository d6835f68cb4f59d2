//! Parsed user intents.
use std::collections::HashMap;
use vstd::prelude::*;
use crate::clock::now_utc;
use crate::domain::number::{in_unit_interval, Real64};
use crate::ids::{IdSource, IntentId};
use crate::text::decimal;

verus! {

/// A parsed user intent: the structured output of natural-language understanding.
/// Intents are advisory only: they never trigger mutations, bypass policy or the safety
/// governor, or create executable actions.
#[derive(Debug, PartialEq)]
pub struct Intent {
    pub id: IntentId,
    pub source_text: String,
    pub intent_type: String,
    pub parameters: HashMap<String, String>,
    pub confidence: Real64,
    pub timestamp: String,
}

impl Intent {
    /// A new intent with a fresh id, stamped with the current time.
    /// The confidence must lie in `[0.0, 1.0]`.
    pub fn new(
        source_text: String,
        intent_type: String,
        parameters: HashMap<String, String>,
        confidence: Real64,
        ids: &mut IdSource,
    ) -> (i: Self)
        requires
            in_unit_interval(confidence.0),
        ensures
            i.id@ == "IntentId-"@ + decimal(old(ids).intent as nat),
            *final(ids) == (IdSource { intent: crate::ids::next_sequence(old(ids).intent), ..*old(ids) }),
            i.source_text == source_text,
            i.intent_type == intent_type,
            i.parameters == parameters,
            i.confidence == confidence,
            crate::clock::is_timestamp(i.timestamp@),
    {
        let id = ids.next_intent_id();
        let timestamp = now_utc();
        Intent { id, source_text, intent_type, parameters, confidence, timestamp }
    }
}


impl Clone for Intent {
    fn clone(&self) -> (r: Self)
        ensures
            r.id == self.id,
            r.source_text == self.source_text,
            r.intent_type == self.intent_type,
            r.parameters@ == self.parameters@,
            r.confidence == self.confidence,
            r.timestamp == self.timestamp,
    {
        Intent {
            id: self.id.clone(),
            source_text: self.source_text.clone(),
            intent_type: self.intent_type.clone(),
            parameters: self.parameters.clone(),
            confidence: self.confidence,
            timestamp: self.timestamp.clone(),
        }
    }
}

} // verus!
