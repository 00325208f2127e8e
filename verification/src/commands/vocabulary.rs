//! The learner's saved vocabulary.

use vstd::prelude::*;

verus! {

/// A saved word or phrase.
#[derive(Debug, Clone)]
pub struct VocabularyItem {
    pub id: String,
    pub word_or_phrase: String,
    pub translation: Option<String>,
    pub context: Option<String>,
    pub notes: Option<String>,
    pub character_id: Option<String>,
    pub created_at: String,
}

} // verus!
