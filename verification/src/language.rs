//! Lookup in the read-only language registry: a language is found by its
//! exact name or by one of its aliases.

use vstd::prelude::*;
use crate::models::LanguageMetadata;

verus! {

/// Whether one registry entry answers to the requested language name,
/// either by its own name or by an alias.
pub open spec fn meta_answers_to(m: LanguageMetadata, lang: Seq<char>) -> bool {
    m.language@ == lang || exists|j: int| 0 <= j < m.aliases@.len() && m.aliases@[j]@ == lang
}

/// Decides whether one registry entry answers to the requested name.
pub fn meta_matches(m: &LanguageMetadata, lang: &String) -> (b: bool)
    ensures
        b == meta_answers_to(*m, lang@),
{
    if m.language.eq(lang) {
        return true;
    }
    let mut k: usize = 0;
    while k < m.aliases.len()
        invariant
            k <= m.aliases@.len(),
            forall|j: int| 0 <= j < k ==> m.aliases@[j]@ != lang@,
        decreases m.aliases@.len() - k,
    {
        if m.aliases[k].eq(lang) {
            return true;
        }
        k = k + 1;
    }
    false
}

/// Looks the requested language up in the registry, by exact name or alias,
/// and returns the index of the first entry that answers to it. An unknown
/// name is a caller error, reported as `None`.
pub fn find_metadata(lang: &String, registry: &Vec<LanguageMetadata>) -> (r: Option<usize>)
    ensures
        match r {
            Some(i) => {
                &&& (i as int) < registry@.len()
                &&& meta_answers_to(registry@[i as int], lang@)
                &&& forall|j: int| 0 <= j < i as int ==> !meta_answers_to(registry@[j], lang@)
            },
            None => forall|j: int| 0 <= j < registry@.len() ==> !meta_answers_to(registry@[j], lang@),
        },
{
    let mut k: usize = 0;
    while k < registry.len()
        invariant
            k <= registry@.len(),
            forall|j: int| 0 <= j < k ==> !meta_answers_to(registry@[j], lang@),
        decreases registry@.len() - k,
    {
        if meta_matches(&registry[k], lang) {
            return Some(k);
        }
        k = k + 1;
    }
    None
}

} // verus!
