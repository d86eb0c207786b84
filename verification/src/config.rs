//! The sections file: a JSON object that maps the name of each data section
//! to the array of its start and its end, both unsigned 32-bit numbers.

use crate::error::HostError;
use crate::sections::{distinct_names, lemma_collected_distinct, Section, SectionView, Sections};
use vstd::prelude::*;

verus! {

/// `serde_json::Error`, of which nothing is seen.
#[verifier::external_type_specification]
#[verifier::external_body]
pub struct ExJsonError(serde_json::Error);

/// The entries of the JSON object that a text holds, in the order of their
/// names; nothing if the text is no such object.
pub uninterp spec fn json_sections(text: Seq<char>) -> Option<Seq<SectionView>>;

/// What entries are in specifications.
pub open spec fn section_views(entries: Seq<Section>) -> Seq<SectionView> {
    Seq::new(entries.len(), |i: int| entries[i]@)
}

/// `serde_json::from_str` for a map from names to pairs of 32-bit numbers:
/// the entries of the map, which holds each name once, or the reason why the
/// text is no such map.
#[verifier::external_body]
fn parse_sections(text: &str) -> (r: Result<Vec<Section>, serde_json::Error>)
    ensures
        match r {
            Ok(entries) => json_sections(text@) == Some(section_views(entries@)) && distinct_names(
                section_views(entries@),
            ),
            Err(_) => json_sections(text@) is None,
        },
{
    let parsed: std::collections::BTreeMap<String, (u32, u32)> = serde_json::from_str(text)?;
    Ok(parsed.into_iter().map(|(name, (start, end))| Section { name, start, end }).collect())
}

/// Reads the data sections out of the text of a sections file.
pub fn read_sections(text: &str) -> (r: Result<Sections, HostError>)
    ensures
        match r {
            Ok(sections) => json_sections(text@) == Some(sections@),
            Err(e) => e == HostError::Configuration && json_sections(text@) is None,
        },
{
    match parse_sections(text) {
        Ok(entries) => {
            proof {
                lemma_collected_distinct(section_views(entries@));
            }
            Ok(Sections::from_entries(entries))
        },
        Err(_) => Err(HostError::Configuration),
    }
}

} // verus!
