//! Deriving the CGI variables of a request from the item that it serves.

use crate::config::{FieldMappings, FieldSource};
use crate::dictionary::{
    distinct_keys, lacks_key, lemma_pairs_map_miss, pairs_map, Dictionary, StringMap,
};
use crate::item::{data_string, Item};
use vstd::prelude::*;

verus! {

/// A mapping as its source and the name that is looked up there.
pub type MappingView = (FieldSource, Seq<char>);

/// The value that a mapping finds in an item with this payload and this
/// metadata: the string member of the payload's JSON object, or the entry of
/// the metadata, that goes by the mapping's name.
pub open spec fn mapped_value(
    data: Seq<u8>,
    metadata: Map<Seq<char>, Seq<char>>,
    mapping: MappingView,
) -> Option<Seq<char>> {
    match mapping.0 {
        FieldSource::BodyJson => data_string(data, mapping.1),
        FieldSource::Metadata => if metadata.contains_key(mapping.1) {
            Some(metadata[mapping.1])
        } else {
            None
        },
    }
}

/// The variables that the mappings derive from an item: each target whose
/// mapping finds a value, with that value. A target whose mapping finds
/// none is left out.
pub open spec fn overrides_of(
    data: Seq<u8>,
    metadata: Map<Seq<char>, Seq<char>>,
    mappings: Map<Seq<char>, MappingView>,
) -> Map<Seq<char>, Seq<char>> {
    Map::new(
        |target: Seq<char>|
            mappings.contains_key(target) && mapped_value(data, metadata, mappings[target])
                is Some,
        |target: Seq<char>| mapped_value(data, metadata, mappings[target])->0,
    )
}

/// One more mapping, under a target that had none, adds its value to the
/// derived variables if it finds one, and changes nothing if it does not.
proof fn lemma_overrides_insert(
    data: Seq<u8>,
    metadata: Map<Seq<char>, Seq<char>>,
    mappings: Map<Seq<char>, MappingView>,
    target: Seq<char>,
    mapping: MappingView,
)
    requires
        !mappings.contains_key(target),
    ensures
        overrides_of(data, metadata, mappings.insert(target, mapping)) == (match mapped_value(
            data,
            metadata,
            mapping,
        ) {
            Some(value) => overrides_of(data, metadata, mappings).insert(target, value),
            None => overrides_of(data, metadata, mappings),
        }),
{
    let after = overrides_of(data, metadata, mappings.insert(target, mapping));
    let before = overrides_of(data, metadata, mappings);
    match mapped_value(data, metadata, mapping) {
        Some(value) => {
            assert(after =~= before.insert(target, value));
        },
        None => {
            assert(after =~= before);
        },
    }
}

/// Derives the CGI variables of the request that serves `item`.
pub fn resolve_overrides(item: &Item, mappings: &FieldMappings) -> (overrides: StringMap)
    ensures
        overrides@ == overrides_of(item.data@, item.metadata@, mappings@),
{
    let mut overrides: StringMap = Dictionary::new();
    let n = mappings.len();
    let ghost pairs = mappings.pairs();
    let mut i: usize = 0;
    assert(pairs.take(0) =~= Seq::empty());
    assert(overrides@ =~= overrides_of(item.data@, item.metadata@, pairs_map(pairs.take(0))));
    while i < n
        invariant
            i <= n,
            n == pairs.len(),
            pairs == mappings.pairs(),
            distinct_keys(pairs),
            overrides@ == overrides_of(
                item.data@,
                item.metadata@,
                pairs_map(pairs.take(i as int)),
            ),
        decreases n - i,
    {
        if let Some((target, mapping)) = mappings.entry(i) {
            let ghost shorter = pairs.take(i as int);
            proof {
                assert(pairs.take(i + 1).drop_last() =~= shorter);
                assert(lacks_key(shorter, target@)) by {
                    assert forall|j: int| 0 <= j < shorter.len() implies (#[trigger] shorter[j]).0
                        != target@ by {
                        assert(shorter[j] == pairs[j]);
                        assert(pairs[j].0 != pairs[i as int].0);
                    }
                }
                lemma_pairs_map_miss(shorter, target@);
                lemma_overrides_insert(
                    item.data@,
                    item.metadata@,
                    pairs_map(shorter),
                    target@,
                    mapping@,
                );
            }
            let value = match mapping.source {
                FieldSource::BodyJson => item.get_string_from_data_json_object(
                    mapping.field.as_str(),
                ),
                FieldSource::Metadata => match item.metadata.get(mapping.field.as_str()) {
                    Some(value) => Some(value.clone()),
                    None => None,
                },
            };
            if let Some(value) = value {
                overrides.insert(target.clone(), value);
            }
        }
        i += 1;
    }
    assert(pairs.take(n as int) =~= pairs);
    overrides
}

} // verus!
