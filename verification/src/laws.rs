//! Properties that hold across the addressing functions.

use vstd::prelude::*;

use crate::names::{doc_file_name, ends_with_json, json_suffix, strip_json};

verus! {

/// Stripping the storage suffix is stable: what `strip_json` returns
/// never still ends in the suffix, so listing an id a second time
/// changes nothing.
pub proof fn lemma_strip_is_stable(s: Seq<char>)
    ensures
        !ends_with_json(strip_json(s)),
        strip_json(strip_json(s)) == strip_json(s),
    decreases s.len(),
{
    if ends_with_json(s) {
        lemma_strip_is_stable(s.subrange(0, s.len() - 5));
    }
}

/// A document written under an id that does not itself end in the
/// storage suffix lists back as exactly that id: its file name, with
/// the suffix stripped, is the id again. Generated ids always satisfy
/// the premise.
pub proof fn lemma_listing_restores_id(id: Seq<char>)
    requires
        !ends_with_json(id),
    ensures
        strip_json(doc_file_name(id)) == id,
{
    let f = id + json_suffix();
    assert(f.subrange(f.len() - 5, f.len() as int) =~= json_suffix());
    assert(ends_with_json(f));
    assert(f.subrange(0, f.len() - 5) =~= id);
    assert(strip_json(f) == strip_json(f.subrange(0, f.len() - 5)));
    assert(strip_json(id) == id);
}

} // verus!
