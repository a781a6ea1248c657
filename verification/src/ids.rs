//! Generation of document ids when the caller does not supply one.
//!
//! A generated id is a fresh random token whose characters are
//! lowercase hexadecimal digits and hyphens, so it is always a valid
//! document id and never collides with the storage suffix.

use vstd::prelude::*;

use crate::names::{ends_with_json, json_suffix, strip_json, valid_name};

verus! {

/// The characters a generated id is made of.
pub open spec fn id_char(c: char) -> bool {
    c == '-' || ('0' <= c && c <= '9') || ('a' <= c && c <= 'f')
}

/// Relies on uuid::Uuid::new_v4 and its hyphenated rendering: a fresh
/// random version-4 identifier, shown as 36 characters of lowercase
/// hexadecimal digits and hyphens. Nothing is assumed about which
/// identifier comes back, only about its shape.
#[verifier::external_body]
fn fresh_uuid() -> (r: String)
    ensures
        r@.len() == 36,
        forall|i: int| 0 <= i < r@.len() ==> id_char(#[trigger] r@[i]),
{
    uuid::Uuid::new_v4().to_string()
}

/// Produces a fresh document id: 36 characters of lowercase
/// hexadecimal digits and hyphens. Such an id is always a valid name
/// and survives a round trip through the storage file name unchanged.
pub fn generate_id() -> (r: String)
    ensures
        r@.len() == 36,
        forall|i: int| 0 <= i < r@.len() ==> id_char(#[trigger] r@[i]),
        valid_name(r@),
        !ends_with_json(r@),
        strip_json(r@) == r@,
{
    let s = fresh_uuid();
    proof {
        assert(valid_name(s@)) by {
            assert(s@ != seq!['.']) by {
                if s@ == seq!['.'] {
                    assert(s@.len() == 1);
                }
            }
            assert(s@ != seq!['.', '.']) by {
                if s@ == seq!['.', '.'] {
                    assert(s@.len() == 2);
                }
            }
        }
        assert(!ends_with_json(s@)) by {
            if ends_with_json(s@) {
                let t = s@.subrange(s@.len() - 5, s@.len() as int);
                assert(t[0] == s@[s@.len() - 5]);
                assert(t[0] == json_suffix()[0]);
                assert(id_char(s@[s@.len() - 5]));
            }
        }
        assert(strip_json(s@) == s@);
    }
    s
}

} // verus!
