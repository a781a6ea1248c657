//! Addressing: how a (collection, id) pair is mapped to a path inside
//! the store root, and how a stored file name is mapped back to an id.
//!
//! A collection or id is accepted only if it cannot escape the store
//! root: it must be non-empty, must not contain a path separator and
//! must not be a parent- or current-directory segment.

use vstd::prelude::*;
use vstd::string::StrSliceExecFns;
use vstd::string::StringExecFns;

use crate::errors::DatabaseError;

verus! {

/// The separator between path components.
pub open spec fn path_sep() -> Seq<char> {
    seq!['/']
}

/// The storage suffix appended to every document id to form its file
/// name.
pub open spec fn json_suffix() -> Seq<char> {
    seq!['.', 'j', 's', 'o', 'n']
}

/// Characters that would let a name escape its directory or cut a
/// path short: the path separators and the NUL character.
pub open spec fn forbidden_char(c: char) -> bool {
    c == '/' || c == '\\' || c == '\0'
}

/// A collection name or document id is valid when it is non-empty, is
/// not a current- or parent-directory segment, and contains no path
/// separator and no NUL character.
pub open spec fn valid_name(s: Seq<char>) -> bool {
    &&& s.len() > 0
    &&& s != seq!['.']
    &&& s != seq!['.', '.']
    &&& forall|i: int| 0 <= i < s.len() ==> !forbidden_char(#[trigger] s[i])
}

/// The file name of a document: its id followed by the storage suffix.
pub open spec fn doc_file_name(id: Seq<char>) -> Seq<char> {
    id + json_suffix()
}

/// The path of a document relative to the store root.
pub open spec fn doc_rel_path(collection: Seq<char>, id: Seq<char>) -> Seq<char> {
    collection + path_sep() + doc_file_name(id)
}

/// The directory of a collection under a store root.
pub open spec fn dir_path(root: Seq<char>, collection: Seq<char>) -> Seq<char> {
    root + path_sep() + collection
}

/// The absolute path of a document under a store root.
pub open spec fn doc_abs_path(root: Seq<char>, collection: Seq<char>, id: Seq<char>) -> Seq<char> {
    root + path_sep() + doc_rel_path(collection, id)
}

/// No character of the sequence is the NUL character.
pub open spec fn nul_free(s: Seq<char>) -> bool {
    forall|i: int| 0 <= i < s.len() ==> s[i] != '\0'
}

/// The relative path built for a pair of valid names never contains a
/// NUL character: the names cannot hold one, and neither the separator
/// nor the storage suffix does.
pub proof fn lemma_rel_path_nul_free(collection: Seq<char>, id: Seq<char>)
    requires
        valid_name(collection),
        valid_name(id),
    ensures
        nul_free(doc_rel_path(collection, id)),
{
    let r = doc_rel_path(collection, id);
    let n1 = collection.len() as int;
    let n2 = n1 + 1;
    let n3 = n2 + id.len() as int;
    assert forall|i: int| 0 <= i < r.len() implies r[i] != '\0' by {
        if i < n1 {
            assert(r[i] == collection[i]);
            assert(!forbidden_char(collection[i]));
        } else if i < n2 {
            assert(r[i] == path_sep()[0]);
        } else if i < n3 {
            assert(r[i] == id[i - n2]);
            assert(!forbidden_char(id[i - n2]));
        } else {
            let k = i - n3;
            assert(r[i] == json_suffix()[k]);
            if k == 0 {
                assert(json_suffix()[k] == '.');
            } else if k == 1 {
                assert(json_suffix()[k] == 'j');
            } else if k == 2 {
                assert(json_suffix()[k] == 's');
            } else if k == 3 {
                assert(json_suffix()[k] == 'o');
            } else {
                assert(json_suffix()[k] == 'n');
            }
        }
    }
}

/// True when the last characters of `s` are the storage suffix.
pub open spec fn ends_with_json(s: Seq<char>) -> bool {
    s.len() >= 5 && s.subrange(s.len() - 5, s.len() as int) == json_suffix()
}

/// The id encoded by a stored file name: the name with every trailing
/// copy of the storage suffix removed.
pub open spec fn strip_json(s: Seq<char>) -> Seq<char>
    decreases s.len(),
{
    if ends_with_json(s) {
        strip_json(s.subrange(0, s.len() - 5))
    } else {
        s
    }
}

/// Decides `valid_name` for a string.
pub fn validate_name(s: &str) -> (r: bool)
    ensures
        r == valid_name(s@),
{
    let n = s.unicode_len();
    if n == 0 {
        return false;
    }
    if n == 1 {
        if s.get_char(0) == '.' {
            proof {
                assert(s@ =~= seq!['.']);
            }
            return false;
        }
    }
    if n == 2 {
        if s.get_char(0) == '.' && s.get_char(1) == '.' {
            proof {
                assert(s@ =~= seq!['.', '.']);
            }
            return false;
        }
    }
    proof {
        assert(s@ != seq!['.']) by {
            if s@ == seq!['.'] {
                assert(s@.len() == 1);
                assert(s@[0] == '.');
            }
        }
        assert(s@ != seq!['.', '.']) by {
            if s@ == seq!['.', '.'] {
                assert(s@.len() == 2);
                assert(s@[0] == '.');
                assert(s@[1] == '.');
            }
        }
    }
    let mut i: usize = 0;
    while i < n
        invariant
            n == s@.len(),
            0 <= i <= n,
            forall|j: int| 0 <= j < i ==> !forbidden_char(#[trigger] s@[j]),
            s@ != seq!['.'],
            s@ != seq!['.', '.'],
        decreases n - i,
    {
        let c = s.get_char(i);
        if c == '/' || c == '\\' || c == '\0' {
            return false;
        }
        i += 1;
    }
    true
}

/// True exactly when the string ends with the storage suffix.
pub fn ends_with_storage_suffix(s: &str) -> (r: bool)
    ensures
        r == ends_with_json(s@),
{
    let n = s.unicode_len();
    if n < 5 {
        return false;
    }
    let r = s.get_char(n - 5) == '.' && s.get_char(n - 4) == 'j' && s.get_char(n - 3) == 's'
        && s.get_char(n - 2) == 'o' && s.get_char(n - 1) == 'n';
    proof {
        let t = s@.subrange(n as int - 5, n as int);
        assert(t[0] == s@[n as int - 5]);
        assert(t[1] == s@[n as int - 4]);
        assert(t[2] == s@[n as int - 3]);
        assert(t[3] == s@[n as int - 2]);
        assert(t[4] == s@[n as int - 1]);
        if r {
            assert(t =~= json_suffix());
        } else {
            assert(t != json_suffix()) by {
                if t == json_suffix() {
                    assert(t[0] == '.' && t[1] == 'j' && t[2] == 's' && t[3] == 'o' && t[4] == 'n');
                }
            }
        }
    }
    r
}

/// Removes every trailing copy of the storage suffix, turning a stored
/// file name back into an id.
pub fn remove_suffix<'a>(s: &'a str) -> (r: &'a str)
    ensures
        r@ == strip_json(s@),
{
    let mut cur: &str = s;
    let mut done: bool = false;
    while !done
        invariant
            strip_json(cur@) == strip_json(s@),
            done ==> !ends_with_json(cur@),
        decreases cur@.len() + (if done { 0int } else { 1int }),
    {
        if ends_with_storage_suffix(cur) {
            let n = cur.unicode_len();
            cur = cur.substring_char(0, n - 5);
        } else {
            done = true;
        }
    }
    cur
}

/// Builds the file name of a document from its id.
pub fn file_name_for(id: &str) -> (r: String)
    ensures
        r@ == doc_file_name(id@),
{
    let mut p = String::new();
    p.append(id);
    p.append(".json");
    proof {
        reveal_strlit(".json");
        assert(".json"@ =~= json_suffix());
        assert(p@ =~= doc_file_name(id@));
    }
    p
}

/// Builds the path of a document relative to the store root.
pub fn rel_path(collection: &str, id: &str) -> (r: String)
    ensures
        r@ == doc_rel_path(collection@, id@),
{
    let mut p = String::new();
    p.append(collection);
    p.append("/");
    p.append(id);
    p.append(".json");
    proof {
        reveal_strlit("/");
        reveal_strlit(".json");
        assert("/"@ =~= path_sep());
        assert(".json"@ =~= json_suffix());
        assert(p@ =~= doc_rel_path(collection@, id@));
    }
    p
}

/// Builds the directory of a collection under a store root.
pub fn collection_dir(root: &str, collection: &str) -> (r: String)
    ensures
        r@ == dir_path(root@, collection@),
{
    let mut p = String::new();
    p.append(root);
    p.append("/");
    p.append(collection);
    proof {
        reveal_strlit("/");
        assert("/"@ =~= path_sep());
        assert(p@ =~= dir_path(root@, collection@));
    }
    p
}

/// Resolves a (collection, id) pair to the absolute path of its
/// document under `root`, rejecting names that could escape the root.
pub fn resolve(root: &str, collection: &str, id: &str) -> (r: Result<String, DatabaseError>)
    ensures
        valid_name(collection@) && valid_name(id@) ==> (r matches Ok(p) && p@ == doc_abs_path(
            root@,
            collection@,
            id@,
        )),
        !(valid_name(collection@) && valid_name(id@)) ==> r == Err::<String, DatabaseError>(
            DatabaseError::InvalidName,
        ),
{
    if !validate_name(collection) || !validate_name(id) {
        return Err(DatabaseError::InvalidName);
    }
    let mut p = String::new();
    p.append(root);
    p.append("/");
    p.append(collection);
    p.append("/");
    p.append(id);
    p.append(".json");
    proof {
        reveal_strlit("/");
        reveal_strlit(".json");
        assert("/"@ =~= path_sep());
        assert(".json"@ =~= json_suffix());
        assert(p@ =~= doc_abs_path(root@, collection@, id@));
    }
    Ok(p)
}

/// The message recorded by the revision for a write: the word
/// `Update`, the collection and the id.
pub open spec fn commit_message_spec(collection: Seq<char>, id: Seq<char>) -> Seq<char> {
    seq!['U', 'p', 'd', 'a', 't', 'e', ' '] + collection + seq![' ', '/', ' '] + id
}

/// Builds the revision message for a write.
pub fn commit_message(collection: &str, id: &str) -> (r: String)
    ensures
        r@ == commit_message_spec(collection@, id@),
{
    let mut p = String::new();
    p.append("Update ");
    p.append(collection);
    p.append(" / ");
    p.append(id);
    proof {
        reveal_strlit("Update ");
        reveal_strlit(" / ");
        assert("Update "@ =~= seq!['U', 'p', 'd', 'a', 't', 'e', ' ']);
        assert(" / "@ =~= seq![' ', '/', ' ']);
        assert(p@ =~= commit_message_spec(collection@, id@));
    }
    p
}

} // verus!
