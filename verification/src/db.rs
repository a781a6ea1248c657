//! The store itself: a directory tree of documents whose every write
//! becomes a revision of a linear history.
//!
//! `insert` runs the whole write pipeline: the names are checked, the
//! document content is staged and written to the working tree, a
//! revision is committed, and, when a remote is configured, the new
//! history is pushed on a best-effort basis. A failed commit attempt
//! restores the pending-change index so that nothing half-staged is
//! left behind; the tip only moves when the commit as a whole
//! succeeds.
//!
//! Reading the file system is left to the caller: `get_collection` and
//! `get_document` take what a directory scan found and decide the
//! result. A `Database` must not be shared between threads or
//! processes that mutate the same root concurrently.

use vstd::prelude::*;
use vstd::string::StringExecFns;

use crate::errors::DatabaseError;
use crate::ids;
use crate::names;
use crate::names::{dir_path, strip_json, valid_name};
use crate::vcs;

verus! {

/// A document store rooted at one working tree, with an optional
/// remote to which every new revision is pushed best-effort.
pub struct Database {
    repo: git2::Repository,
    path: String,
    url: Option<String>,
    ssh_key: Option<String>,
    author_name: String,
    author_email: String,
}

impl Database {
    /// The store root this database was opened at.
    pub closed spec fn spec_path(&self) -> Seq<char> {
        self.path@
    }

    /// Whether a remote is bound to this database.
    pub closed spec fn spec_has_remote(&self) -> bool {
        self.url is Some
    }

    /// The name every revision is signed with.
    pub closed spec fn spec_author_name(&self) -> Seq<char> {
        self.author_name@
    }

    /// The email every revision is signed with.
    pub closed spec fn spec_author_email(&self) -> Seq<char> {
        self.author_email@
    }

    /// The store root, as given to `new`.
    pub fn path(&self) -> (r: &String)
        ensures
            r@ == self.spec_path(),
    {
        &self.path
    }

    /// Whether a remote is bound to this database.
    pub fn has_remote(&self) -> (r: bool)
        ensures
            r == self.spec_has_remote(),
    {
        self.url.is_some()
    }

    /// Builds the database value around an opened repository, with the
    /// system identity as the default signature for revisions.
    fn assemble(
        repo: git2::Repository,
        path: &str,
        url: Option<String>,
        ssh_key: Option<String>,
    ) -> (db: Database)
        ensures
            db.spec_path() == path@,
            db.spec_has_remote() == url.is_some(),
            db.spec_author_name() == "gitbase"@,
            db.spec_author_email() == "auto@gitbase.com"@,
    {
        Database {
            repo,
            path: String::from_str(path),
            url,
            ssh_key,
            author_name: String::from_str("gitbase"),
            author_email: String::from_str("auto@gitbase.com"),
        }
    }

    /// Opens or creates the store at `path`. `path_exists` says
    /// whether the root directory is already present; deciding that is
    /// a file-system question the caller answers.
    ///
    /// With a remote `url`, an existing root is reopened as the store
    /// it already holds (never re-cloned), and a root not yet present
    /// is cloned from the remote. Without a `url`, a fresh local-only
    /// history is initialised at `path`. Directory creation is left to
    /// the engine, so a failure to create the root surfaces as
    /// `Transport` (clone) or `VersionControl` (init), not `Io`.
    /// `ssh_key` names the private key offered when a remote asks for
    /// credentials. Revisions are signed with the system identity
    /// until `with_identity` replaces it.
    pub fn new(path: &str, path_exists: bool, url: Option<String>, ssh_key: Option<String>) -> (r:
        Result<Database, DatabaseError>)
        ensures
            r matches Ok(db) ==> db.spec_path() == path@ && db.spec_has_remote() == url.is_some()
                && db.spec_author_name() == "gitbase"@ && db.spec_author_email()
                == "auto@gitbase.com"@,
            r matches Err(e) ==> if url is Some {
                if path_exists {
                    e is VersionControl
                } else {
                    e is Transport
                }
            } else {
                e is VersionControl
            },
    {
        match url {
            Some(u) => {
                if path_exists {
                    match vcs::repo_open(path) {
                        Ok(repo) => Ok(Self::assemble(repo, path, Some(u), ssh_key)),
                        Err(_) => Err(DatabaseError::VersionControl),
                    }
                } else {
                    let cloned = match &ssh_key {
                        Some(k) => vcs::clone_repo_with_key(u.as_str(), path, k.as_str()),
                        None => vcs::clone_repo_plain(u.as_str(), path),
                    };
                    match cloned {
                        Ok(repo) => Ok(Self::assemble(repo, path, Some(u), ssh_key)),
                        Err(_) => Err(DatabaseError::Transport),
                    }
                }
            },
            None => {
                match vcs::repo_init(path) {
                    Ok(repo) => Ok(Self::assemble(repo, path, None, ssh_key)),
                    Err(_) => Err(DatabaseError::VersionControl),
                }
            },
        }
    }

    /// The same database with the identity every later revision is
    /// signed with replaced; the store root and remote binding are
    /// kept.
    pub fn with_identity(self, name: &str, email: &str) -> (r: Database)
        ensures
            r.spec_path() == self.spec_path(),
            r.spec_has_remote() == self.spec_has_remote(),
            r.spec_author_name() == name@,
            r.spec_author_email() == email@,
    {
        Database {
            repo: self.repo,
            path: self.path,
            url: self.url,
            ssh_key: self.ssh_key,
            author_name: String::from_str(name),
            author_email: String::from_str(email),
        }
    }

    /// Best-effort restoration of the pending-change index to the tip
    /// revision's tree (or to empty when the history is empty), so
    /// that a failed write leaves nothing half-staged behind.
    fn restore_index(&self, index: &mut git2::Index) {
        match vcs::repo_head(&self.repo) {
            Ok(head) => {
                match vcs::reference_peel_to_commit(&head) {
                    Ok(commit) => {
                        match vcs::commit_tree(&commit) {
                            Ok(tree) => {
                                if vcs::index_read_tree(index, &tree).is_ok() {
                                    let _ = vcs::index_write(index);
                                }
                            },
                            Err(_) => {},
                        }
                    },
                    Err(_) => {},
                }
            },
            Err(_) => {
                if vcs::index_clear(index).is_ok() {
                    let _ = vcs::index_write(index);
                }
            },
        }
    }

    /// Commits whatever is staged in `index` as the next revision:
    /// the index is persisted and materialised into a tree, and a
    /// commit carrying the database's identity and the message for
    /// (collection, id) is written, with the current tip as its only
    /// parent (no parent when the history is empty). On any failure
    /// the index is restored and the tip is left where it was.
    fn commit_staged(&self, index: &mut git2::Index, collection: &str, id: &str) -> (r: Result<
        (),
        DatabaseError,
    >)
        ensures
            r matches Err(e) ==> e is VersionControl,
    {
        let msg = names::commit_message(collection, id);
        if vcs::index_write(index).is_err() {
            self.restore_index(index);
            return Err(DatabaseError::VersionControl);
        }
        let oid = match vcs::index_write_tree(index) {
            Ok(o) => o,
            Err(_) => {
                self.restore_index(index);
                return Err(DatabaseError::VersionControl);
            },
        };
        let tree = match vcs::repo_find_tree(&self.repo, oid) {
            Ok(t) => t,
            Err(_) => {
                self.restore_index(index);
                return Err(DatabaseError::VersionControl);
            },
        };
        let sig = match vcs::signature_now(self.author_name.as_str(), self.author_email.as_str()) {
            Ok(s) => s,
            Err(_) => {
                self.restore_index(index);
                return Err(DatabaseError::VersionControl);
            },
        };
        let parent = match vcs::repo_head(&self.repo) {
            Ok(head) => {
                match vcs::reference_peel_to_commit(&head) {
                    Ok(c) => Some(c),
                    Err(_) => {
                        self.restore_index(index);
                        return Err(DatabaseError::VersionControl);
                    },
                }
            },
            Err(_) => None,
        };
        let committed = match &parent {
            Some(c) => {
                let parents = vec![c];
                vcs::create_commit(&self.repo, "HEAD", &sig, msg.as_str(), &tree, parents.as_slice())
            },
            None => {
                let parents: Vec<&git2::Commit<'_>> = Vec::new();
                vcs::create_commit(&self.repo, "HEAD", &sig, msg.as_str(), &tree, parents.as_slice())
            },
        };
        match committed {
            Ok(_) => Ok(()),
            Err(_) => {
                self.restore_index(index);
                Err(DatabaseError::VersionControl)
            },
        }
    }

    /// Pushes the local history to the configured remote, offering the
    /// database's key when the transport asks for credentials.
    fn try_push(&self) -> (r: Result<(), git2::Error>) {
        let mut remote = match vcs::repo_find_remote(&self.repo, "origin") {
            Ok(rem) => rem,
            Err(e) => {
                return Err(e);
            },
        };
        match &self.ssh_key {
            Some(k) => vcs::remote_push_with_key(&mut remote, "refs/heads/main", k.as_str()),
            None => vcs::remote_push_plain(&mut remote, "refs/heads/main"),
        }
    }

    /// Writes `data` as the document (collection, id), generating an
    /// id when none is given, and commits the write as the next
    /// revision. A configured remote is pushed afterwards, but no push
    /// outcome ever fails the insert: once the commit succeeded the
    /// write is durable locally. The result is `InvalidName` exactly
    /// when one of the given names could escape the store root.
    pub fn insert(&self, collection: &str, id: Option<&str>, data: &str) -> (r: Result<
        (),
        DatabaseError,
    >)
        ensures
            r == Err::<(), DatabaseError>(DatabaseError::InvalidName) <==> (!valid_name(
                collection@,
            ) || (id matches Some(i) && !valid_name(i@))),
            r matches Err(e) ==> (e is InvalidName || e is VersionControl || e is Io),
    {
        if !names::validate_name(collection) {
            return Err(DatabaseError::InvalidName);
        }
        let id_string: String = match id {
            Some(s) => {
                if !names::validate_name(s) {
                    return Err(DatabaseError::InvalidName);
                }
                String::from_str(s)
            },
            None => ids::generate_id(),
        };
        let rel = names::rel_path(collection, id_string.as_str());
        let mut index = match vcs::repo_index(&self.repo) {
            Ok(i) => i,
            Err(_) => {
                return Err(DatabaseError::VersionControl);
            },
        };
        if vcs::index_add_from_buffer(&mut index, rel.as_str(), data.as_bytes()).is_err() {
            self.restore_index(&mut index);
            return Err(DatabaseError::VersionControl);
        }
        proof {
            names::lemma_rel_path_nul_free(collection@, id_string@);
        }
        if vcs::checkout_file(&self.repo, &mut index, rel.as_str()).is_err() {
            self.restore_index(&mut index);
            return Err(DatabaseError::Io);
        }
        match self.commit_staged(&mut index, collection, id_string.as_str()) {
            Ok(_) => {},
            Err(e) => {
                return Err(e);
            },
        }
        if self.url.is_some() {
            let outcome = self.try_push();
            return absorb_push_outcome(outcome);
        }
        Ok(())
    }

    /// The directory of `collection` under this store's root, provided
    /// the name is valid and the caller found the directory present.
    pub fn open_collection(&self, collection: &str, dir_exists: bool) -> (r: Result<
        String,
        DatabaseError,
    >)
        ensures
            !valid_name(collection@) ==> r == Err::<String, DatabaseError>(
                DatabaseError::InvalidName,
            ),
            valid_name(collection@) && !dir_exists ==> r == Err::<String, DatabaseError>(
                DatabaseError::UnknownCollection,
            ),
            valid_name(collection@) && dir_exists ==> (r matches Ok(p) && p@ == dir_path(
                self.spec_path(),
                collection@,
            )),
    {
        if !names::validate_name(collection) {
            return Err(DatabaseError::InvalidName);
        }
        if !dir_exists {
            return Err(DatabaseError::UnknownCollection);
        }
        Ok(names::collection_dir(self.path.as_str(), collection))
    }

    /// The ids present in `collection`, given what a scan of its
    /// directory found: `None` when the directory does not exist,
    /// `Some` with the file names inside it otherwise. Each file name
    /// is mapped back to its id by stripping the storage suffix; a
    /// missing directory is exactly `UnknownCollection`, never a
    /// silent empty listing.
    pub fn get_collection(&self, collection: &str, entries: Option<Vec<String>>) -> (r: Result<
        Vec<String>,
        DatabaseError,
    >)
        ensures
            !valid_name(collection@) ==> r == Err::<Vec<String>, DatabaseError>(
                DatabaseError::InvalidName,
            ),
            valid_name(collection@) && entries is None ==> r == Err::<Vec<String>, DatabaseError>(
                DatabaseError::UnknownCollection,
            ),
            valid_name(collection@) && entries is Some ==> (r matches Ok(out) && out@.len()
                == entries->Some_0@.len() && (forall|i: int|
                0 <= i < entries->Some_0@.len() ==> (#[trigger] out@[i])@ == strip_json(
                    entries->Some_0@[i]@,
                ))),
    {
        if !names::validate_name(collection) {
            return Err(DatabaseError::InvalidName);
        }
        match entries {
            None => Err(DatabaseError::UnknownCollection),
            Some(es) => {
                let mut out: Vec<String> = Vec::new();
                let n = es.len();
                let mut i: usize = 0;
                while i < n
                    invariant
                        n == es@.len(),
                        0 <= i <= n,
                        out@.len() == i,
                        forall|j: int|
                            0 <= j < i ==> (#[trigger] out@[j])@ == strip_json(es@[j]@),
                    decreases n - i,
                {
                    let stripped = names::remove_suffix(es[i].as_str());
                    out.push(String::from_str(stripped));
                    i += 1;
                }
                Ok(out)
            },
        }
    }

    /// The stored bytes of the document (collection, id), given what
    /// the caller found on disk: whether the collection directory
    /// exists, and the document file's content when the file is
    /// present. A valid address misses with `UnknownCollection` when
    /// the collection was never created and with `NotFound` when only
    /// the document is absent.
    pub fn get_document(
        &self,
        collection: &str,
        id: &str,
        dir_exists: bool,
        content: Option<Vec<u8>>,
    ) -> (r: Result<Vec<u8>, DatabaseError>)
        ensures
            !valid_name(collection@) ==> r == Err::<Vec<u8>, DatabaseError>(
                DatabaseError::InvalidName,
            ),
            valid_name(collection@) && !valid_name(id@) ==> r == Err::<Vec<u8>, DatabaseError>(
                DatabaseError::InvalidName,
            ),
            valid_name(collection@) && valid_name(id@) && !dir_exists ==> r == Err::<
                Vec<u8>,
                DatabaseError,
            >(DatabaseError::UnknownCollection),
            valid_name(collection@) && valid_name(id@) && dir_exists && content is None ==> r
                == Err::<Vec<u8>, DatabaseError>(DatabaseError::NotFound),
            valid_name(collection@) && valid_name(id@) && dir_exists && content is Some ==> (
            r matches Ok(out) && out@ == content->Some_0@),
    {
        match self.open_collection(collection, dir_exists) {
            Ok(_) => {},
            Err(e) => {
                if names::validate_name(id) {
                    return Err(e);
                } else {
                    return Err(DatabaseError::InvalidName);
                }
            },
        }
        if !names::validate_name(id) {
            return Err(DatabaseError::InvalidName);
        }
        match content {
            None => Err(DatabaseError::NotFound),
            Some(b) => Ok(b),
        }
    }
}

/// The outcome of a push never influences the result of a write: once
/// the local revision is committed it is durable and authoritative, so
/// every push outcome, success or failure, maps to success.
pub fn absorb_push_outcome(outcome: Result<(), git2::Error>) -> (r: Result<(), DatabaseError>)
    ensures
        r == Ok::<(), DatabaseError>(()),
{
    match outcome {
        Ok(_) => Ok(()),
        Err(_) => Ok(()),
    }
}

} // verus!
