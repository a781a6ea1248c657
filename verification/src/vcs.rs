//! The binding to the version-control engine.
//!
//! Every call into the engine goes through one of the trusted wrappers
//! below; the sequencing of those calls into atomic, recoverable
//! commits is verified code in `db`. The engine's values (repository,
//! index, trees, commits) are opaque here: nothing is assumed about
//! them beyond what each wrapper's own call does.

use vstd::prelude::*;

verus! {

#[verifier::external_type_specification]
#[verifier::external_body]
pub struct ExRepository(git2::Repository);

#[verifier::external_type_specification]
#[verifier::external_body]
pub struct ExGitError(git2::Error);

#[verifier::external_type_specification]
#[verifier::external_body]
pub struct ExIndex(git2::Index);

#[verifier::external_type_specification]
#[verifier::external_body]
pub struct ExOid(git2::Oid);

#[verifier::external_type_specification]
#[verifier::external_body]
pub struct ExTree<'a>(git2::Tree<'a>);

#[verifier::external_type_specification]
#[verifier::external_body]
pub struct ExSignature<'a>(git2::Signature<'a>);

#[verifier::external_type_specification]
#[verifier::external_body]
pub struct ExReference<'a>(git2::Reference<'a>);

#[verifier::external_type_specification]
#[verifier::external_body]
pub struct ExCommit<'a>(git2::Commit<'a>);

#[verifier::external_type_specification]
#[verifier::external_body]
pub struct ExRemote<'a>(git2::Remote<'a>);

/// Relies on git2::Repository::init: creates (or reopens) a repository
/// at `path`, creating the directory if needed.
#[verifier::external_body]
pub(crate) fn repo_init(path: &str) -> Result<git2::Repository, git2::Error> {
    git2::Repository::init(path)
}

/// Relies on git2::Repository::open: opens the repository at `path`,
/// failing if none is there.
#[verifier::external_body]
pub(crate) fn repo_open(path: &str) -> Result<git2::Repository, git2::Error> {
    git2::Repository::open(path)
}

/// Relies on git2::Repository::clone: clones `url` into `path`,
/// creating the directory, with no credentials offered.
#[verifier::external_body]
pub(crate) fn clone_repo_plain(url: &str, path: &str) -> Result<git2::Repository, git2::Error> {
    git2::Repository::clone(url, path)
}

/// Relies on git2::build::RepoBuilder::clone: clones `url` into
/// `path`, offering the private key at `key_path` when the transport
/// asks for credentials.
#[verifier::external_body]
pub(crate) fn clone_repo_with_key(url: &str, path: &str, key_path: &str) -> Result<
    git2::Repository,
    git2::Error,
> {
    let key = key_path.to_string();
    let mut callbacks = git2::RemoteCallbacks::new();
    callbacks.credentials(move |_url, username_from_url, _allowed| {
        git2::Cred::ssh_key(username_from_url.unwrap_or("git"), None, std::path::Path::new(&key), None)
    });
    let mut fetch_options = git2::FetchOptions::new();
    fetch_options.remote_callbacks(callbacks);
    let mut builder = git2::build::RepoBuilder::new();
    builder.fetch_options(fetch_options);
    builder.clone(url, std::path::Path::new(path))
}

/// Relies on git2::Repository::index: hands out the repository's
/// pending-change index.
#[verifier::external_body]
pub(crate) fn repo_index(repo: &git2::Repository) -> Result<git2::Index, git2::Error> {
    repo.index()
}

/// Relies on git2::Index::add_frombuffer: stages exactly the entry at
/// `rel_path` with `data` as its content, writing the content into the
/// object store and replacing any prior entry at that path.
#[verifier::external_body]
pub(crate) fn index_add_from_buffer(index: &mut git2::Index, rel_path: &str, data: &[u8]) -> Result<
    (),
    git2::Error,
> {
    let entry = git2::IndexEntry {
        ctime: git2::IndexTime::new(0, 0),
        mtime: git2::IndexTime::new(0, 0),
        dev: 0,
        ino: 0,
        mode: 0o100644,
        uid: 0,
        gid: 0,
        file_size: 0,
        id: git2::Oid::ZERO_SHA1,
        flags: 0,
        flags_extended: 0,
        path: rel_path.as_bytes().to_vec(),
    };
    index.add_frombuffer(&entry, data)
}

/// Relies on git2::Repository::checkout_index: makes the working-tree
/// file at `rel_path` match the staged entry, creating its directories
/// and overwriting any prior contents. The path must hold no NUL
/// character: git2's checkout path setter panics on one instead of
/// returning an error.
#[verifier::external_body]
pub(crate) fn checkout_file(
    repo: &git2::Repository,
    index: &mut git2::Index,
    rel_path: &str,
) -> Result<(), git2::Error>
    requires
        crate::names::nul_free(rel_path@),
{
    let mut opts = git2::build::CheckoutBuilder::new();
    opts.force();
    opts.path(rel_path);
    repo.checkout_index(Some(index), Some(&mut opts))
}

/// Relies on git2::Index::write: persists the index to disk.
#[verifier::external_body]
pub(crate) fn index_write(index: &mut git2::Index) -> Result<(), git2::Error> {
    index.write()
}

/// Relies on git2::Index::write_tree: materialises the staged index
/// into a tree object and returns its id.
#[verifier::external_body]
pub(crate) fn index_write_tree(index: &mut git2::Index) -> Result<git2::Oid, git2::Error> {
    index.write_tree()
}

/// Relies on git2::Repository::find_tree: looks the tree object up by
/// its id.
#[verifier::external_body]
pub(crate) fn repo_find_tree<'r>(repo: &'r git2::Repository, oid: git2::Oid) -> Result<
    git2::Tree<'r>,
    git2::Error,
> {
    repo.find_tree(oid)
}

/// Relies on git2::Signature::now: builds a signature with the given
/// name and email and the current time.
#[verifier::external_body]
pub(crate) fn signature_now(name: &str, email: &str) -> Result<
    git2::Signature<'static>,
    git2::Error,
> {
    git2::Signature::now(name, email)
}

/// Relies on git2::Repository::head: resolves the reference the tip
/// points at, failing when the history is still empty.
#[verifier::external_body]
pub(crate) fn repo_head<'r>(repo: &'r git2::Repository) -> Result<
    git2::Reference<'r>,
    git2::Error,
> {
    repo.head()
}

/// Relies on git2::Reference::peel_to_commit: follows the reference to
/// the commit it names.
#[verifier::external_body]
pub(crate) fn reference_peel_to_commit<'r>(reference: &git2::Reference<'r>) -> Result<
    git2::Commit<'r>,
    git2::Error,
> {
    reference.peel_to_commit()
}

/// Relies on git2::Commit::tree: the tree snapshot the commit records.
#[verifier::external_body]
pub(crate) fn commit_tree<'r>(commit: &git2::Commit<'r>) -> Result<git2::Tree<'r>, git2::Error> {
    commit.tree()
}

/// Relies on git2::Repository::commit: writes a commit with the given
/// identity as both author and committer, message, tree and parents,
/// and advances `update_ref` to it.
#[verifier::external_body]
pub(crate) fn create_commit(
    repo: &git2::Repository,
    update_ref: &str,
    sig: &git2::Signature<'_>,
    message: &str,
    tree: &git2::Tree<'_>,
    parents: &[&git2::Commit<'_>],
) -> Result<git2::Oid, git2::Error> {
    repo.commit(Some(update_ref), sig, sig, message, tree, parents)
}

/// Relies on git2::Index::read_tree: replaces the staged index with
/// the contents of `tree`.
#[verifier::external_body]
pub(crate) fn index_read_tree(index: &mut git2::Index, tree: &git2::Tree<'_>) -> Result<
    (),
    git2::Error,
> {
    index.read_tree(tree)
}

/// Relies on git2::Index::clear: empties the staged index.
#[verifier::external_body]
pub(crate) fn index_clear(index: &mut git2::Index) -> Result<(), git2::Error> {
    index.clear()
}

/// Relies on git2::Repository::find_remote: looks a configured remote
/// up by name.
#[verifier::external_body]
pub(crate) fn repo_find_remote<'r>(repo: &'r git2::Repository, name: &str) -> Result<
    git2::Remote<'r>,
    git2::Error,
> {
    repo.find_remote(name)
}

/// Relies on git2::Remote::push: pushes `refspec`, with no credentials
/// offered.
#[verifier::external_body]
pub(crate) fn remote_push_plain(remote: &mut git2::Remote<'_>, refspec: &str) -> Result<
    (),
    git2::Error,
> {
    remote.push(&[refspec], None)
}

/// Relies on git2::Remote::push: pushes `refspec`, offering the
/// private key at `key_path` when the transport asks for credentials.
#[verifier::external_body]
pub(crate) fn remote_push_with_key(
    remote: &mut git2::Remote<'_>,
    refspec: &str,
    key_path: &str,
) -> Result<(), git2::Error> {
    let key = key_path.to_string();
    let mut callbacks = git2::RemoteCallbacks::new();
    callbacks.credentials(move |_url, username_from_url, _allowed| {
        git2::Cred::ssh_key(username_from_url.unwrap_or("git"), None, std::path::Path::new(&key), None)
    });
    let mut options = git2::PushOptions::new();
    options.remote_callbacks(callbacks);
    remote.push(&[refspec], Some(&mut options))
}

} // verus!
