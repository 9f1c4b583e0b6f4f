//! Recording an entry in a git repository: staging the entry file,
//! committing it on top of the current branch tip, and pushing the branch.

use vstd::prelude::*;

verus! {

#[verifier::external_type_specification]
#[verifier::external_body]
pub struct ExRepository(git2::Repository);

#[verifier::external_type_specification]
#[verifier::external_body]
pub struct ExGitError(git2::Error);

#[verifier::external_type_specification]
#[verifier::external_body]
pub struct ExOid(git2::Oid);

#[verifier::external_type_specification]
#[verifier::external_body]
pub struct ExIndex(git2::Index);

#[verifier::external_type_specification]
#[verifier::external_body]
pub struct ExReference<'r>(git2::Reference<'r>);

#[verifier::external_type_specification]
#[verifier::external_body]
pub struct ExCommit<'r>(git2::Commit<'r>);

#[verifier::external_type_specification]
#[verifier::external_body]
pub struct ExTree<'r>(git2::Tree<'r>);

#[verifier::external_type_specification]
#[verifier::external_body]
pub struct ExSignature<'a>(git2::Signature<'a>);

#[verifier::external_type_specification]
#[verifier::external_body]
pub struct ExRemote<'r>(git2::Remote<'r>);

/// Relies on git2's `Repository::open`.
#[verifier::external_body]
fn open_repository(path: &str) -> (r: Result<git2::Repository, git2::Error>) {
    git2::Repository::open(path)
}

/// Relies on git2's `Repository::index`.
#[verifier::external_body]
fn repository_index(repo: &git2::Repository) -> (r: Result<git2::Index, git2::Error>) {
    repo.index()
}

/// Relies on git2's `Index::add_path`.
#[verifier::external_body]
fn index_add_path(index: &mut git2::Index, path: &str) -> (r: Result<(), git2::Error>) {
    index.add_path(std::path::Path::new(path))
}

/// Relies on git2's `Index::write`.
#[verifier::external_body]
fn index_write(index: &mut git2::Index) -> (r: Result<(), git2::Error>) {
    index.write()
}

/// Relies on git2's `Index::write_tree`.
#[verifier::external_body]
fn index_write_tree(index: &mut git2::Index) -> (r: Result<git2::Oid, git2::Error>) {
    index.write_tree()
}

/// Relies on git2's `Repository::head`.
#[verifier::external_body]
fn head_reference<'r>(repo: &'r git2::Repository) -> (r: Result<
    git2::Reference<'r>,
    git2::Error,
>) {
    repo.head()
}

/// Relies on git2's `Reference::peel_to_commit`.
#[verifier::external_body]
fn reference_commit<'r>(reference: &git2::Reference<'r>) -> (r: Result<
    git2::Commit<'r>,
    git2::Error,
>) {
    reference.peel_to_commit()
}

/// Relies on git2's `Commit::id`.
#[verifier::external_body]
fn commit_id(commit: &git2::Commit<'_>) -> (r: git2::Oid) {
    commit.id()
}

/// Relies on git2's `Repository::find_tree`.
#[verifier::external_body]
fn find_tree<'r>(repo: &'r git2::Repository, id: git2::Oid) -> (r: Result<
    git2::Tree<'r>,
    git2::Error,
>) {
    repo.find_tree(id)
}

/// Relies on git2's `Signature::now`: the identity, stamped with the time now.
#[verifier::external_body]
fn signature_now(name: &str, email: &str) -> (r: Result<git2::Signature<'static>, git2::Error>) {
    git2::Signature::now(name, email)
}

/// Relies on git2's `Repository::commit`, asked to move `HEAD` to a commit
/// whose author and committer are `sig` and whose one parent is `parent`.
#[verifier::external_body]
fn create_commit(
    repo: &git2::Repository,
    sig: &git2::Signature<'_>,
    message: &str,
    tree: &git2::Tree<'_>,
    parent: &git2::Commit<'_>,
) -> (r: Result<git2::Oid, git2::Error>) {
    repo.commit(Some("HEAD"), sig, sig, message, tree, &[parent])
}

/// Relies on git2's `Repository::find_remote`.
#[verifier::external_body]
fn find_remote<'r>(repo: &'r git2::Repository, name: &str) -> (r: Result<
    git2::Remote<'r>,
    git2::Error,
>) {
    repo.find_remote(name)
}

/// Relies on git2's `Repository::remote`, which adds a remote to the
/// repository's configuration.
#[verifier::external_body]
fn create_remote<'r>(repo: &'r git2::Repository, name: &str, url: &str) -> (r: Result<
    git2::Remote<'r>,
    git2::Error,
>) {
    repo.remote(name, url)
}

/// Relies on git2's `Remote::connect`, in the push direction.
#[verifier::external_body]
fn connect_for_push(remote: &mut git2::Remote<'_>) -> (r: Result<(), git2::Error>) {
    remote.connect(git2::Direction::Push)
}

/// Relies on git2's `Remote::push`, with one refspec and default options.
#[verifier::external_body]
fn remote_push(remote: &mut git2::Remote<'_>, refspec: &str) -> (r: Result<(), git2::Error>) {
    remote.push(&[refspec], None)
}

/// The name of the remote that entries are pushed to.
pub const REMOTE_NAME: &'static str = "origin";

/// The branch that is pushed, to the branch of the same name on the remote.
pub const PUSH_REFSPEC: &'static str = "refs/heads/master:refs/heads/master";

/// The git operation that failed.
#[derive(Clone, Copy, Debug, PartialEq, Eq, Structural)]
pub enum GitStep {
    OpenRepository,
    ReadIndex,
    StagePath,
    WriteIndex,
    WriteTree,
    FindTree,
    Signature,
    Commit,
    CreateRemote,
    Connect,
    Push,
}

/// Why recording an entry failed.
#[derive(Debug)]
pub enum JournalError {
    /// The path to stage is not inside the repository root.
    OutsideRepository,
    /// `HEAD` does not lead to a commit: the repository is empty, or its
    /// branch tip cannot be resolved.
    NoCommitFound(git2::Error),
    /// A git operation failed, with the cause that git gave.
    Git(GitStep, git2::Error),
}

/// A commit that was made on top of the branch tip.
pub struct CommitRecord {
    /// The new commit.
    pub id: git2::Oid,
    /// Its one parent: the branch tip before the commit.
    pub parent: git2::Oid,
}

/// `..` stands as a whole component of the path at position `i`.
pub open spec fn parent_step_at(p: Seq<char>, i: int) -> bool {
    &&& 0 <= i
    &&& i + 2 <= p.len()
    &&& p[i] == '.'
    &&& p[i + 1] == '.'
    &&& (i == 0 || p[i - 1] == '/')
    &&& (i + 2 == p.len() || p[i + 2] == '/')
}

/// A path names something under the repository root: it is not empty, it is
/// not absolute, and it never steps up to a parent directory.
pub open spec fn repo_relative(p: Seq<char>) -> bool {
    &&& p.len() > 0
    &&& p[0] != '/'
    &&& forall|i: int| !parent_step_at(p, i)
}

/// Whether `path` names something under the repository root.
pub fn is_repo_relative(path: &str) -> (r: bool)
    ensures
        r == repo_relative(path@),
{
    let n = path.unicode_len();
    if n == 0 {
        return false;
    }
    if path.get_char(0) == '/' {
        return false;
    }
    let mut i: usize = 0;
    while i + 1 < n
        invariant
            n == path@.len(),
            n > 0,
            i < n,
            forall|j: int| 0 <= j < i ==> !parent_step_at(path@, j),
        decreases n - i,
    {
        if path.get_char(i) == '.' && path.get_char(i + 1) == '.' && (i == 0 || path.get_char(
            i - 1,
        ) == '/') && (i + 2 == n || path.get_char(i + 2) == '/') {
            assert(parent_step_at(path@, i as int));
            return false;
        }
        i = i + 1;
    }
    assert forall|j: int| !parent_step_at(path@, j) by {
        if 0 <= j < i {
        }
    }
    true
}

/// Opens the journal repository at `root`.
pub fn open_journal(root: &str) -> (r: Result<git2::Repository, JournalError>)
    ensures
        r matches Err(e) ==> e matches JournalError::Git(GitStep::OpenRepository, _),
{
    match open_repository(root) {
        Ok(repo) => Ok(repo),
        Err(e) => Err(JournalError::Git(GitStep::OpenRepository, e)),
    }
}

/// Stages the file at `path`, relative to the repository root, and writes
/// the index. A path outside the root is refused before git is asked.
pub fn stage_entry(repo: &git2::Repository, path: &str) -> (r: Result<(), JournalError>)
    ensures
        (r matches Err(JournalError::OutsideRepository)) <==> !repo_relative(path@),
        !(r matches Err(JournalError::NoCommitFound(_))),
        r matches Err(JournalError::Git(s, _)) ==> s == GitStep::ReadIndex || s
            == GitStep::StagePath || s == GitStep::WriteIndex,
{
    if !is_repo_relative(path) {
        return Err(JournalError::OutsideRepository);
    }
    let mut index = match repository_index(repo) {
        Ok(i) => i,
        Err(e) => return Err(JournalError::Git(GitStep::ReadIndex, e)),
    };
    match index_add_path(&mut index, path) {
        Ok(()) => {},
        Err(e) => return Err(JournalError::Git(GitStep::StagePath, e)),
    }
    match index_write(&mut index) {
        Ok(()) => Ok(()),
        Err(e) => Err(JournalError::Git(GitStep::WriteIndex, e)),
    }
}

/// The commit at the tip of the current branch. Any failure to reach it,
/// an empty repository among them, is `NoCommitFound`.
pub fn find_last_commit(repo: &git2::Repository) -> (r: Result<git2::Commit<'_>, JournalError>)
    ensures
        r matches Err(e) ==> e matches JournalError::NoCommitFound(_),
{
    let head = match head_reference(repo) {
        Ok(h) => h,
        Err(e) => return Err(JournalError::NoCommitFound(e)),
    };
    match reference_commit(&head) {
        Ok(c) => Ok(c),
        Err(e) => Err(JournalError::NoCommitFound(e)),
    }
}

/// Commits what is staged on top of the branch tip, with exactly that tip as
/// parent, and moves `HEAD` to the new commit. Without a tip to build on
/// nothing is written and the error is `NoCommitFound`.
pub fn commit_staged(repo: &git2::Repository, message: &str, name: &str, email: &str) -> (r:
    Result<CommitRecord, JournalError>)
    ensures
        !(r matches Err(JournalError::OutsideRepository)),
        r matches Err(JournalError::Git(s, _)) ==> s == GitStep::ReadIndex || s
            == GitStep::WriteTree || s == GitStep::FindTree || s == GitStep::Signature || s
            == GitStep::Commit,
{
    let parent = find_last_commit(repo)?;
    let mut index = match repository_index(repo) {
        Ok(i) => i,
        Err(e) => return Err(JournalError::Git(GitStep::ReadIndex, e)),
    };
    let tree_id = match index_write_tree(&mut index) {
        Ok(t) => t,
        Err(e) => return Err(JournalError::Git(GitStep::WriteTree, e)),
    };
    let tree = match find_tree(repo, tree_id) {
        Ok(t) => t,
        Err(e) => return Err(JournalError::Git(GitStep::FindTree, e)),
    };
    let sig = match signature_now(name, email) {
        Ok(s) => s,
        Err(e) => return Err(JournalError::Git(GitStep::Signature, e)),
    };
    match create_commit(repo, &sig, message, &tree, &parent) {
        Ok(id) => Ok(CommitRecord { id, parent: commit_id(&parent) }),
        Err(e) => Err(JournalError::Git(GitStep::Commit, e)),
    }
}

/// Stages the entry file at `path` (relative to the repository root) and
/// commits it with `message`, authored by `name` and `email`.
pub fn add_and_commit(
    repo: &git2::Repository,
    path: &str,
    message: &str,
    name: &str,
    email: &str,
) -> (r: Result<CommitRecord, JournalError>)
    ensures
        (r matches Err(JournalError::OutsideRepository)) <==> !repo_relative(path@),
        r matches Err(JournalError::Git(s, _)) ==> s == GitStep::ReadIndex || s
            == GitStep::StagePath || s == GitStep::WriteIndex || s == GitStep::WriteTree || s
            == GitStep::FindTree || s == GitStep::Signature || s == GitStep::Commit,
{
    stage_entry(repo, path)?;
    commit_staged(repo, message, name, email)
}

/// Pushes the branch to the remote `origin`, which is first added with `url`
/// when the repository has none of that name. Local refs are left as they are.
pub fn push(repo: &git2::Repository, url: &str) -> (r: Result<(), JournalError>)
    ensures
        r matches Err(e) ==> e matches JournalError::Git(GitStep::CreateRemote, _)
            || e matches JournalError::Git(GitStep::Connect, _)
            || e matches JournalError::Git(GitStep::Push, _),
{
    let mut remote = match find_remote(repo, REMOTE_NAME) {
        Ok(r) => r,
        Err(_) => match create_remote(repo, REMOTE_NAME, url) {
            Ok(r) => r,
            Err(e) => return Err(JournalError::Git(GitStep::CreateRemote, e)),
        },
    };
    match connect_for_push(&mut remote) {
        Ok(()) => {},
        Err(e) => return Err(JournalError::Git(GitStep::Connect, e)),
    }
    match remote_push(&mut remote, PUSH_REFSPEC) {
        Ok(()) => Ok(()),
        Err(e) => Err(JournalError::Git(GitStep::Push, e)),
    }
}

} // verus!
