//! The failures that a workflow command can end in, and how a failure of the
//! repository backend is sorted into them.

use vstd::prelude::*;

verus! {

/// What a failure of the backend says went wrong, as far as the workflow
/// tells the cases apart.
#[derive(Debug, Clone, Copy, PartialEq, Eq, Structural)]
pub enum GitCode {
    /// The thing asked for is not there.
    NotFound,
    /// The thing to be made is there already.
    Exists,
    /// The current branch has no commit yet.
    UnbornBranch,
    /// Anything else.
    Other,
}

/// The part of the backend in which a failure arose.
#[derive(Debug, Clone, Copy, PartialEq, Eq, Structural)]
pub enum GitClass {
    /// The operating system refused access to the storage.
    Os,
    /// Anything else.
    Other,
}

/// A failure of the backend, read into plain values.
#[derive(Debug, Clone)]
pub struct GitFailure {
    pub code: GitCode,
    pub class: GitClass,
    pub message: String,
}

/// The reason why a workflow command did not complete.
#[derive(Debug, Clone)]
pub enum GFError {
    /// A failure of the workflow that has no kind of its own.
    Generic(String),
    /// The repository has no commit to anchor a branch on.
    NoHead,
    /// The backend could not reach its storage.
    Io(String),
    /// Any other failure of the backend.
    Git(GitFailure),
    /// The named configuration key was never set.
    ConfigMissing(String),
    /// The command came before the workflow was set up.
    State,
    /// The command needs a branch kind and none was given.
    NoActiveKind,
    /// The named branch is there already.
    BranchExists(String),
    /// The named branch is not there.
    BranchNotFound(String),
    /// A merge left the named paths unresolved.
    MergeConflict(Vec<String>),
}

/// A [`GFError`] as a mathematical value.
pub enum ErrorView {
    Generic(Seq<char>),
    NoHead,
    Io(Seq<char>),
    Git(GitCode, GitClass, Seq<char>),
    ConfigMissing(Seq<char>),
    State,
    NoActiveKind,
    BranchExists(Seq<char>),
    BranchNotFound(Seq<char>),
    MergeConflict(Seq<Seq<char>>),
}

/// The texts of a list of strings.
pub open spec fn texts(v: Seq<String>) -> Seq<Seq<char>> {
    Seq::new(v.len(), |i: int| v[i]@)
}

impl View for GFError {
    type V = ErrorView;

    open spec fn view(&self) -> ErrorView {
        match self {
            GFError::Generic(s) => ErrorView::Generic(s@),
            GFError::NoHead => ErrorView::NoHead,
            GFError::Io(s) => ErrorView::Io(s@),
            GFError::Git(f) => ErrorView::Git(f.code, f.class, f.message@),
            GFError::ConfigMissing(k) => ErrorView::ConfigMissing(k@),
            GFError::State => ErrorView::State,
            GFError::NoActiveKind => ErrorView::NoActiveKind,
            GFError::BranchExists(n) => ErrorView::BranchExists(n@),
            GFError::BranchNotFound(n) => ErrorView::BranchNotFound(n@),
            GFError::MergeConflict(p) => ErrorView::MergeConflict(texts(p@)),
        }
    }
}

impl ErrorView {
    /// The status with which a program that ends in this failure exits:
    /// 2 without a head, 3 for the backend, 4 for its storage, 1 otherwise.
    pub open spec fn exit_code(self) -> int {
        match self {
            ErrorView::NoHead => 2,
            ErrorView::Git(_, _, _) => 3,
            ErrorView::Io(_) => 4,
            _ => 1,
        }
    }

    /// The text that tells a user of this failure.
    pub open spec fn message(self) -> Seq<char> {
        match self {
            ErrorView::Generic(s) => "`"@ + s + "`"@,
            ErrorView::NoHead => "git: no head found"@,
            ErrorView::Io(s) => "io error:"@ + s,
            ErrorView::Git(_, _, s) => "git error:"@ + s,
            ErrorView::ConfigMissing(k) => "configuration key is not set: "@ + k,
            ErrorView::State => "the workflow is not set up: run init first"@,
            ErrorView::NoActiveKind => "no branch kind was given"@,
            ErrorView::BranchExists(n) => "branch exists already: "@ + n,
            ErrorView::BranchNotFound(n) => "branch not found: "@ + n,
            ErrorView::MergeConflict(_) => "merge conflict: resolve it, the branch was kept"@,
        }
    }
}

/// The failure that stands for a backend failure which the operation at hand
/// gives no meaning of its own: one of the storage where the operating
/// system refused, one of the backend otherwise.
pub open spec fn spec_backend_error(code: GitCode, class: GitClass, message: Seq<char>) -> ErrorView {
    if class == GitClass::Os {
        ErrorView::Io(message)
    } else {
        ErrorView::Git(code, class, message)
    }
}

/// What a failed read of the configuration key `key` means.
pub open spec fn spec_config_error(key: Seq<char>, code: GitCode, class: GitClass, message: Seq<char>) -> ErrorView {
    if code == GitCode::NotFound {
        ErrorView::ConfigMissing(key)
    } else {
        spec_backend_error(code, class, message)
    }
}

/// What a failed creation of the branch `name` means.
pub open spec fn spec_create_error(name: Seq<char>, code: GitCode, class: GitClass, message: Seq<char>) -> ErrorView {
    if code == GitCode::Exists {
        ErrorView::BranchExists(name)
    } else {
        spec_backend_error(code, class, message)
    }
}

/// What a failed lookup of the branch `name` means.
pub open spec fn spec_lookup_error(name: Seq<char>, code: GitCode, class: GitClass, message: Seq<char>) -> ErrorView {
    if code == GitCode::NotFound {
        ErrorView::BranchNotFound(name)
    } else {
        spec_backend_error(code, class, message)
    }
}

/// What a failed read of the current head means.
pub open spec fn spec_head_error(code: GitCode, class: GitClass, message: Seq<char>) -> ErrorView {
    if code == GitCode::UnbornBranch || code == GitCode::NotFound {
        ErrorView::NoHead
    } else {
        spec_backend_error(code, class, message)
    }
}

impl GFError {
    /// The status with which a program that ends in this failure exits.
    pub fn exit_code(&self) -> (r: i32)
        ensures
            r == self@.exit_code(),
    {
        match self {
            GFError::NoHead => 2,
            GFError::Git(_) => 3,
            GFError::Io(_) => 4,
            _ => 1,
        }
    }

    /// The text that tells a user of this failure.
    pub fn message(&self) -> (r: String)
        ensures
            r@ == self@.message(),
    {
        match self {
            GFError::Generic(s) => String::from_str("`").concat(s.as_str()).concat("`"),
            GFError::NoHead => String::from_str("git: no head found"),
            GFError::Io(s) => String::from_str("io error:").concat(s.as_str()),
            GFError::Git(f) => String::from_str("git error:").concat(f.message.as_str()),
            GFError::ConfigMissing(k) => String::from_str("configuration key is not set: ").concat(
                k.as_str(),
            ),
            GFError::State => String::from_str("the workflow is not set up: run init first"),
            GFError::NoActiveKind => String::from_str("no branch kind was given"),
            GFError::BranchExists(n) => String::from_str("branch exists already: ").concat(n.as_str()),
            GFError::BranchNotFound(n) => String::from_str("branch not found: ").concat(n.as_str()),
            GFError::MergeConflict(_) => String::from_str(
                "merge conflict: resolve it, the branch was kept",
            ),
        }
    }

    /// The failure that stands for a backend failure to which the operation
    /// at hand gives no meaning of its own.
    pub fn backend(failure: GitFailure) -> (r: GFError)
        ensures
            r@ == spec_backend_error(failure.code, failure.class, failure.message@),
    {
        if failure.class == GitClass::Os {
            GFError::Io(failure.message)
        } else {
            GFError::Git(failure)
        }
    }

    /// What a failed read of the configuration key `key` means: the key was
    /// never set where the backend did not find it.
    pub fn reading_config(key: &str, failure: GitFailure) -> (r: GFError)
        ensures
            r@ == spec_config_error(key@, failure.code, failure.class, failure.message@),
    {
        if failure.code == GitCode::NotFound {
            GFError::ConfigMissing(String::from_str(key))
        } else {
            GFError::backend(failure)
        }
    }

    /// What a failed creation of the branch `name` means: the name is taken
    /// where the backend found it in use.
    pub fn creating_branch(name: &str, failure: GitFailure) -> (r: GFError)
        ensures
            r@ == spec_create_error(name@, failure.code, failure.class, failure.message@),
    {
        if failure.code == GitCode::Exists {
            GFError::BranchExists(String::from_str(name))
        } else {
            GFError::backend(failure)
        }
    }

    /// What a failed lookup of the branch `name` means.
    pub fn finding_branch(name: &str, failure: GitFailure) -> (r: GFError)
        ensures
            r@ == spec_lookup_error(name@, failure.code, failure.class, failure.message@),
    {
        if failure.code == GitCode::NotFound {
            GFError::BranchNotFound(String::from_str(name))
        } else {
            GFError::backend(failure)
        }
    }

    /// What a failed read of the current head means: there is no head where
    /// the current branch is unborn or not there.
    pub fn reading_head(failure: GitFailure) -> (r: GFError)
        ensures
            r@ == spec_head_error(failure.code, failure.class, failure.message@),
    {
        if failure.code == GitCode::UnbornBranch || failure.code == GitCode::NotFound {
            GFError::NoHead
        } else {
            GFError::backend(failure)
        }
    }
}

} // verus!
