//! Error type for the Git Service and its user-facing message conversion.
use vstd::prelude::*;

use crate::text::push_str;

verus! {

/// A Git operation failure, normalized across the repository backend and the
/// git CLI fallback.
#[derive(Debug, Clone, PartialEq, Eq)]
pub enum GitError {
    /// The path is not inside a Git repository.
    NotARepository(String),
    /// The `git` binary could not be found for a CLI fallback.
    GitBinaryNotFound,
    /// Authentication with a remote failed.
    Auth(String),
    /// A merge / stash / pull produced conflicts.
    Conflict(String),
    /// An I/O error occurred.
    Io(String),
    /// The backend reported an error.
    Backend(String),
    /// The operation is not yet implemented by this backend.
    Unsupported(&'static str),
}

pub enum GitErrorV {
    NotARepository(Seq<char>),
    GitBinaryNotFound,
    Auth(Seq<char>),
    Conflict(Seq<char>),
    Io(Seq<char>),
    Backend(Seq<char>),
    Unsupported(Seq<char>),
}

impl DeepView for GitError {
    type V = GitErrorV;

    open spec fn deep_view(&self) -> GitErrorV {
        match self {
            GitError::NotARepository(p) => GitErrorV::NotARepository(p@),
            GitError::GitBinaryNotFound => GitErrorV::GitBinaryNotFound,
            GitError::Auth(m) => GitErrorV::Auth(m@),
            GitError::Conflict(m) => GitErrorV::Conflict(m@),
            GitError::Io(m) => GitErrorV::Io(m@),
            GitError::Backend(m) => GitErrorV::Backend(m@),
            GitError::Unsupported(op) => GitErrorV::Unsupported(op@),
        }
    }
}

/// The user-facing (Japanese) message for an error.
pub open spec fn user_message_of(e: GitErrorV) -> Seq<char> {
    match e {
        GitErrorV::NotARepository(p) => "Git リポジトリではありません: "@ + p,
        GitErrorV::GitBinaryNotFound => "git コマンドが見つかりません"@,
        GitErrorV::Auth(_) => "認証に失敗しました。資格情報を確認してください"@,
        GitErrorV::Conflict(_) => "コンフリクトが発生しました"@,
        GitErrorV::Io(m) => "Git 操作に失敗しました: "@ + m,
        GitErrorV::Backend(m) => "Git 操作に失敗しました: "@ + m,
        GitErrorV::Unsupported(op) => "未対応の操作です: "@ + op,
    }
}

/// The developer-facing description of an error (what `Display` shows).
pub open spec fn describe_of(e: GitErrorV) -> Seq<char> {
    match e {
        GitErrorV::NotARepository(p) => "not a git repository: "@ + p,
        GitErrorV::GitBinaryNotFound => "git binary not found"@,
        GitErrorV::Auth(m) => "authentication failed: "@ + m,
        GitErrorV::Conflict(m) => "conflict: "@ + m,
        GitErrorV::Io(m) => "io error: "@ + m,
        GitErrorV::Backend(m) => "backend error: "@ + m,
        GitErrorV::Unsupported(op) => "unsupported operation: "@ + op,
    }
}

fn prefixed(prefix: &str, rest: &str) -> (r: String)
    ensures
        r@ == prefix@ + rest@,
{
    let mut v: Vec<char> = Vec::new();
    push_str(&mut v, prefix);
    push_str(&mut v, rest);
    assert(v@ == Seq::<char>::empty() + prefix@ + rest@);
    crate::text::string_of(&v)
}

impl GitError {
    /// Convenience constructor for [`GitError::Unsupported`].
    pub fn unsupported(op: &'static str) -> (r: GitError)
        ensures
            r == GitError::Unsupported(op),
    {
        GitError::Unsupported(op)
    }

    /// A concise, user-facing message (Japanese, matching the product UI).
    pub fn user_message(&self) -> (r: String)
        ensures
            r@ == user_message_of(self.deep_view()),
    {
        match self {
            GitError::NotARepository(path) => prefixed("Git リポジトリではありません: ", path.as_str()),
            GitError::GitBinaryNotFound => "git コマンドが見つかりません".to_string(),
            GitError::Auth(_) => "認証に失敗しました。資格情報を確認してください".to_string(),
            GitError::Conflict(_) => "コンフリクトが発生しました".to_string(),
            GitError::Io(msg) => prefixed("Git 操作に失敗しました: ", msg.as_str()),
            GitError::Backend(msg) => prefixed("Git 操作に失敗しました: ", msg.as_str()),
            GitError::Unsupported(op) => prefixed("未対応の操作です: ", op),
        }
    }

    /// The developer-facing description (the text `Display` would show).
    pub fn describe(&self) -> (r: String)
        ensures
            r@ == describe_of(self.deep_view()),
    {
        match self {
            GitError::NotARepository(path) => prefixed("not a git repository: ", path.as_str()),
            GitError::GitBinaryNotFound => "git binary not found".to_string(),
            GitError::Auth(msg) => prefixed("authentication failed: ", msg.as_str()),
            GitError::Conflict(msg) => prefixed("conflict: ", msg.as_str()),
            GitError::Io(msg) => prefixed("io error: ", msg.as_str()),
            GitError::Backend(msg) => prefixed("backend error: ", msg.as_str()),
            GitError::Unsupported(op) => prefixed("unsupported operation: ", op),
        }
    }
}

} // verus!
