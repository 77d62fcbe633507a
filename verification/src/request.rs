//! What the vault asks of the program that embeds it, and what it is told in
//! return.
//!
//! The vault starts no process and touches no file. Each of its operations
//! is a task that names the next piece of outside work, and is resumed with
//! the reply to it.

use vstd::prelude::*;
use vstd::string::StringExecFns;

verus! {

/// A command to run: the program, its arguments, and what to write to its
/// standard input before waiting for it.
#[derive(Clone, Debug, PartialEq, Eq)]
pub struct Invocation {
    pub program: String,
    pub args: Vec<String>,
    pub stdin: Option<String>,
}

/// An [`Invocation`] as plain values.
pub struct InvocationView {
    pub program: Seq<char>,
    pub args: Seq<Seq<char>>,
    pub stdin: Option<Seq<char>>,
}

impl View for Invocation {
    type V = InvocationView;

    open spec fn view(&self) -> InvocationView {
        InvocationView {
            program: self.program@,
            args: self.args.deep_view(),
            stdin: self.stdin.deep_view(),
        }
    }
}

/// One file to copy.
#[derive(Clone, Debug, PartialEq, Eq)]
pub struct CopyJob {
    pub from: String,
    pub to: String,
}

/// A [`CopyJob`] as plain values.
pub struct CopyJobView {
    pub from: Seq<char>,
    pub to: Seq<char>,
}

impl View for CopyJob {
    type V = CopyJobView;

    open spec fn view(&self) -> CopyJobView {
        CopyJobView { from: self.from@, to: self.to@ }
    }
}

/// The jobs of `jobs` as plain values.
pub open spec fn jobs_view(jobs: Seq<CopyJob>) -> Seq<CopyJobView> {
    Seq::new(jobs.len(), |i: int| jobs[i]@)
}

/// A piece of outside work.
#[derive(Clone, Debug, PartialEq, Eq)]
pub enum Request {
    /// Say whether something exists at this path.
    Probe(String),
    /// Make this directory, and its parents where they are missing.
    MakeDirs(String),
    /// Run this command and wait for it.
    Run(Invocation),
    /// Name the files in this directory.
    List(String),
    /// Copy these files, in this order, and stop at the first that fails.
    Copy(Vec<CopyJob>),
}

/// A [`Request`] as plain values.
pub enum RequestView {
    Probe(Seq<char>),
    MakeDirs(Seq<char>),
    Run(InvocationView),
    List(Seq<char>),
    Copy(Seq<CopyJobView>),
}

impl View for Request {
    type V = RequestView;

    open spec fn view(&self) -> RequestView {
        match self {
            Request::Probe(path) => RequestView::Probe(path@),
            Request::MakeDirs(path) => RequestView::MakeDirs(path@),
            Request::Run(command) => RequestView::Run(command@),
            Request::List(path) => RequestView::List(path@),
            Request::Copy(jobs) => RequestView::Copy(jobs_view(jobs@)),
        }
    }
}

/// What came of a piece of outside work.
#[derive(Clone, Debug, PartialEq, Eq)]
pub enum Reply {
    /// The answer to [`Request::Probe`].
    Exists(bool),
    /// [`Request::MakeDirs`] or [`Request::Copy`] was carried out.
    Done,
    /// The command of [`Request::Run`] has ended: whether its exit status
    /// says success, and what it wrote to its two output streams.
    Exited { success: bool, stdout: String, stderr: String },
    /// The file names that [`Request::List`] asked for.
    Listed(Vec<String>),
    /// The work could not be done; the text says why.
    Failed(String),
}

/// A [`Reply`] as plain values.
pub enum ReplyView {
    Exists(bool),
    Done,
    Exited { success: bool, stdout: Seq<char>, stderr: Seq<char> },
    Listed(Seq<Seq<char>>),
    Failed(Seq<char>),
}

impl View for Reply {
    type V = ReplyView;

    open spec fn view(&self) -> ReplyView {
        match self {
            Reply::Exists(exists) => ReplyView::Exists(*exists),
            Reply::Done => ReplyView::Done,
            Reply::Exited { success, stdout, stderr } => ReplyView::Exited {
                success: *success,
                stdout: stdout@,
                stderr: stderr@,
            },
            Reply::Listed(names) => ReplyView::Listed(names.deep_view()),
            Reply::Failed(reason) => ReplyView::Failed(reason@),
        }
    }
}

/// Why an operation of the vault failed.
#[derive(Clone, Debug, PartialEq, Eq)]
pub enum VaultError {
    /// A directory could not be made, a file not copied, or a command not
    /// started; the text is the embedding program's.
    Io(String),
    /// The command that makes the container failed; the text is what it
    /// wrote to its error stream.
    Creation(String),
    /// The command that attaches the container failed; the text is what it
    /// wrote to its error stream.
    Mount(String),
    /// Both the plain and the forced detach failed; the text is what the
    /// plain one wrote to its error stream.
    Unmount(String),
    /// The secret could not be stored; the text is what the command wrote to
    /// its error stream.
    Store(String),
    /// No secret is stored.
    NotFound,
    /// The vault is not mounted.
    NotMounted,
    /// The reply does not answer the request that the task was waiting on.
    Protocol,
}

/// A [`VaultError`] as plain values.
pub enum VaultErrorView {
    Io(Seq<char>),
    Creation(Seq<char>),
    Mount(Seq<char>),
    Unmount(Seq<char>),
    Store(Seq<char>),
    NotFound,
    NotMounted,
    Protocol,
}

impl View for VaultError {
    type V = VaultErrorView;

    open spec fn view(&self) -> VaultErrorView {
        match self {
            VaultError::Io(text) => VaultErrorView::Io(text@),
            VaultError::Creation(text) => VaultErrorView::Creation(text@),
            VaultError::Mount(text) => VaultErrorView::Mount(text@),
            VaultError::Unmount(text) => VaultErrorView::Unmount(text@),
            VaultError::Store(text) => VaultErrorView::Store(text@),
            VaultError::NotFound => VaultErrorView::NotFound,
            VaultError::NotMounted => VaultErrorView::NotMounted,
            VaultError::Protocol => VaultErrorView::Protocol,
        }
    }
}

impl VaultErrorView {
    /// The error in words.
    pub open spec fn message(self) -> Seq<char> {
        match self {
            VaultErrorView::Io(text) => text,
            VaultErrorView::Creation(text) => "Failed to create encrypted volume: "@ + text,
            VaultErrorView::Mount(text) => "Failed to mount volume: "@ + text,
            VaultErrorView::Unmount(text) => "Failed to unmount volume: "@ + text,
            VaultErrorView::Store(text) => "Failed to save password to keychain: "@ + text,
            VaultErrorView::NotFound => "Password not found in keychain"@,
            VaultErrorView::NotMounted => "Volume must be mounted before migration"@,
            VaultErrorView::Protocol => "Reply does not answer the request"@,
        }
    }
}

impl VaultError {
    /// The error in words.
    pub fn message(&self) -> (message: String)
        ensures
            message@ == self@.message(),
    {
        match self {
            VaultError::Io(text) => text.clone(),
            VaultError::Creation(text) => String::from_str("Failed to create encrypted volume: ").concat(
                text.as_str(),
            ),
            VaultError::Mount(text) => String::from_str("Failed to mount volume: ").concat(
                text.as_str(),
            ),
            VaultError::Unmount(text) => String::from_str("Failed to unmount volume: ").concat(
                text.as_str(),
            ),
            VaultError::Store(text) => String::from_str(
                "Failed to save password to keychain: ",
            ).concat(text.as_str()),
            VaultError::NotFound => String::from_str("Password not found in keychain"),
            VaultError::NotMounted => String::from_str("Volume must be mounted before migration"),
            VaultError::Protocol => String::from_str("Reply does not answer the request"),
        }
    }
}

/// What an operation of the vault hands back when it succeeds.
#[derive(Clone, Debug, PartialEq, Eq)]
pub enum Outcome {
    /// The operation is done.
    Done,
    /// The stored secret.
    Secret(String),
    /// The number of notes that were copied.
    Copied(usize),
}

/// An [`Outcome`] as plain values.
pub enum OutcomeView {
    Done,
    Secret(Seq<char>),
    Copied(nat),
}

impl View for Outcome {
    type V = OutcomeView;

    open spec fn view(&self) -> OutcomeView {
        match self {
            Outcome::Done => OutcomeView::Done,
            Outcome::Secret(secret) => OutcomeView::Secret(secret@),
            Outcome::Copied(count) => OutcomeView::Copied(*count as nat),
        }
    }
}

} // verus!
