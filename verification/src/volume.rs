//! The vault: an encrypted container that is made, attached, detached and
//! filled with notes by commands of the system it runs on.

use crate::chance::{alphanumeric_byte, is_alphanumeric};
use crate::request::{
    CopyJob, CopyJobView, Invocation, InvocationView, Outcome, OutcomeView, Reply, ReplyView,
    Request, RequestView, VaultError, VaultErrorView, jobs_view,
};
use crate::text::{is_note, is_note_name, join_path, joined, trim_spaces, trimmed};
use vstd::prelude::*;
use vstd::string::StringExecFns;

verus! {

/// The number of characters in a secret that the vault makes.
pub const SECRET_LENGTH: usize = 32;

/// Whether `secret` is the kind of secret the vault makes: [`SECRET_LENGTH`]
/// ASCII letters and digits.
pub open spec fn is_fresh_secret(secret: Seq<char>) -> bool {
    &&& secret.len() == SECRET_LENGTH
    &&& forall|i: int| 0 <= i < secret.len() ==> is_alphanumeric(#[trigger] secret[i])
}

/// `std::path::Path::exists`, on the path that `path` spells. Nothing is
/// claimed of the answer: it is what the file system says at the moment.
#[verifier::external_body]
fn path_exists(path: &str) -> (exists: bool) {
    std::path::Path::new(path).exists()
}

/// `dirs::home_dir`, as text. Nothing is claimed of the answer: it depends
/// on the environment, and is `None` too where the path is not Unicode.
#[verifier::external_body]
fn home_directory() -> (home: Option<String>) {
    match dirs::home_dir() {
        Some(path) => path.into_os_string().into_string().ok(),
        None => None,
    }
}

/// A secret of [`SECRET_LENGTH`] random ASCII letters and digits.
pub fn generate_secure_password() -> (secret: String)
    ensures
        is_fresh_secret(secret@),
{
    let mut secret = String::new();
    let mut drawn: usize = 0;
    while drawn < SECRET_LENGTH
        invariant
            drawn <= SECRET_LENGTH,
            secret@.len() == drawn,
            forall|i: int| 0 <= i < drawn ==> is_alphanumeric(#[trigger] secret@[i]),
        decreases SECRET_LENGTH - drawn,
    {
        let byte = alphanumeric_byte();
        secret.push(byte as char);
        drawn = drawn + 1;
    }
    secret
}

/// What a vault is, as plain values.
pub struct VolumeView {
    /// The directory the container lies in.
    pub dmg_dir: Seq<char>,
    /// The container file.
    pub dmg_path: Seq<char>,
    /// The name of the volume in the container.
    pub volume_name: Seq<char>,
    /// Where the volume appears when the container is attached.
    pub mount_point: Seq<char>,
}

impl VolumeView {
    /// The vault of the user whose home directory is `home`.
    pub open spec fn of_home(home: Seq<char>) -> VolumeView {
        VolumeView {
            dmg_dir: joined(home, ".journal"@),
            dmg_path: joined(joined(home, ".journal"@), "vault.dmg"@),
            volume_name: "JournalVault"@,
            mount_point: joined("/Volumes"@, "JournalVault"@),
        }
    }

    /// The directory of the notes in the attached volume.
    pub open spec fn entries_path(self) -> Seq<char> {
        joined(self.mount_point, "entries"@)
    }

    /// The command that makes the container: 100 MB, APFS, AES-256, with the
    /// secret on its standard input.
    pub open spec fn create_command(self, secret: Seq<char>) -> InvocationView {
        InvocationView {
            program: "hdiutil"@,
            args: seq![
                "create"@,
                "-size"@,
                "100m"@,
                "-fs"@,
                "APFS"@,
                "-encryption"@,
                "AES-256"@,
                "-stdinpass"@,
                "-volname"@,
                self.volume_name,
                self.dmg_path,
            ],
            stdin: Some(secret),
        }
    }

    /// The command that attaches the container, with the secret and a line
    /// end on its standard input.
    pub open spec fn attach_command(self, secret: Seq<char>) -> InvocationView {
        InvocationView {
            program: "hdiutil"@,
            args: seq!["attach"@, self.dmg_path, "-stdinpass"@],
            stdin: Some(secret + "\n"@),
        }
    }

    /// The command that detaches the volume, by force or not.
    pub open spec fn detach_command(self, force: bool) -> InvocationView {
        InvocationView {
            program: "hdiutil"@,
            args: if force {
                seq!["detach"@, self.mount_point, "-force"@]
            } else {
                seq!["detach"@, self.mount_point]
            },
            stdin: None,
        }
    }
}

/// The hexadecimal digit of a value below sixteen, in lower case.
pub open spec fn hex_digit(value: u8) -> char {
    if value < 10 {
        (48 + value) as u8 as char
    } else {
        (87 + value) as u8 as char
    }
}

/// `bytes` in hexadecimal: two digits for each byte, the higher first.
pub open spec fn hex_of(bytes: Seq<u8>) -> Seq<char> {
    Seq::new(
        2 * bytes.len(),
        |i: int|
            hex_digit(
                if i % 2 == 0 {
                    high_half(bytes[i / 2])
                } else {
                    low_half(bytes[i / 2])
                },
            ),
    )
}

/// `bytes` as one word of a command line: their hexadecimal digits, or
/// where there are no bytes, and so no digits, an empty word in quotes.
pub open spec fn word_of(bytes: Seq<u8>) -> Seq<char> {
    if bytes.len() == 0 {
        "\"\""@
    } else {
        hex_of(bytes)
    }
}

/// The secret as one word of a command line: the word of its UTF-8 bytes.
pub open spec fn secret_word(secret: Seq<char>) -> Seq<char> {
    word_of(vstd::utf8::encode_utf8(secret))
}

/// The line that tells the keychain tool to store the secret, in place of
/// one that may be stored there for the same service and account. The secret
/// stands in it as [`secret_word`], which the tool takes for the bytes it
/// spells.
pub open spec fn store_line(secret: Seq<char>) -> Seq<char> {
    "add-generic-password -a journal-tui -s JournalVault -X "@ + secret_word(secret)
        + " -U -T /usr/bin/security\n"@
}

/// The command that stores the secret in the keychain: the keychain tool
/// reads its commands from its standard input, and is given [`store_line`]
/// there.
pub open spec fn store_command(secret: Seq<char>) -> InvocationView {
    InvocationView { program: "security"@, args: seq!["-i"@], stdin: Some(store_line(secret)) }
}

/// The command that prints the secret stored in the keychain.
pub open spec fn find_command() -> InvocationView {
    InvocationView {
        program: "security"@,
        args: seq![
            "find-generic-password"@,
            "-a"@,
            "journal-tui"@,
            "-s"@,
            "JournalVault"@,
            "-w"@,
        ],
        stdin: None,
    }
}

/// An operation of the vault.
#[derive(Clone, Copy, Debug, PartialEq, Eq, Structural)]
pub enum Operation {
    /// Make the container, its notes directory, and store its secret.
    Create,
    /// Attach the container with a given secret.
    Mount,
    /// Attach the container with the stored secret.
    MountStored,
    /// Detach the volume.
    Unmount,
    /// Store a secret.
    Save,
    /// Read the stored secret.
    Load,
    /// Copy notes into the attached volume.
    Migrate,
}

/// The outside work that a task is waiting on.
#[derive(Clone, Copy, Debug, PartialEq, Eq, Structural)]
pub enum Stage {
    /// The directory of the container is being made.
    MakingParent,
    /// The container is being made.
    Imaging,
    /// The mount point is being looked for, before the container is attached.
    ProbingToAttach,
    /// The container is being attached.
    Attaching,
    /// The notes directory is being made.
    MakingEntries,
    /// The mount point is being looked for, before the volume is detached.
    ProbingToDetach,
    /// The volume is being detached.
    Detaching,
    /// The volume is being detached by force.
    Forcing,
    /// The secret is being stored.
    Storing,
    /// The mount point is being looked for, before the stored secret is read.
    ProbingStored,
    /// The stored secret is being read.
    Finding,
    /// The mount point is being looked for, before notes are copied.
    ProbingToMigrate,
    /// The directory to copy notes from is being looked for.
    ProbingSource,
    /// The files in the directory to copy notes from are being named.
    Listing,
    /// The notes are being copied.
    Copying,
}

/// A task as plain values.
pub struct TaskView {
    pub operation: Operation,
    pub stage: Stage,
    /// The secret to attach with and to store.
    pub secret: Seq<char>,
    /// What the plain detach wrote to its error stream.
    pub diagnostics: Seq<char>,
    /// The directory to copy notes from.
    pub source: Seq<char>,
    /// The number of notes being copied.
    pub count: nat,
}

impl TaskView {
    /// Whether the task waits on work that belongs to its operation.
    pub open spec fn coherent(self) -> bool {
        match self.operation {
            Operation::Create => self.stage == Stage::MakingParent || self.stage == Stage::Imaging
                || self.stage == Stage::ProbingToAttach || self.stage == Stage::Attaching
                || self.stage == Stage::MakingEntries || self.stage == Stage::ProbingToDetach
                || self.stage == Stage::Detaching || self.stage == Stage::Forcing || self.stage
                == Stage::Storing,
            Operation::Mount => self.stage == Stage::ProbingToAttach || self.stage
                == Stage::Attaching,
            Operation::MountStored => self.stage == Stage::ProbingStored || self.stage
                == Stage::Finding || self.stage == Stage::ProbingToAttach || self.stage
                == Stage::Attaching,
            Operation::Unmount => self.stage == Stage::ProbingToDetach || self.stage
                == Stage::Detaching || self.stage == Stage::Forcing,
            Operation::Save => self.stage == Stage::Storing,
            Operation::Load => self.stage == Stage::Finding,
            Operation::Migrate => self.stage == Stage::ProbingToMigrate || self.stage
                == Stage::MakingEntries || self.stage == Stage::ProbingSource || self.stage
                == Stage::Listing || self.stage == Stage::Copying,
        }
    }

    /// A task of `operation` that waits at `stage` and holds nothing yet.
    pub open spec fn fresh(operation: Operation, stage: Stage) -> TaskView {
        TaskView {
            operation,
            stage,
            secret: Seq::empty(),
            diagnostics: Seq::empty(),
            source: Seq::empty(),
            count: 0,
        }
    }

    /// The task, waiting at `stage`.
    pub open spec fn at(self, stage: Stage) -> TaskView {
        TaskView { stage, ..self }
    }
}

/// What a task has come to, as plain values.
pub enum StepView {
    Need(RequestView, TaskView),
    Finished(Result<OutcomeView, VaultErrorView>),
}

/// The copies that bring the notes among `names` from one directory to
/// another, in the order of `names`.
pub open spec fn note_jobs(names: Seq<Seq<char>>, from: Seq<char>, to: Seq<char>) -> Seq<
    CopyJobView,
>
    decreases names.len(),
{
    if names.len() == 0 {
        Seq::empty()
    } else {
        let earlier = note_jobs(names.drop_last(), from, to);
        let name = names.last();
        if is_note_name(name) {
            earlier.push(CopyJobView { from: joined(from, name), to: joined(to, name) })
        } else {
            earlier
        }
    }
}

impl VolumeView {
    /// The first step of making the vault with `secret`: the directory of
    /// the container is made.
    pub open spec fn create_with(self, secret: Seq<char>) -> StepView {
        StepView::Need(
            RequestView::MakeDirs(self.dmg_dir),
            TaskView { secret, ..TaskView::fresh(Operation::Create, Stage::MakingParent) },
        )
    }

    /// The first step of attaching the container with `secret`: the mount
    /// point is looked for.
    pub open spec fn mount(self, secret: Seq<char>) -> StepView {
        StepView::Need(
            RequestView::Probe(self.mount_point),
            TaskView { secret, ..TaskView::fresh(Operation::Mount, Stage::ProbingToAttach) },
        )
    }

    /// The first step of attaching the container with the stored secret:
    /// the mount point is looked for.
    pub open spec fn mount_stored(self) -> StepView {
        StepView::Need(
            RequestView::Probe(self.mount_point),
            TaskView::fresh(Operation::MountStored, Stage::ProbingStored),
        )
    }

    /// The first step of detaching the volume: the mount point is looked
    /// for.
    pub open spec fn unmount(self) -> StepView {
        StepView::Need(
            RequestView::Probe(self.mount_point),
            TaskView::fresh(Operation::Unmount, Stage::ProbingToDetach),
        )
    }

    /// The first step of copying the notes of the directory `source` into
    /// the vault: the mount point is looked for.
    pub open spec fn migrate(self, source: Seq<char>) -> StepView {
        StepView::Need(
            RequestView::Probe(self.mount_point),
            TaskView { source, ..TaskView::fresh(Operation::Migrate, Stage::ProbingToMigrate) },
        )
    }

    /// What follows once the volume is attached: the making of the vault
    /// goes on to make the notes directory, and mounting is done.
    pub open spec fn once_attached(self, task: TaskView) -> StepView {
        if task.operation == Operation::Create {
            StepView::Need(RequestView::MakeDirs(self.entries_path()), task.at(Stage::MakingEntries))
        } else {
            StepView::Finished(Ok(OutcomeView::Done))
        }
    }

    /// What follows once the volume is detached: the making of the vault
    /// goes on to store the secret, and unmounting is done.
    pub open spec fn once_detached(self, task: TaskView) -> StepView {
        if task.operation == Operation::Create {
            storing(task)
        } else {
            StepView::Finished(Ok(OutcomeView::Done))
        }
    }

    /// What `task` comes to when the work it waited on is answered by
    /// `reply`.
    pub open spec fn next(self, task: TaskView, reply: ReplyView) -> StepView {
        let stray = StepView::Finished(Err(VaultErrorView::Protocol));
        match reply {
            ReplyView::Failed(reason) => StepView::Finished(Err(VaultErrorView::Io(reason))),
            ReplyView::Exists(exists) => match task.stage {
                Stage::ProbingToAttach => if exists {
                    self.once_attached(task)
                } else {
                    StepView::Need(
                        RequestView::Run(self.attach_command(task.secret)),
                        task.at(Stage::Attaching),
                    )
                },
                Stage::ProbingToDetach => if exists {
                    StepView::Need(
                        RequestView::Run(self.detach_command(false)),
                        task.at(Stage::Detaching),
                    )
                } else {
                    self.once_detached(task)
                },
                Stage::ProbingStored => if exists {
                    StepView::Finished(Ok(OutcomeView::Done))
                } else {
                    StepView::Need(RequestView::Run(find_command()), task.at(Stage::Finding))
                },
                Stage::ProbingToMigrate => if exists {
                    StepView::Need(
                        RequestView::MakeDirs(self.entries_path()),
                        task.at(Stage::MakingEntries),
                    )
                } else {
                    StepView::Finished(Err(VaultErrorView::NotMounted))
                },
                Stage::ProbingSource => if exists {
                    StepView::Need(RequestView::List(task.source), task.at(Stage::Listing))
                } else {
                    StepView::Finished(Ok(OutcomeView::Copied(0)))
                },
                _ => stray,
            },
            ReplyView::Done => match task.stage {
                Stage::MakingParent => StepView::Need(
                    RequestView::Run(self.create_command(task.secret)),
                    task.at(Stage::Imaging),
                ),
                Stage::MakingEntries => if task.operation == Operation::Create {
                    StepView::Need(
                        RequestView::Probe(self.mount_point),
                        task.at(Stage::ProbingToDetach),
                    )
                } else {
                    StepView::Need(RequestView::Probe(task.source), task.at(Stage::ProbingSource))
                },
                Stage::Copying => StepView::Finished(Ok(OutcomeView::Copied(task.count))),
                _ => stray,
            },
            ReplyView::Exited { success, stdout, stderr } => match task.stage {
                Stage::Imaging => if success {
                    StepView::Need(
                        RequestView::Probe(self.mount_point),
                        task.at(Stage::ProbingToAttach),
                    )
                } else {
                    StepView::Finished(Err(VaultErrorView::Creation(stderr)))
                },
                Stage::Attaching => if success {
                    self.once_attached(task)
                } else {
                    StepView::Finished(Err(VaultErrorView::Mount(stderr)))
                },
                Stage::Detaching => if success {
                    self.once_detached(task)
                } else {
                    StepView::Need(
                        RequestView::Run(self.detach_command(true)),
                        TaskView { stage: Stage::Forcing, diagnostics: stderr, ..task },
                    )
                },
                Stage::Forcing => if success {
                    self.once_detached(task)
                } else {
                    StepView::Finished(Err(VaultErrorView::Unmount(task.diagnostics)))
                },
                Stage::Storing => if success {
                    StepView::Finished(Ok(OutcomeView::Done))
                } else {
                    StepView::Finished(Err(VaultErrorView::Store(stderr)))
                },
                Stage::Finding => if !success {
                    StepView::Finished(Err(VaultErrorView::NotFound))
                } else if task.operation == Operation::Load {
                    StepView::Finished(Ok(OutcomeView::Secret(trimmed(stdout))))
                } else {
                    StepView::Need(
                        RequestView::Probe(self.mount_point),
                        TaskView {
                            stage: Stage::ProbingToAttach,
                            secret: trimmed(stdout),
                            ..task
                        },
                    )
                },
                _ => stray,
            },
            ReplyView::Listed(names) => match task.stage {
                Stage::Listing => {
                    let jobs = note_jobs(names, task.source, self.entries_path());
                    if jobs.len() == 0 {
                        StepView::Finished(Ok(OutcomeView::Copied(0)))
                    } else {
                        StepView::Need(
                            RequestView::Copy(jobs),
                            TaskView { stage: Stage::Copying, count: jobs.len(), ..task },
                        )
                    }
                },
                _ => stray,
            },
        }
    }
}

/// The step that stores the secret of `task`: the command that stores it is
/// run, whatever the secret is.
pub open spec fn storing(task: TaskView) -> StepView {
    StepView::Need(RequestView::Run(store_command(task.secret)), task.at(Stage::Storing))
}

/// The first step of storing `secret`: the command that stores it is run,
/// whatever the secret is.
pub open spec fn save(secret: Seq<char>) -> StepView {
    storing(TaskView { secret, ..TaskView::fresh(Operation::Save, Stage::Storing) })
}

/// The first step of reading the stored secret: the command that prints it
/// is run.
pub open spec fn load() -> StepView {
    StepView::Need(RequestView::Run(find_command()), TaskView::fresh(Operation::Load, Stage::Finding))
}

/// An operation of the vault that waits on outside work.
#[derive(Debug)]
pub struct VaultTask {
    operation: Operation,
    stage: Stage,
    secret: String,
    diagnostics: String,
    source: String,
    count: usize,
}

impl View for VaultTask {
    type V = TaskView;

    closed spec fn view(&self) -> TaskView {
        TaskView {
            operation: self.operation,
            stage: self.stage,
            secret: self.secret@,
            diagnostics: self.diagnostics@,
            source: self.source@,
            count: self.count as nat,
        }
    }
}

/// What an operation of the vault has come to.
#[derive(Debug)]
pub enum Step {
    /// The embedding program is to do this work, and to resume the task with
    /// the reply.
    Need(Request, VaultTask),
    /// The operation is over.
    Finished(Result<Outcome, VaultError>),
}

impl View for Step {
    type V = StepView;

    open spec fn view(&self) -> StepView {
        match self {
            Step::Need(request, task) => StepView::Need(request@, task@),
            Step::Finished(Ok(outcome)) => StepView::Finished(Ok(outcome@)),
            Step::Finished(Err(error)) => StepView::Finished(Err(error@)),
        }
    }
}

/// Every operation begins with a coherent task, and a coherent task stays
/// one, of the same operation, for as long as it goes on.
pub proof fn lemma_tasks_stay_coherent(
    vault: VolumeView,
    secret: Seq<char>,
    source: Seq<char>,
    task: TaskView,
    reply: ReplyView,
)
    ensures
        vault.create_with(secret) matches StepView::Need(_, begun) && begun.coherent(),
        vault.mount(secret) matches StepView::Need(_, begun) && begun.coherent(),
        vault.mount_stored() matches StepView::Need(_, begun) && begun.coherent(),
        vault.unmount() matches StepView::Need(_, begun) && begun.coherent(),
        vault.migrate(source) matches StepView::Need(_, begun) && begun.coherent(),
        save(secret) matches StepView::Need(_, begun) && begun.coherent(),
        load() matches StepView::Need(_, begun) && begun.coherent(),
        task.coherent() ==> (vault.next(task, reply) matches StepView::Need(_, later)
            ==> later.coherent() && later.operation == task.operation),
{
}

/// The most pieces of outside work that a task at `stage` can still ask for,
/// the one it waits on included.
pub open spec fn work_left(stage: Stage) -> nat {
    match stage {
        Stage::MakingParent => 9,
        Stage::ProbingStored => 9,
        Stage::Imaging => 8,
        Stage::Finding => 8,
        Stage::ProbingToAttach => 7,
        Stage::Attaching => 6,
        Stage::ProbingToMigrate => 6,
        Stage::MakingEntries => 5,
        Stage::ProbingToDetach => 4,
        Stage::ProbingSource => 4,
        Stage::Detaching => 3,
        Stage::Listing => 3,
        Stage::Forcing => 2,
        Stage::Copying => 2,
        Stage::Storing => 1,
    }
}

/// Every operation comes to an end: with each reply a task either finishes
/// or has less outside work left to ask for, so that no operation asks for
/// more than nine pieces of it.
pub proof fn lemma_tasks_come_to_an_end(vault: VolumeView, task: TaskView, reply: ReplyView)
    ensures
        0 < work_left(task.stage) <= 9,
        vault.next(task, reply) matches StepView::Need(_, later) ==> work_left(later.stage)
            < work_left(task.stage),
{
}

/// Unmounting a vault that is not mounted succeeds, and runs nothing: all
/// that is asked is whether the mount point exists.
pub proof fn lemma_unmount_of_unmounted_runs_nothing(vault: VolumeView)
    ensures
        vault.unmount() matches StepView::Need(request, task) && {
            &&& request == RequestView::Probe(vault.mount_point)
            &&& vault.next(task, ReplyView::Exists(false)) == StepView::Finished(
                Ok(OutcomeView::Done),
            )
        },
{
}

/// Unmounting a mounted vault detaches it plainly, then by force if that
/// fails, and fails only if both do, with what the plain detach wrote to its
/// error stream.
pub proof fn lemma_unmount_escalates_once(
    vault: VolumeView,
    output: Seq<char>,
    plain: Seq<char>,
    forced: Seq<char>,
)
    ensures
        vault.unmount() matches StepView::Need(_, probing) && (vault.next(
            probing,
            ReplyView::Exists(true),
        ) matches StepView::Need(first, detaching) && {
            &&& first == RequestView::Run(vault.detach_command(false))
            &&& vault.next(
                detaching,
                ReplyView::Exited { success: true, stdout: output, stderr: plain },
            ) == StepView::Finished(Ok(OutcomeView::Done))
            &&& vault.next(
                detaching,
                ReplyView::Exited { success: false, stdout: output, stderr: plain },
            ) matches StepView::Need(second, forcing) && {
                &&& second == RequestView::Run(vault.detach_command(true))
                &&& vault.next(
                    forcing,
                    ReplyView::Exited { success: true, stdout: output, stderr: forced },
                ) == StepView::Finished(Ok(OutcomeView::Done))
                &&& vault.next(
                    forcing,
                    ReplyView::Exited { success: false, stdout: output, stderr: forced },
                ) == StepView::Finished(Err(VaultErrorView::Unmount(plain)))
            }
        }),
{
}

/// Mounting a vault that is mounted succeeds, and runs nothing; mounting one
/// that is not runs the attach command, once, and whatever comes of that
/// command ends the operation.
pub proof fn lemma_mount_attaches_at_most_once(
    vault: VolumeView,
    secret: Seq<char>,
    reply: ReplyView,
)
    ensures
        vault.mount(secret) matches StepView::Need(request, probing) && {
            &&& request == RequestView::Probe(vault.mount_point)
            &&& vault.next(probing, ReplyView::Exists(true)) == StepView::Finished(
                Ok(OutcomeView::Done),
            )
            &&& vault.next(probing, ReplyView::Exists(false)) matches StepView::Need(
                run,
                attaching,
            ) && {
                &&& run == RequestView::Run(vault.attach_command(secret))
                &&& vault.next(attaching, reply) is Finished
                &&& vault.next(attaching, reply) == StepView::Finished(Ok(OutcomeView::Done))
                    <==> (reply matches ReplyView::Exited { success, .. } && success)
            }
        },
{
}

/// Mounting with the stored secret runs nothing where the vault is mounted,
/// fails with [`VaultErrorView::NotFound`] where no secret is stored, and
/// else goes on as mounting with the secret that was read, trimmed.
pub proof fn lemma_mount_stored_reads_then_mounts(
    vault: VolumeView,
    output: Seq<char>,
    errors: Seq<char>,
)
    ensures
        vault.mount_stored() matches StepView::Need(_, probing) && {
            &&& vault.next(probing, ReplyView::Exists(true)) == StepView::Finished(
                Ok(OutcomeView::Done),
            )
            &&& vault.next(probing, ReplyView::Exists(false)) matches StepView::Need(
                run,
                finding,
            ) && {
                &&& run == RequestView::Run(find_command())
                &&& vault.next(
                    finding,
                    ReplyView::Exited { success: false, stdout: output, stderr: errors },
                ) == StepView::Finished(Err(VaultErrorView::NotFound))
                &&& vault.next(
                    finding,
                    ReplyView::Exited { success: true, stdout: output, stderr: errors },
                ) matches StepView::Need(probe, mounting) && {
                    &&& probe == RequestView::Probe(vault.mount_point)
                    &&& mounting.stage == Stage::ProbingToAttach
                    &&& mounting.secret == trimmed(output)
                }
            }
        },
{
}

/// Copying notes needs a mounted vault. With one, the notes directory is
/// made first, whatever there is to copy; a source directory that is missing,
/// or holds no note, gives a count of nothing, and nothing is copied.
pub proof fn lemma_migrate_of_nothing_makes_directory(
    vault: VolumeView,
    source: Seq<char>,
    names: Seq<Seq<char>>,
)
    ensures
        vault.migrate(source) matches StepView::Need(first, probing) && {
            &&& first == RequestView::Probe(vault.mount_point)
            &&& vault.next(probing, ReplyView::Exists(false)) == StepView::Finished(
                Err(VaultErrorView::NotMounted),
            )
            &&& vault.next(probing, ReplyView::Exists(true)) matches StepView::Need(
                second,
                making,
            ) && {
                &&& second == RequestView::MakeDirs(vault.entries_path())
                &&& vault.next(making, ReplyView::Done) matches StepView::Need(third, looking) && {
                    &&& third == RequestView::Probe(source)
                    &&& vault.next(looking, ReplyView::Exists(false)) == StepView::Finished(
                        Ok(OutcomeView::Copied(0)),
                    )
                    &&& vault.next(looking, ReplyView::Exists(true)) matches StepView::Need(
                        fourth,
                        listing,
                    ) && {
                        &&& fourth == RequestView::List(source)
                        &&& (forall|i: int| 0 <= i < names.len() ==> !is_note_name(#[trigger] names[i]))
                            ==> vault.next(listing, ReplyView::Listed(names))
                            == StepView::Finished(Ok(OutcomeView::Copied(0)))
                    }
                }
            }
        },
{
    lemma_note_jobs(names, source, vault.entries_path());
}

/// The notes that are copied are those among the names, in their order, each
/// to the file of its own name: so many of them as there are notes, and
/// their number is what the operation hands back.
pub proof fn lemma_migrate_copies_the_notes(
    vault: VolumeView,
    task: TaskView,
    names: Seq<Seq<char>>,
)
    requires
        task.stage == Stage::Listing,
        exists|i: int| 0 <= i < names.len() && is_note_name(#[trigger] names[i]),
    ensures
        vault.next(task, ReplyView::Listed(names)) matches StepView::Need(request, copying) && {
            &&& request == RequestView::Copy(note_jobs(names, task.source, vault.entries_path()))
            &&& 0 < copying.count <= names.len()
            &&& copying.count == names.filter(|name: Seq<char>| is_note_name(name)).len()
            &&& vault.next(copying, ReplyView::Done) == StepView::Finished(
                Ok(OutcomeView::Copied(copying.count)),
            )
        },
{
    lemma_note_jobs(names, task.source, vault.entries_path());
    let notes = names.filter(|name: Seq<char>| is_note_name(name));
    let i = choose|i: int| 0 <= i < names.len() && is_note_name(#[trigger] names[i]);
    names.lemma_filter_contains(|name: Seq<char>| is_note_name(name), i);
}

/// There is one copy for each note among the names, in the order of the
/// names, from the file of that name in the one directory to the file of
/// that name in the other.
pub proof fn lemma_note_jobs(names: Seq<Seq<char>>, from: Seq<char>, to: Seq<char>)
    ensures
        ({
            let notes = names.filter(|name: Seq<char>| is_note_name(name));
            let jobs = note_jobs(names, from, to);
            &&& jobs.len() == notes.len()
            &&& jobs.len() <= names.len()
            &&& forall|i: int|
                0 <= i < jobs.len() ==> #[trigger] jobs[i] == (CopyJobView {
                    from: joined(from, notes[i]),
                    to: joined(to, notes[i]),
                })
            &&& (forall|i: int| 0 <= i < names.len() ==> !is_note_name(#[trigger] names[i]))
                ==> jobs.len() == 0
        }),
    decreases names.len(),
{
    let keep = |name: Seq<char>| is_note_name(name);
    reveal(Seq::filter);
    if names.len() > 0 {
        lemma_note_jobs(names.drop_last(), from, to);
        let earlier = names.drop_last();
        assert(forall|i: int| 0 <= i < earlier.len() ==> earlier[i] == names[i]);
        if is_note_name(names.last()) {
            assert(names.filter(keep) == earlier.filter(keep).push(names.last()));
        } else {
            assert(names.filter(keep) == earlier.filter(keep));
        }
    }
}

/// The making of a vault where none is yet: the directory of the container
/// is made, the container is made, attached, given its notes directory,
/// detached, and its secret stored, in this order.
pub proof fn lemma_create_runs_in_order(
    vault: VolumeView,
    secret: Seq<char>,
    output: Seq<char>,
    errors: Seq<char>,
)
    ensures
        ({
            let ran = ReplyView::Exited { success: true, stdout: output, stderr: errors };
            vault.create_with(secret) matches StepView::Need(first, a) && first
                == RequestView::MakeDirs(vault.dmg_dir) && (vault.next(a, ReplyView::Done) matches StepView::Need(
                second,
                b,
            ) && second == RequestView::Run(vault.create_command(secret)) && (vault.next(b, ran) matches StepView::Need(
                third,
                c,
            ) && third == RequestView::Probe(vault.mount_point) && (vault.next(
                c,
                ReplyView::Exists(false),
            ) matches StepView::Need(fourth, d) && fourth == RequestView::Run(
                vault.attach_command(secret),
            ) && (vault.next(d, ran) matches StepView::Need(fifth, e) && fifth
                == RequestView::MakeDirs(vault.entries_path()) && (vault.next(
                e,
                ReplyView::Done,
            ) matches StepView::Need(sixth, f) && sixth == RequestView::Probe(vault.mount_point)
                && (vault.next(f, ReplyView::Exists(true)) matches StepView::Need(seventh, g)
                && seventh == RequestView::Run(vault.detach_command(false)) && (vault.next(
                g,
                ran,
            ) matches StepView::Need(eighth, h) && eighth == RequestView::Run(
                store_command(secret),
            ) && vault.next(h, ran) == StepView::Finished(Ok(OutcomeView::Done)))))))))
        }),
{
}

/// A command that fails ends the making of a vault with the error of its
/// stage, and what the command wrote to its error stream.
pub proof fn lemma_create_fails_with_diagnostics(
    vault: VolumeView,
    task: TaskView,
    output: Seq<char>,
    errors: Seq<char>,
)
    requires
        task.operation == Operation::Create,
    ensures
        ({
            let failed = ReplyView::Exited { success: false, stdout: output, stderr: errors };
            &&& vault.next(task.at(Stage::Imaging), failed) == StepView::Finished(
                Err(VaultErrorView::Creation(errors)),
            )
            &&& vault.next(task.at(Stage::Attaching), failed) == StepView::Finished(
                Err(VaultErrorView::Mount(errors)),
            )
            &&& vault.next(task.at(Stage::Forcing), failed) == StepView::Finished(
                Err(VaultErrorView::Unmount(task.diagnostics)),
            )
            &&& vault.next(task.at(Stage::Storing), failed) == StepView::Finished(
                Err(VaultErrorView::Store(errors)),
            )
        }),
{
}

/// No command carries the secret among its arguments, where the list of
/// processes would show it: the arguments of every command are the same
/// whatever the secret is, and the secret goes to the command on its
/// standard input.
pub proof fn lemma_secret_goes_by_standard_input(
    vault: VolumeView,
    secret: Seq<char>,
    other: Seq<char>,
)
    ensures
        vault.create_command(secret).args == vault.create_command(other).args,
        vault.attach_command(secret).args == vault.attach_command(other).args,
        store_command(secret).args == store_command(other).args,
        vault.create_command(secret).stdin == Some(secret),
        vault.attach_command(secret).stdin == Some(secret + "\n"@),
        store_command(secret).stdin == Some(store_line(secret)),
        vault.detach_command(true).stdin is None,
        vault.detach_command(false).stdin is None,
        find_command().stdin is None,
{
}

/// Every secret is stored: whatever the secret is, storing it asks for the
/// one command that stores it, and the making of a vault begins.
pub proof fn lemma_every_secret_is_stored(vault: VolumeView, secret: Seq<char>)
    ensures
        save(secret) matches StepView::Need(request, task) && request == RequestView::Run(
            store_command(secret),
        ) && task.secret == secret,
        vault.create_with(secret) matches StepView::Need(request, task) && request
            == RequestView::MakeDirs(vault.dmg_dir) && task.secret == secret,
{
}

/// The value of a hexadecimal digit in lower case; 16 for any other
/// character.
pub open spec fn hex_value(digit: char) -> int {
    if '0' <= digit && digit <= '9' {
        digit as u32 - 48
    } else if 'a' <= digit && digit <= 'f' {
        digit as u32 - 87
    } else {
        16
    }
}

/// The word that spells `bytes` is made of two hexadecimal digits for each
/// byte and of nothing else, so that it stands as one word whatever the
/// bytes are; and the digits give the bytes back, so that no two secrets are
/// spelt alike.
pub proof fn lemma_hex_spells_the_bytes(bytes: Seq<u8>, other: Seq<u8>)
    ensures
        hex_of(bytes).len() == 2 * bytes.len(),
        forall|i: int| 0 <= i < hex_of(bytes).len() ==> hex_value(#[trigger] hex_of(bytes)[i]) < 16,
        forall|i: int|
            0 <= i < bytes.len() ==> #[trigger] bytes[i] == 16 * hex_value(hex_of(bytes)[2 * i])
                + hex_value(hex_of(bytes)[2 * i + 1]),
        hex_of(bytes) == hex_of(other) ==> bytes == other,
{
    assert forall|i: int| 0 <= i < hex_of(bytes).len() implies hex_value(
        #[trigger] hex_of(bytes)[i],
    ) < 16 by {
        lemma_hex_digits_of_byte(bytes, i / 2);
    }
    assert forall|i: int| 0 <= i < bytes.len() implies #[trigger] bytes[i] == 16 * hex_value(
        hex_of(bytes)[2 * i],
    ) + hex_value(hex_of(bytes)[2 * i + 1]) by {
        lemma_hex_digits_of_byte(bytes, i);
    }
    if hex_of(bytes) == hex_of(other) {
        assert(hex_of(other).len() == 2 * other.len());
        assert(bytes.len() == other.len());
        assert forall|i: int| 0 <= i < bytes.len() implies bytes[i] == other[i] by {
            lemma_hex_digits_of_byte(bytes, i);
            lemma_hex_digits_of_byte(other, i);
        }
        assert(bytes =~= other);
    }
}

/// The two digits that stand for the byte at `index` are digits, and give
/// the byte back.
proof fn lemma_hex_digits_of_byte(bytes: Seq<u8>, index: int)
    requires
        0 <= index < bytes.len(),
    ensures
        hex_of(bytes)[2 * index] == hex_digit(high_half(bytes[index])),
        hex_of(bytes)[2 * index + 1] == hex_digit(low_half(bytes[index])),
        hex_value(hex_of(bytes)[2 * index]) == high_half(bytes[index]),
        hex_value(hex_of(bytes)[2 * index + 1]) == low_half(bytes[index]),
        hex_value(hex_of(bytes)[2 * index]) < 16,
        hex_value(hex_of(bytes)[2 * index + 1]) < 16,
        bytes[index] == 16 * hex_value(hex_of(bytes)[2 * index]) + hex_value(
            hex_of(bytes)[2 * index + 1],
        ),
{
    let even = 2 * index;
    let odd = 2 * index + 1;
    assert(even % 2 == 0 && even / 2 == index);
    assert(odd % 2 == 1 && odd / 2 == index);
    lemma_halves(bytes[index]);
    lemma_hex_digit_value(high_half(bytes[index]));
    lemma_hex_digit_value(low_half(bytes[index]));
}

/// The higher four bits of a byte, as a value below sixteen.
pub open spec fn high_half(byte: u8) -> u8 {
    byte / 16
}

/// The lower four bits of a byte, as a value below sixteen.
pub open spec fn low_half(byte: u8) -> u8 {
    byte % 16
}

/// The two halves of a byte are below sixteen and make up the byte.
proof fn lemma_halves(byte: u8)
    ensures
        high_half(byte) < 16,
        low_half(byte) < 16,
        byte == 16 * high_half(byte) + low_half(byte),
{
}

/// The digit of a value below sixteen has that value.
proof fn lemma_hex_digit_value(value: u8)
    requires
        value < 16,
    ensures
        hex_value(hex_digit(value)) == value,
{
}

/// Whatever the bytes are, their word is one word: it is not empty, and it
/// is made of hexadecimal digits, or is the two quotes that stand for no
/// bytes, so that no white space is in it; and no two sequences of bytes
/// have the same word.
pub proof fn lemma_word_is_one_word(bytes: Seq<u8>, other: Seq<u8>)
    ensures
        word_of(bytes).len() > 0,
        forall|i: int|
            0 <= i < word_of(bytes).len() ==> !crate::text::is_space(#[trigger] word_of(bytes)[i]),
        bytes.len() > 0 ==> forall|i: int|
            0 <= i < word_of(bytes).len() ==> hex_value(#[trigger] word_of(bytes)[i]) < 16,
        bytes.len() == 0 ==> word_of(bytes) == seq!['"', '"'],
        word_of(bytes) == word_of(other) ==> bytes == other,
{
    reveal_strlit("\"\"");
    assert("\"\""@ =~= seq!['"', '"']);
    lemma_hex_spells_the_bytes(bytes, other);
    lemma_hex_spells_the_bytes(other, bytes);
    assert forall|i: int| 0 <= i < word_of(bytes).len() implies !crate::text::is_space(
        #[trigger] word_of(bytes)[i],
    ) by {
        if bytes.len() > 0 {
            assert(hex_value(hex_of(bytes)[i]) < 16);
        }
    }
    if word_of(bytes) == word_of(other) {
        if bytes.len() == 0 && other.len() > 0 {
            assert(hex_value(hex_of(other)[0]) < 16);
            assert(word_of(bytes)[0] == '"');
        }
        if other.len() == 0 && bytes.len() > 0 {
            assert(hex_value(hex_of(bytes)[0]) < 16);
            assert(word_of(other)[0] == '"');
        }
        if bytes.len() == 0 && other.len() == 0 {
            assert(bytes =~= other);
        }
    }
}

/// The vault of the user whose home directory is `home`, where there is one.
pub open spec fn vault_of(home: Option<Seq<char>>) -> Option<VolumeView> {
    match home {
        Some(home) => Some(VolumeView::of_home(home)),
        None => None,
    }
}

/// The vault of one user.
pub struct VolumeManager {
    dmg_dir: String,
    dmg_path: String,
    volume_name: String,
    mount_point: String,
}

impl View for VolumeManager {
    type V = VolumeView;

    closed spec fn view(&self) -> VolumeView {
        VolumeView {
            dmg_dir: self.dmg_dir@,
            dmg_path: self.dmg_path@,
            volume_name: self.volume_name@,
            mount_point: self.mount_point@,
        }
    }
}

/// `vault` as plain values.
pub open spec fn vault_view(vault: Option<VolumeManager>) -> Option<VolumeView> {
    match vault {
        Some(vault) => Some(vault@),
        None => None,
    }
}

impl Clone for VolumeManager {
    fn clone(&self) -> (copy: Self)
        ensures
            copy@ == self@,
    {
        VolumeManager {
            dmg_dir: self.dmg_dir.clone(),
            dmg_path: self.dmg_path.clone(),
            volume_name: self.volume_name.clone(),
            mount_point: self.mount_point.clone(),
        }
    }
}

impl VolumeManager {
    /// The vault of the present user, or `None` where the user's home
    /// directory cannot be told.
    pub fn new() -> (vault: Option<Self>)
        ensures
            exists|home: Option<Seq<char>>| vault_view(vault) == vault_of(home),
    {
        let home = home_directory();
        let vault = Self::from_home(&home);
        assert(vault_view(vault) == vault_of(home.deep_view()));
        vault
    }

    /// The vault of the user whose home directory `home` tells, or `None`
    /// where it tells none.
    pub fn from_home(home: &Option<String>) -> (vault: Option<Self>)
        ensures
            vault_view(vault) == vault_of(home.deep_view()),
    {
        match home {
            Some(home) => Some(Self::with_home(home.as_str())),
            None => None,
        }
    }

    /// The vault of the user whose home directory is `home`: the container
    /// `vault.dmg` in the directory `.journal` under it, attached at
    /// `/Volumes/JournalVault`.
    pub fn with_home(home: &str) -> (vault: Self)
        ensures
            vault@ == VolumeView::of_home(home@),
    {
        let dmg_dir = join_path(home, ".journal");
        let dmg_path = join_path(dmg_dir.as_str(), "vault.dmg");
        let volume_name = String::from_str("JournalVault");
        let mount_point = join_path("/Volumes", volume_name.as_str());
        VolumeManager { dmg_dir, dmg_path, volume_name, mount_point }
    }

    /// Whether the container file exists at this moment.
    pub fn dmg_exists(&self) -> (exists: bool) {
        path_exists(self.dmg_path.as_str())
    }

    /// Whether the vault is mounted at this moment: whether its mount point
    /// exists.
    pub fn is_mounted(&self) -> (mounted: bool) {
        path_exists(self.mount_point.as_str())
    }

    /// The directory of the notes in the attached volume.
    pub fn get_entries_path(&self) -> (path: String)
        ensures
            path@ == self@.entries_path(),
    {
        join_path(self.mount_point.as_str(), "entries")
    }

    /// The container file.
    pub fn dmg_path(&self) -> (path: &str)
        ensures
            path@ == self@.dmg_path,
    {
        self.dmg_path.as_str()
    }

    /// Where the volume appears when the container is attached.
    pub fn mount_point(&self) -> (path: &str)
        ensures
            path@ == self@.mount_point,
    {
        self.mount_point.as_str()
    }

    /// Begins to make the vault, with a secret drawn for it: the container
    /// is made, attached once so that its notes directory can be made,
    /// detached, and the secret stored.
    pub fn create_encrypted_volume(&self) -> (step: Step)
        ensures
            exists|secret: Seq<char>|
                is_fresh_secret(secret) && step@ == #[trigger] self@.create_with(secret),
    {
        let secret = generate_secure_password();
        let ghost drawn = secret@;
        let step = self.create_encrypted_volume_with(secret);
        assert(step@ == self@.create_with(drawn));
        step
    }

    /// Begins to make the vault with `secret`.
    pub fn create_encrypted_volume_with(&self, secret: String) -> (step: Step)
        ensures
            step@ == self@.create_with(secret@),
    {
        let mut task = VaultTask::fresh(Operation::Create, Stage::MakingParent);
        task.secret = secret;
        Step::Need(Request::MakeDirs(self.dmg_dir.clone()), task)
    }

    /// Begins to attach the container with `password`. Nothing is run where
    /// the vault turns out to be mounted.
    pub fn mount_with_password(&self, password: &str) -> (step: Step)
        ensures
            step@ == self@.mount(password@),
    {
        let mut task = VaultTask::fresh(Operation::Mount, Stage::ProbingToAttach);
        task.secret = String::from_str(password);
        Step::Need(Request::Probe(self.mount_point.clone()), task)
    }

    /// Begins to attach the container with the stored secret. Nothing is run
    /// where the vault turns out to be mounted.
    pub fn mount_with_keychain(&self) -> (step: Step)
        ensures
            step@ == self@.mount_stored(),
    {
        let task = VaultTask::fresh(Operation::MountStored, Stage::ProbingStored);
        Step::Need(Request::Probe(self.mount_point.clone()), task)
    }

    /// Begins to detach the volume. Nothing is run where the vault turns out
    /// not to be mounted; a plain detach that fails is followed by a forced
    /// one.
    pub fn unmount(&self) -> (step: Step)
        ensures
            step@ == self@.unmount(),
    {
        let task = VaultTask::fresh(Operation::Unmount, Stage::ProbingToDetach);
        Step::Need(Request::Probe(self.mount_point.clone()), task)
    }

    /// Begins to store `password` in the keychain: the command that stores
    /// it is run, with the password on its standard input, spelt in
    /// hexadecimal.
    pub fn save_password_to_keychain(&self, password: &str) -> (step: Step)
        ensures
            step@ == save(password@),
    {
        let mut task = VaultTask::fresh(Operation::Save, Stage::Storing);
        task.secret = String::from_str(password);
        store(task)
    }

    /// Begins to read the secret stored in the keychain.
    pub fn get_password_from_keychain(&self) -> (step: Step)
        ensures
            step@ == load(),
    {
        let task = VaultTask::fresh(Operation::Load, Stage::Finding);
        Step::Need(Request::Run(find_invocation()), task)
    }

    /// Begins to copy the notes of the directory `source_dir` into the
    /// vault, which must be mounted.
    pub fn migrate_entries(&self, source_dir: &str) -> (step: Step)
        ensures
            step@ == self@.migrate(source_dir@),
    {
        let mut task = VaultTask::fresh(Operation::Migrate, Stage::ProbingToMigrate);
        task.source = String::from_str(source_dir);
        Step::Need(Request::Probe(self.mount_point.clone()), task)
    }

    /// Goes on with `task`, whose outside work was answered by `reply`.
    pub fn resume(&self, task: VaultTask, reply: Reply) -> (step: Step)
        ensures
            step@ == self@.next(task@, reply@),
    {
        match reply {
            Reply::Failed(reason) => Step::Finished(Err(VaultError::Io(reason))),
            Reply::Exists(exists) => self.resume_probed(task, exists),
            Reply::Done => self.resume_done(task),
            Reply::Exited { success, stdout, stderr } => self.resume_exited(
                task,
                success,
                stdout,
                stderr,
            ),
            Reply::Listed(names) => self.resume_listed(task, names),
        }
    }

    fn resume_probed(&self, task: VaultTask, exists: bool) -> (step: Step)
        ensures
            step@ == self@.next(task@, ReplyView::Exists(exists)),
    {
        match task.stage {
            Stage::ProbingToAttach => if exists {
                self.once_attached(task)
            } else {
                let command = self.attach_invocation(task.secret.as_str());
                Step::Need(Request::Run(command), task.at(Stage::Attaching))
            },
            Stage::ProbingToDetach => if exists {
                Step::Need(Request::Run(self.detach_invocation(false)), task.at(Stage::Detaching))
            } else {
                self.once_detached(task)
            },
            Stage::ProbingStored => if exists {
                Step::Finished(Ok(Outcome::Done))
            } else {
                Step::Need(Request::Run(find_invocation()), task.at(Stage::Finding))
            },
            Stage::ProbingToMigrate => if exists {
                Step::Need(Request::MakeDirs(self.get_entries_path()), task.at(Stage::MakingEntries))
            } else {
                Step::Finished(Err(VaultError::NotMounted))
            },
            Stage::ProbingSource => if exists {
                Step::Need(Request::List(task.source.clone()), task.at(Stage::Listing))
            } else {
                Step::Finished(Ok(Outcome::Copied(0)))
            },
            _ => Step::Finished(Err(VaultError::Protocol)),
        }
    }

    fn resume_done(&self, task: VaultTask) -> (step: Step)
        ensures
            step@ == self@.next(task@, ReplyView::Done),
    {
        match task.stage {
            Stage::MakingParent => {
                let command = self.create_invocation(task.secret.as_str());
                Step::Need(Request::Run(command), task.at(Stage::Imaging))
            },
            Stage::MakingEntries => if task.operation == Operation::Create {
                Step::Need(
                    Request::Probe(self.mount_point.clone()),
                    task.at(Stage::ProbingToDetach),
                )
            } else {
                Step::Need(Request::Probe(task.source.clone()), task.at(Stage::ProbingSource))
            },
            Stage::Copying => Step::Finished(Ok(Outcome::Copied(task.count))),
            _ => Step::Finished(Err(VaultError::Protocol)),
        }
    }

    fn resume_exited(&self, task: VaultTask, success: bool, stdout: String, stderr: String) -> (step:
        Step)
        ensures
            step@ == self@.next(
                task@,
                ReplyView::Exited { success, stdout: stdout@, stderr: stderr@ },
            ),
    {
        match task.stage {
            Stage::Imaging => if success {
                Step::Need(
                    Request::Probe(self.mount_point.clone()),
                    task.at(Stage::ProbingToAttach),
                )
            } else {
                Step::Finished(Err(VaultError::Creation(stderr)))
            },
            Stage::Attaching => if success {
                self.once_attached(task)
            } else {
                Step::Finished(Err(VaultError::Mount(stderr)))
            },
            Stage::Detaching => if success {
                self.once_detached(task)
            } else {
                let mut task = task.at(Stage::Forcing);
                task.diagnostics = stderr;
                Step::Need(Request::Run(self.detach_invocation(true)), task)
            },
            Stage::Forcing => if success {
                self.once_detached(task)
            } else {
                Step::Finished(Err(VaultError::Unmount(task.diagnostics)))
            },
            Stage::Storing => if success {
                Step::Finished(Ok(Outcome::Done))
            } else {
                Step::Finished(Err(VaultError::Store(stderr)))
            },
            Stage::Finding => if !success {
                Step::Finished(Err(VaultError::NotFound))
            } else {
                let secret = String::from_str(trim_spaces(stdout.as_str()));
                if task.operation == Operation::Load {
                    Step::Finished(Ok(Outcome::Secret(secret)))
                } else {
                    let mut task = task.at(Stage::ProbingToAttach);
                    task.secret = secret;
                    Step::Need(Request::Probe(self.mount_point.clone()), task)
                }
            },
            _ => Step::Finished(Err(VaultError::Protocol)),
        }
    }

    fn resume_listed(&self, task: VaultTask, names: Vec<String>) -> (step: Step)
        ensures
            step@ == self@.next(task@, ReplyView::Listed(names.deep_view())),
    {
        match task.stage {
            Stage::Listing => {
                let to = self.get_entries_path();
                let jobs = copies_of_notes(&names, task.source.as_str(), to.as_str());
                if jobs.len() == 0 {
                    Step::Finished(Ok(Outcome::Copied(0)))
                } else {
                    let mut task = task.at(Stage::Copying);
                    task.count = jobs.len();
                    Step::Need(Request::Copy(jobs), task)
                }
            },
            _ => Step::Finished(Err(VaultError::Protocol)),
        }
    }

    fn once_attached(&self, task: VaultTask) -> (step: Step)
        ensures
            step@ == self@.once_attached(task@),
    {
        if task.operation == Operation::Create {
            Step::Need(Request::MakeDirs(self.get_entries_path()), task.at(Stage::MakingEntries))
        } else {
            Step::Finished(Ok(Outcome::Done))
        }
    }

    fn once_detached(&self, task: VaultTask) -> (step: Step)
        ensures
            step@ == self@.once_detached(task@),
    {
        if task.operation == Operation::Create {
            store(task)
        } else {
            Step::Finished(Ok(Outcome::Done))
        }
    }

    fn create_invocation(&self, secret: &str) -> (command: Invocation)
        ensures
            command@ == self@.create_command(secret@),
    {
        let mut args: Vec<String> = Vec::new();
        args.push(String::from_str("create"));
        args.push(String::from_str("-size"));
        args.push(String::from_str("100m"));
        args.push(String::from_str("-fs"));
        args.push(String::from_str("APFS"));
        args.push(String::from_str("-encryption"));
        args.push(String::from_str("AES-256"));
        args.push(String::from_str("-stdinpass"));
        args.push(String::from_str("-volname"));
        args.push(self.volume_name.clone());
        args.push(self.dmg_path.clone());
        assert(args.deep_view() =~= self@.create_command(secret@).args);
        Invocation {
            program: String::from_str("hdiutil"),
            args,
            stdin: Some(String::from_str(secret)),
        }
    }

    fn attach_invocation(&self, secret: &str) -> (command: Invocation)
        ensures
            command@ == self@.attach_command(secret@),
    {
        let mut args: Vec<String> = Vec::new();
        args.push(String::from_str("attach"));
        args.push(self.dmg_path.clone());
        args.push(String::from_str("-stdinpass"));
        assert(args.deep_view() =~= self@.attach_command(secret@).args);
        let mut line = String::from_str(secret);
        line.append("\n");
        Invocation { program: String::from_str("hdiutil"), args, stdin: Some(line) }
    }

    fn detach_invocation(&self, force: bool) -> (command: Invocation)
        ensures
            command@ == self@.detach_command(force),
    {
        let mut args: Vec<String> = Vec::new();
        args.push(String::from_str("detach"));
        args.push(self.mount_point.clone());
        if force {
            args.push(String::from_str("-force"));
        }
        assert(args.deep_view() =~= self@.detach_command(force).args);
        Invocation { program: String::from_str("hdiutil"), args, stdin: None }
    }
}

fn store_invocation(secret: &str) -> (command: Invocation)
    ensures
        command@ == store_command(secret@),
{
    let mut args: Vec<String> = Vec::new();
    args.push(String::from_str("-i"));
    assert(args.deep_view() =~= store_command(secret@).args);
    let mut line = String::from_str("add-generic-password -a journal-tui -s JournalVault -X ");
    let word = word_text(secret.as_bytes());
    line.append(word.as_str());
    line.append(" -U -T /usr/bin/security\n");
    Invocation { program: String::from_str("security"), args, stdin: Some(line) }
}

/// The step that stores the secret of `task`.
fn store(task: VaultTask) -> (step: Step)
    ensures
        step@ == storing(task@),
{
    let command = store_invocation(task.secret.as_str());
    Step::Need(Request::Run(command), task.at(Stage::Storing))
}

/// `bytes` as one word of a command line: their hexadecimal digits, or an
/// empty word in quotes where there are none.
pub fn word_text(bytes: &[u8]) -> (word: String)
    ensures
        word@ == word_of(bytes@),
{
    if bytes.len() == 0 {
        String::from_str("\"\"")
    } else {
        hex_text(bytes)
    }
}

/// `bytes` in hexadecimal: two digits for each byte, the higher first.
pub fn hex_text(bytes: &[u8]) -> (text: String)
    ensures
        text@ == hex_of(bytes@),
{
    let mut text = String::new();
    let mut index: usize = 0;
    while index < bytes.len()
        invariant
            index <= bytes@.len(),
            text@ == hex_of(bytes@).subrange(0, 2 * index),
        decreases bytes@.len() - index,
    {
        let byte = bytes[index];
        text.push(hex_letter(byte / 16));
        text.push(hex_letter(byte % 16));
        assert(text@ =~= hex_of(bytes@).subrange(0, 2 * (index + 1)));
        index = index + 1;
    }
    assert(hex_of(bytes@).subrange(0, 2 * index) =~= hex_of(bytes@));
    text
}

/// The hexadecimal digit of a value below sixteen, in lower case.
fn hex_letter(value: u8) -> (digit: char)
    requires
        value < 16,
    ensures
        digit == hex_digit(value),
{
    if value < 10 {
        (48 + value) as char
    } else {
        (87 + value) as char
    }
}

fn find_invocation() -> (command: Invocation)
    ensures
        command@ == find_command(),
{
    let mut args: Vec<String> = Vec::new();
    args.push(String::from_str("find-generic-password"));
    args.push(String::from_str("-a"));
    args.push(String::from_str("journal-tui"));
    args.push(String::from_str("-s"));
    args.push(String::from_str("JournalVault"));
    args.push(String::from_str("-w"));
    assert(args.deep_view() =~= find_command().args);
    Invocation { program: String::from_str("security"), args, stdin: None }
}

/// The copies that bring the notes among `names` from the directory `from`
/// to the directory `to`.
fn copies_of_notes(names: &Vec<String>, from: &str, to: &str) -> (jobs: Vec<CopyJob>)
    ensures
        jobs_view(jobs@) == note_jobs(names.deep_view(), from@, to@),
{
    let mut jobs: Vec<CopyJob> = Vec::new();
    let mut index: usize = 0;
    while index < names.len()
        invariant
            index <= names@.len(),
            jobs_view(jobs@) == note_jobs(names.deep_view().take(index as int), from@, to@),
        decreases names@.len() - index,
    {
        let name = names[index].as_str();
        let ghost before = names.deep_view().take(index as int);
        let ghost after = names.deep_view().take(index + 1);
        assert(after.drop_last() =~= before);
        assert(after.last() == name@);
        if is_note(name) {
            let ghost earlier = jobs_view(jobs@);
            jobs.push(CopyJob { from: join_path(from, name), to: join_path(to, name) });
            assert(jobs_view(jobs@) =~= earlier.push(
                CopyJobView { from: joined(from@, name@), to: joined(to@, name@) },
            ));
        }
        index = index + 1;
    }
    assert(names.deep_view().take(index as int) =~= names.deep_view());
    jobs
}

impl VaultTask {
    fn fresh(operation: Operation, stage: Stage) -> (task: Self)
        ensures
            task@ == TaskView::fresh(operation, stage),
    {
        VaultTask {
            operation,
            stage,
            secret: String::new(),
            diagnostics: String::new(),
            source: String::new(),
            count: 0,
        }
    }

    fn at(self, stage: Stage) -> (task: Self)
        ensures
            task@ == self@.at(stage),
    {
        let mut task = self;
        task.stage = stage;
        task
    }

    /// The operation the task belongs to.
    pub fn operation(&self) -> (operation: Operation)
        ensures
            operation == self@.operation,
    {
        self.operation
    }

    /// The work the task waits on.
    pub fn stage(&self) -> (stage: Stage)
        ensures
            stage == self@.stage,
    {
        self.stage
    }
}

} // verus!
