//! Getting the storage ready before any operation runs.

use crate::error::{Error, ErrorView};
use crate::protocol::{unexpected_reply_text, Reply, ReplyView};
use vstd::prelude::*;
use vstd::string::StringExecFns;

verus! {

/// One thing for the caller to do while the storage is made ready.
#[derive(Debug)]
pub enum OpenRequest {
    /// Make sure that the directory of the database file is there.
    EnsureDirectory,
    /// Open the database file of this name in that directory.
    Connect { file_name: String, create_if_missing: bool, write_ahead_log: bool },
    /// Apply the migrations that the database has not seen yet.
    Migrate,
}

pub enum OpenRequestView {
    EnsureDirectory,
    Connect { file_name: Seq<char>, create_if_missing: bool, write_ahead_log: bool },
    Migrate,
}

impl View for OpenRequest {
    type V = OpenRequestView;

    open spec fn view(&self) -> OpenRequestView {
        match self {
            OpenRequest::EnsureDirectory => OpenRequestView::EnsureDirectory,
            OpenRequest::Connect { file_name, create_if_missing, write_ahead_log } => {
                OpenRequestView::Connect {
                    file_name: file_name@,
                    create_if_missing: *create_if_missing,
                    write_ahead_log: *write_ahead_log,
                }
            },
            OpenRequest::Migrate => OpenRequestView::Migrate,
        }
    }
}

/// How far the opening has come. Each state names the request whose reply is
/// awaited.
#[derive(Clone, Copy, Debug, PartialEq, Eq, Structural)]
pub enum OpenStorage {
    EnsuringDirectory,
    Connecting,
    Migrating,
}

/// Where the opening stands after a reply.
#[derive(Debug)]
pub enum OpenOutcome {
    Ask(OpenStorage, OpenRequest),
    Done(Result<(), Error>),
}

pub enum OpenStep {
    Ask(OpenStorage, OpenRequestView),
    Done(Result<(), ErrorView>),
}

impl View for OpenOutcome {
    type V = OpenStep;

    open spec fn view(&self) -> OpenStep {
        match self {
            OpenOutcome::Ask(next, request) => OpenStep::Ask(*next, request@),
            OpenOutcome::Done(Ok(())) => OpenStep::Done(Ok(())),
            OpenOutcome::Done(Err(error)) => OpenStep::Done(Err(error@)),
        }
    }
}

/// The name of the database file.
pub open spec fn database_file_name() -> Seq<char> {
    "app_data.sqlite"@
}

/// The request to open the database file: it is made if it is not there, and
/// it keeps a write-ahead log.
pub open spec fn connect_request() -> OpenRequestView {
    OpenRequestView::Connect {
        file_name: database_file_name(),
        create_if_missing: true,
        write_ahead_log: true,
    }
}

/// The failure that a refusal, or a reply that does not answer the request,
/// comes to while the storage is made ready.
pub open spec fn init_failure(reply: ReplyView) -> ErrorView {
    match reply {
        ReplyView::Failed(cause) => ErrorView::StorageInit(cause),
        _ => ErrorView::StorageInit(unexpected_reply_text()),
    }
}

/// What the opening does next: the directory, then the file, then the
/// migrations. The first of them that does not go through ends the opening
/// with that failure, and nothing more is asked for.
pub open spec fn open_storage_step(state: OpenStorage, reply: ReplyView) -> OpenStep {
    match reply {
        ReplyView::Done => match state {
            OpenStorage::EnsuringDirectory => OpenStep::Ask(
                OpenStorage::Connecting,
                connect_request(),
            ),
            OpenStorage::Connecting => OpenStep::Ask(
                OpenStorage::Migrating,
                OpenRequestView::Migrate,
            ),
            OpenStorage::Migrating => OpenStep::Done(Ok(())),
        },
        _ => OpenStep::Done(Err(init_failure(reply))),
    }
}

impl OpenStorage {
    /// Starts the opening with the directory.
    pub fn start() -> (first: (OpenStorage, OpenRequest))
        ensures
            first.0 == OpenStorage::EnsuringDirectory,
            first.1@ == OpenRequestView::EnsureDirectory,
    {
        (OpenStorage::EnsuringDirectory, OpenRequest::EnsureDirectory)
    }
}

/// Takes the opening one reply further.
pub fn open_storage(state: OpenStorage, reply: Reply) -> (outcome: OpenOutcome)
    ensures
        outcome@ == open_storage_step(state, reply@),
{
    match reply {
        Reply::Done => match state {
            OpenStorage::EnsuringDirectory => OpenOutcome::Ask(
                OpenStorage::Connecting,
                OpenRequest::Connect {
                    file_name: String::from_str("app_data.sqlite"),
                    create_if_missing: true,
                    write_ahead_log: true,
                },
            ),
            OpenStorage::Connecting => OpenOutcome::Ask(
                OpenStorage::Migrating,
                OpenRequest::Migrate,
            ),
            OpenStorage::Migrating => OpenOutcome::Done(Ok(())),
        },
        Reply::Failed(cause) => OpenOutcome::Done(Err(Error::StorageInit(cause))),
        _ => OpenOutcome::Done(Err(Error::StorageInit(String::from_str("Unexpected reply")))),
    }
}

/// Where the opening stands after these replies. Replies that come after
/// the end change nothing.
pub open spec fn opening_after(replies: Seq<ReplyView>) -> OpenStep
    decreases replies.len(),
{
    if replies.len() == 0 {
        OpenStep::Ask(OpenStorage::EnsuringDirectory, OpenRequestView::EnsureDirectory)
    } else {
        match opening_after(replies.drop_last()) {
            OpenStep::Ask(reached, _) => open_storage_step(reached, replies.last()),
            OpenStep::Done(result) => OpenStep::Done(result),
        }
    }
}

/// Whether the first `count` replies all say that the step went through.
pub open spec fn went_through(replies: Seq<ReplyView>, count: int) -> bool {
    forall|i: int| 0 <= i < count ==> (#[trigger] replies[i]) is Done
}

/// The storage is handed out only when it is ready. The opening succeeds
/// only after the directory, the file and the migrations have all gone
/// through, in that order; the first step that does not go through ends it
/// with that failure; and until then it asks for the step that is due.
pub proof fn storage_opens_only_when_ready(replies: Seq<ReplyView>)
    ensures
        match opening_after(replies) {
            OpenStep::Done(Ok(())) => replies.len() >= 3 && went_through(replies, 3),
            OpenStep::Done(Err(error)) => exists|at: int|
                0 <= at < replies.len() && at < 3 && went_through(replies, at) && !(
                #[trigger] replies[at] is Done) && error == init_failure(replies[at]),
            OpenStep::Ask(reached, request) => {
                &&& replies.len() < 3
                &&& went_through(replies, replies.len() as int)
                &&& replies.len() == 0 ==> reached == OpenStorage::EnsuringDirectory && request
                    == OpenRequestView::EnsureDirectory
                &&& replies.len() == 1 ==> reached == OpenStorage::Connecting && request
                    == connect_request()
                &&& replies.len() == 2 ==> reached == OpenStorage::Migrating && request
                    == OpenRequestView::Migrate
            },
        },
    decreases replies.len(),
{
    if replies.len() > 0 {
        let earlier = replies.drop_last();
        storage_opens_only_when_ready(earlier);
        assert forall|i: int| 0 <= i < earlier.len() implies earlier[i] == replies[i] by {}
    }
}

} // verus!
