//! The transfer of one file, as a machine: the body of a response goes into a temporary file,
//! which takes the final name only when all of it is there.

use vstd::prelude::*;

use crate::error::{result_model, Error, ErrorModel};
use crate::text::decimal;

verus! {

// ---------------------------------------------------------------------------
// Status codes
// ---------------------------------------------------------------------------
/// How the HTTP library shows a status code: what `reqwest::StatusCode` displays.
pub uninterp spec fn status_text(code: u16) -> Seq<char>;

/// Calls `reqwest::StatusCode::from_u16`, which takes the codes from 100 to 999 and no others,
/// and shows the code by its `Display`. The contract names the text, and says that it starts
/// with the number of the code. What follows the number is left unsaid.
#[verifier::external_body]
fn display_status(code: u16) -> (text: String)
    requires
        100 <= code <= 999,
    ensures
        text@ == status_text(code),
        decimal(code as int).is_prefix_of(text@),
{
    reqwest::StatusCode::from_u16(code).expect("status codes have three digits").to_string()
}

/// Whether a response with this status code holds what was asked for.
pub open spec fn is_success(code: u16) -> bool {
    200 <= code <= 299
}

/// The codes of success are those from two hundred up to, but not including, three hundred.
pub proof fn lemma_success_codes(code: u16)
    ensures
        is_success(code) <==> code / 100 == 2,
{
}

/// The message that a request was answered with a status that is no success, as characters.
pub open spec fn request_failed_text(status: Seq<char>) -> Seq<char> {
    "request failed with HTTP status "@ + status
}

/// The error for a request that was answered with the status shown as `status`.
pub fn request_failed(status: &str) -> (error: Error)
    ensures
        error.deep_view() == ErrorModel::Downloading(request_failed_text(status@)),
{
    let mut text = "request failed with HTTP status ".to_owned();
    text.append(status);
    Error::Downloading(text)
}

/// Decides whether a response with this status code is used. The error for one that is not
/// names the code.
pub fn check_status(code: u16) -> (res: Result<(), Error>)
    requires
        100 <= code <= 999,
    ensures
        result_model(res) == (if is_success(code) {
            Ok::<(), ErrorModel>(())
        } else {
            Err(ErrorModel::Downloading(request_failed_text(status_text(code))))
        }),
        !is_success(code) ==> request_failed_text(decimal(code as int)).is_prefix_of(
            request_failed_text(status_text(code)),
        ) && res is Err,
{
    if 200 <= code && code <= 299 {
        return Ok(());
    }
    let status = display_status(code);
    let error = request_failed(status.as_str());
    proof {
        let short = request_failed_text(decimal(code as int));
        let long = request_failed_text(status@);
        assert forall|i: int| 0 <= i < short.len() implies short[i] == long[i] by {
            let n = "request failed with HTTP status "@.len() as int;
            if i >= n {
                assert(short[i] == decimal(code as int)[i - n]);
                assert(long[i] == status@[i - n]);
            }
        }
    }
    Err(error)
}

// ---------------------------------------------------------------------------
// The machine
// ---------------------------------------------------------------------------
/// Work that a transfer asks for.
#[derive(Debug, PartialEq, Eq)]
pub enum TransferAction {
    /// Send the request.
    SendRequest { url: String },
    /// Create the file that the body goes into.
    CreateFile { path: String },
    /// Show the progress of the transfer: as a part of `total` bytes, where that is known.
    ShowProgress { total: Option<u64>, label: String },
    /// Show that `position` bytes are stored, and read the next piece of the body.
    ReadChunk { position: u64 },
    /// Store the piece that was read.
    WriteChunk,
    /// End the progress display, and rename the file.
    Rename { from: String, to: String },
    /// Nothing: the transfer is over, with this result.
    Finish { result: Result<(), Error> },
}

/// A [`TransferAction`], with its texts as sequences of characters.
#[verifier::ext_equal]
pub enum TransferActionModel {
    SendRequest { url: Seq<char> },
    CreateFile { path: Seq<char> },
    ShowProgress { total: Option<u64>, label: Seq<char> },
    ReadChunk { position: u64 },
    WriteChunk,
    Rename { from: Seq<char>, to: Seq<char> },
    Finish { result: Result<(), ErrorModel> },
}

impl DeepView for TransferAction {
    type V = TransferActionModel;

    open spec fn deep_view(&self) -> TransferActionModel {
        match self {
            TransferAction::SendRequest { url } => TransferActionModel::SendRequest { url: url@ },
            TransferAction::CreateFile { path } => TransferActionModel::CreateFile { path: path@ },
            TransferAction::ShowProgress { total, label } => TransferActionModel::ShowProgress {
                total: *total,
                label: label@,
            },
            TransferAction::ReadChunk { position } => TransferActionModel::ReadChunk {
                position: *position,
            },
            TransferAction::WriteChunk => TransferActionModel::WriteChunk,
            TransferAction::Rename { from, to } => TransferActionModel::Rename {
                from: from@,
                to: to@,
            },
            TransferAction::Finish { result } => TransferActionModel::Finish {
                result: result_model(*result),
            },
        }
    }
}

/// What a transfer asks for at one time.
#[derive(Debug, PartialEq, Eq)]
pub struct TransferStep {
    /// A file to remove before the action; it does not matter whether that succeeds.
    pub cleanup: Option<String>,
    /// The work to be done.
    pub action: TransferAction,
}

/// A [`TransferStep`], with its texts as sequences of characters.
#[verifier::ext_equal]
pub struct TransferStepModel {
    pub cleanup: Option<Seq<char>>,
    pub action: TransferActionModel,
}

impl DeepView for TransferStep {
    type V = TransferStepModel;

    open spec fn deep_view(&self) -> TransferStepModel {
        TransferStepModel { cleanup: self.cleanup.deep_view(), action: self.action.deep_view() }
    }
}

/// The head of a response.
#[derive(Debug, Clone, Copy, PartialEq, Eq)]
pub struct ResponseHead {
    /// Status code.
    pub status: u16,
    /// Number of bytes in the body, where the response says it.
    pub content_length: Option<u64>,
}

/// What came of the work; a text says why it failed.
#[derive(Debug)]
pub enum TransferEvent {
    /// The response, or none.
    Responded(Result<ResponseHead, String>),
    /// The file was created, or not.
    FileCreated(Result<(), String>),
    /// The progress is shown, or not.
    ProgressShown(Result<(), String>),
    /// The length of the next piece of the body, or none at its end.
    ChunkRead(Result<Option<u64>, String>),
    /// The piece was stored, or not.
    ChunkWritten(Result<(), String>),
    /// The file was renamed, or not.
    Renamed(Result<(), String>),
}

/// How far a transfer is.
#[derive(Debug, Clone, Copy, PartialEq, Eq)]
pub enum TransferPhase {
    /// Waits for the response.
    Requesting,
    /// Waits for the file.
    Creating { content_length: Option<u64> },
    /// Waits for the progress display.
    Showing,
    /// Waits for the next piece; `position` bytes are stored.
    Reading { position: u64 },
    /// Waits for a piece to be stored; then `position` bytes are.
    Writing { position: u64 },
    /// Waits for the final name.
    Renaming,
    /// Is over.
    Finished,
}

/// The transfer of one file.
#[derive(Debug, PartialEq, Eq)]
pub struct Transfer {
    /// Path that the file is stored at in the end.
    path: String,
    /// What stands for the file on the screen.
    label: String,
    /// How far the transfer is.
    phase: TransferPhase,
}

/// A [`Transfer`], with its texts as sequences of characters.
#[verifier::ext_equal]
pub struct TransferModel {
    pub path: Seq<char>,
    pub label: Seq<char>,
    pub phase: TransferPhase,
}

impl DeepView for Transfer {
    type V = TransferModel;

    closed spec fn deep_view(&self) -> TransferModel {
        TransferModel { path: self.path@, label: self.label@, phase: self.phase }
    }
}

/// Path of the file that the body goes into before it takes its final name.
pub open spec fn temporary_path(path: Seq<char>) -> Seq<char> {
    path + ".tmp"@
}

/// The temporary file lies next to the final one: its path is that of the final one with `.tmp`
/// behind it.
pub proof fn lemma_temporary_path(path: Seq<char>)
    ensures
        temporary_path(path) == path + seq!['.', 't', 'm', 'p'],
{
    reveal_strlit(".tmp");
    assert(temporary_path(path) =~= path + seq!['.', 't', 'm', 'p']);
}

/// Whether `event` is an answer to what the transfer asked for when it entered `phase`. A status
/// code has three digits, and the length of a body fits into 64 bits.
pub open spec fn accepts(phase: TransferPhase, event: TransferEvent) -> bool {
    match (phase, event) {
        (TransferPhase::Requesting, TransferEvent::Responded(Ok(head))) => 100 <= head.status
            <= 999,
        (TransferPhase::Requesting, TransferEvent::Responded(Err(_))) => true,
        (TransferPhase::Creating { .. }, TransferEvent::FileCreated(_)) => true,
        (TransferPhase::Showing, TransferEvent::ProgressShown(_)) => true,
        (TransferPhase::Reading { position }, TransferEvent::ChunkRead(Ok(Some(length)))) =>
        position + length <= u64::MAX,
        (TransferPhase::Reading { .. }, TransferEvent::ChunkRead(_)) => true,
        (TransferPhase::Writing { .. }, TransferEvent::ChunkWritten(_)) => true,
        (TransferPhase::Renaming, TransferEvent::Renamed(_)) => true,
        _ => false,
    }
}

/// The transfer goes on to `phase`, and asks for `action`.
pub open spec fn going_on(
    t: TransferModel,
    phase: TransferPhase,
    action: TransferActionModel,
) -> (TransferModel, TransferStepModel) {
    (TransferModel { phase, ..t }, TransferStepModel { cleanup: None, action })
}

/// The transfer failed: what is there of the file is removed.
pub open spec fn failed(t: TransferModel, message: Seq<char>) -> (TransferModel, TransferStepModel) {
    (
        TransferModel { phase: TransferPhase::Finished, ..t },
        TransferStepModel {
            cleanup: Some(temporary_path(t.path)),
            action: TransferActionModel::Finish { result: Err(ErrorModel::Downloading(message)) },
        },
    )
}

/// Where the transfer goes on `event`, and what it asks for next.
pub open spec fn next(t: TransferModel, event: TransferEvent) -> (TransferModel, TransferStepModel)
    recommends
        accepts(t.phase, event),
{
    match (t.phase, event) {
        (TransferPhase::Requesting, TransferEvent::Responded(Ok(head))) => if is_success(
            head.status,
        ) {
            going_on(
                t,
                TransferPhase::Creating { content_length: head.content_length },
                TransferActionModel::CreateFile { path: temporary_path(t.path) },
            )
        } else {
            failed(t, request_failed_text(status_text(head.status)))
        },
        (TransferPhase::Creating { content_length }, TransferEvent::FileCreated(Ok(()))) =>
        going_on(
            t,
            TransferPhase::Showing,
            TransferActionModel::ShowProgress { total: content_length, label: t.label },
        ),
        (TransferPhase::Showing, TransferEvent::ProgressShown(Ok(()))) => going_on(
            t,
            TransferPhase::Reading { position: 0 },
            TransferActionModel::ReadChunk { position: 0 },
        ),
        (TransferPhase::Reading { position }, TransferEvent::ChunkRead(Ok(Some(length)))) =>
        going_on(
            t,
            TransferPhase::Writing { position: (position + length) as u64 },
            TransferActionModel::WriteChunk,
        ),
        (TransferPhase::Writing { position }, TransferEvent::ChunkWritten(Ok(()))) => going_on(
            t,
            TransferPhase::Reading { position },
            TransferActionModel::ReadChunk { position },
        ),
        (TransferPhase::Reading { .. }, TransferEvent::ChunkRead(Ok(None))) => going_on(
            t,
            TransferPhase::Renaming,
            TransferActionModel::Rename { from: temporary_path(t.path), to: t.path },
        ),
        (TransferPhase::Renaming, TransferEvent::Renamed(Ok(()))) => going_on(
            t,
            TransferPhase::Finished,
            TransferActionModel::Finish { result: Ok(()) },
        ),
        (TransferPhase::Renaming, TransferEvent::Renamed(Err(reason))) => going_on(
            t,
            TransferPhase::Finished,
            TransferActionModel::Finish { result: Err(ErrorModel::Downloading(reason@)) },
        ),
        (_, TransferEvent::Responded(Err(reason))) => failed(t, reason@),
        (_, TransferEvent::FileCreated(Err(reason))) => failed(t, reason@),
        (_, TransferEvent::ProgressShown(Err(reason))) => failed(t, reason@),
        (_, TransferEvent::ChunkRead(Err(reason))) => failed(t, reason@),
        (_, TransferEvent::ChunkWritten(Err(reason))) => failed(t, reason@),
        _ => arbitrary(),
    }
}

/// How the transfer of `url` to the file `path` begins.
pub open spec fn start(url: Seq<char>, path: Seq<char>, label: Seq<char>) -> (
    TransferModel,
    TransferStepModel,
) {
    (
        TransferModel { path, label, phase: TransferPhase::Requesting },
        TransferStepModel { cleanup: None, action: TransferActionModel::SendRequest { url } },
    )
}

/// A transfer begins with a request for its URL, and with nothing removed. It goes to the file and
/// under the label that it was given.
pub proof fn lemma_beginning(url: Seq<char>, path: Seq<char>, label: Seq<char>)
    ensures
        begun(start(url, path, label).0),
        start(url, path, label).0.path == path,
        start(url, path, label).0.label == label,
        start(url, path, label).1.cleanup is None,
        start(url, path, label).1.action matches TransferActionModel::SendRequest { url: asked }
            && asked == url,
{
}

impl Transfer {
    /// Begins the transfer of `url` to the file `path`.
    pub fn start(url: &str, path: &str, label: &str) -> (res: (Transfer, TransferStep))
        ensures
            (res.0.deep_view(), res.1.deep_view()) == start(url@, path@, label@),
            res.0.deep_view() == (TransferModel {
                path: path@,
                label: label@,
                phase: TransferPhase::Requesting,
            }),
            res.1.deep_view() == (TransferStepModel {
                cleanup: None,
                action: TransferActionModel::SendRequest { url: url@ },
            }),
    {
        let transfer = Transfer {
            path: path.to_owned(),
            label: label.to_owned(),
            phase: TransferPhase::Requesting,
        };
        let action = TransferAction::SendRequest { url: url.to_owned() };
        (transfer, TransferStep { cleanup: None, action })
    }

    /// Takes what came of the work that was asked for, and says what is to be done next.
    pub fn step(self, event: TransferEvent) -> (res: (Transfer, TransferStep))
        requires
            accepts(self.deep_view().phase, event),
        ensures
            (res.0.deep_view(), res.1.deep_view()) == next(self.deep_view(), event),
    {
        match (self.phase, event) {
            (TransferPhase::Requesting, TransferEvent::Responded(Ok(head))) => {
                match check_status(head.status) {
                    Ok(()) => {
                        let path = self.temporary();
                        self.go_on(
                            TransferPhase::Creating { content_length: head.content_length },
                            TransferAction::CreateFile { path },
                        )
                    },
                    Err(error) => {
                        let path = self.temporary();
                        let (transfer, step) = self.go_on(
                            TransferPhase::Finished,
                            TransferAction::Finish { result: Err(error) },
                        );
                        (transfer, TransferStep { cleanup: Some(path), ..step })
                    },
                }
            },
            (TransferPhase::Creating { content_length }, TransferEvent::FileCreated(Ok(()))) => {
                let label = self.label.clone();
                self.go_on(
                    TransferPhase::Showing,
                    TransferAction::ShowProgress { total: content_length, label },
                )
            },
            (TransferPhase::Showing, TransferEvent::ProgressShown(Ok(()))) => self.go_on(
                TransferPhase::Reading { position: 0 },
                TransferAction::ReadChunk { position: 0 },
            ),
            (TransferPhase::Reading { position }, TransferEvent::ChunkRead(Ok(Some(length)))) =>
            self.go_on(
                TransferPhase::Writing { position: position + length },
                TransferAction::WriteChunk,
            ),
            (TransferPhase::Writing { position }, TransferEvent::ChunkWritten(Ok(()))) =>
            self.go_on(
                TransferPhase::Reading { position },
                TransferAction::ReadChunk { position },
            ),
            (TransferPhase::Reading { position: _ }, TransferEvent::ChunkRead(Ok(None))) => {
                let from = self.temporary();
                let to = self.path.clone();
                self.go_on(TransferPhase::Renaming, TransferAction::Rename { from, to })
            },
            (TransferPhase::Renaming, TransferEvent::Renamed(Ok(()))) => self.go_on(
                TransferPhase::Finished,
                TransferAction::Finish { result: Ok(()) },
            ),
            (TransferPhase::Renaming, TransferEvent::Renamed(Err(reason))) => self.go_on(
                TransferPhase::Finished,
                TransferAction::Finish { result: Err(Error::Downloading(reason)) },
            ),
            (_, TransferEvent::Responded(Err(reason))) => self.fail(reason),
            (_, TransferEvent::FileCreated(Err(reason))) => self.fail(reason),
            (_, TransferEvent::ProgressShown(Err(reason))) => self.fail(reason),
            (_, TransferEvent::ChunkRead(Err(reason))) => self.fail(reason),
            (_, TransferEvent::ChunkWritten(Err(reason))) => self.fail(reason),
            _ => {
                assert(false);
                self.go_on(TransferPhase::Finished, TransferAction::Finish { result: Ok(()) })
            },
        }
    }

    /// Path of the file that the body goes into.
    fn temporary(&self) -> (path: String)
        ensures
            path@ == temporary_path(self.path@),
    {
        let mut path = self.path.clone();
        path.append(".tmp");
        path
    }

    /// Goes on to `phase`, and asks for `action`.
    fn go_on(self, phase: TransferPhase, action: TransferAction) -> (res: (Transfer, TransferStep))
        ensures
            (res.0.deep_view(), res.1.deep_view()) == going_on(
                self.deep_view(),
                phase,
                action.deep_view(),
            ),
    {
        (Transfer { phase, ..self }, TransferStep { cleanup: None, action })
    }

    /// Ends the transfer as a failure.
    fn fail(self, reason: String) -> (res: (Transfer, TransferStep))
        ensures
            (res.0.deep_view(), res.1.deep_view()) == failed(self.deep_view(), reason@),
    {
        let path = self.temporary();
        let (transfer, step) = self.go_on(
            TransferPhase::Finished,
            TransferAction::Finish { result: Err(Error::Downloading(reason)) },
        );
        (transfer, TransferStep { cleanup: Some(path), ..step })
    }
}

// ---------------------------------------------------------------------------
// What holds of every transfer
// ---------------------------------------------------------------------------
/// Whether each event is an answer to what the transfer asked for before it.
pub open spec fn answers(t: TransferModel, events: Seq<TransferEvent>) -> bool
    decreases events.len(),
{
    events.len() > 0 ==> {
        &&& answers(t, events.drop_last())
        &&& accepts(outcome(t, events.drop_last()).phase, events.last())
    }
}

/// The transfer after all events.
pub open spec fn outcome(t: TransferModel, events: Seq<TransferEvent>) -> TransferModel
    decreases events.len(),
{
    if events.len() == 0 {
        t
    } else {
        next(outcome(t, events.drop_last()), events.last()).0
    }
}

/// What the transfer asks for after the last of the events.
pub open spec fn last_step(t: TransferModel, events: Seq<TransferEvent>) -> TransferStepModel
    recommends
        events.len() > 0,
{
    next(outcome(t, events.drop_last()), events.last()).1
}

/// Whether the work that `event` answers succeeded.
pub open spec fn succeeded(event: TransferEvent) -> bool {
    match event {
        TransferEvent::Responded(Ok(head)) => is_success(head.status),
        TransferEvent::Responded(Err(_)) => false,
        TransferEvent::FileCreated(result) => result is Ok,
        TransferEvent::ProgressShown(result) => result is Ok,
        TransferEvent::ChunkRead(result) => result is Ok,
        TransferEvent::ChunkWritten(result) => result is Ok,
        TransferEvent::Renamed(result) => result is Ok,
    }
}

/// The number of bytes in the pieces of the body that were read.
pub open spec fn bytes_read(events: Seq<TransferEvent>) -> nat
    decreases events.len(),
{
    if events.len() == 0 {
        0
    } else {
        bytes_read(events.drop_last()) + (match events.last() {
            TransferEvent::ChunkRead(Ok(Some(length))) => length as nat,
            _ => 0,
        })
    }
}

/// A transfer that has just begun.
pub open spec fn begun(t: TransferModel) -> bool {
    t.phase is Requesting
}

/// The path and the label of a transfer stay, it goes on only while all work succeeds, and it
/// knows how many bytes there are.
proof fn lemma_progress(t: TransferModel, events: Seq<TransferEvent>)
    requires
        begun(t),
        answers(t, events),
    ensures
        outcome(t, events).path == t.path,
        outcome(t, events).label == t.label,
        !(outcome(t, events).phase is Finished) ==> forall|i: int|
            0 <= i < events.len() ==> succeeded(#[trigger] events[i]),
        match outcome(t, events).phase {
            TransferPhase::Reading { position } => position == bytes_read(events),
            TransferPhase::Writing { position } => position == bytes_read(events),
            TransferPhase::Renaming => true,
            TransferPhase::Finished => true,
            _ => bytes_read(events) == 0,
        },
    decreases events.len(),
{
    if events.len() > 0 {
        let before = events.drop_last();
        lemma_progress(t, before);
        assert forall|i: int|
            0 <= i < events.len() && !(outcome(t, events).phase is Finished) implies succeeded(
            #[trigger] events[i],
        ) by {
            if i < before.len() {
                assert(before[i] == events[i]);
            }
        }
    }
}

/// The number of bytes in the pieces of the body that were stored.
pub open spec fn bytes_written(events: Seq<TransferEvent>) -> nat
    decreases events.len(),
{
    if events.len() < 2 {
        0
    } else {
        bytes_written(events.drop_last()) + (match (events[events.len() - 2], events.last()) {
            (
                TransferEvent::ChunkRead(Ok(Some(length))),
                TransferEvent::ChunkWritten(Ok(())),
            ) => length as nat,
            _ => 0,
        })
    }
}

/// Where a transfer stands follows from how many answers it got and what the last one was.
proof fn lemma_place(t: TransferModel, events: Seq<TransferEvent>)
    requires
        begun(t),
        answers(t, events),
    ensures
        ({
            let phase = outcome(t, events).phase;
            if events.len() == 0 {
                phase is Requesting
            } else if !succeeded(events.last()) {
                phase is Finished
            } else {
                match events.last() {
                    TransferEvent::Responded(result) => {
                        &&& events.len() == 1
                        &&& result matches Ok(head) && phase == (TransferPhase::Creating {
                            content_length: head.content_length,
                        })
                    },
                    TransferEvent::FileCreated(_) => events.len() == 2 && phase is Showing,
                    TransferEvent::ProgressShown(_) => events.len() == 3 && phase
                        == (TransferPhase::Reading { position: 0 }),
                    TransferEvent::ChunkRead(Ok(Some(_))) => events.len() > 3 && phase is Writing,
                    TransferEvent::ChunkRead(_) => events.len() > 3 && phase is Renaming,
                    TransferEvent::ChunkWritten(_) => events.len() > 4 && phase is Reading,
                    TransferEvent::Renamed(_) => events.len() > 4 && phase is Finished,
                }
            }
        }),
    decreases events.len(),
{
    if events.len() > 0 {
        lemma_place(t, events.drop_last());
    }
}

/// The answers come in a fixed order: the response, the file, the progress display, and then the
/// pieces of the body. A piece that was read is stored before anything else is done, the next one
/// is read only after that, and the file is renamed after the end of the body and at no other
/// time. Only the last answer can be a failure.
pub proof fn lemma_order_of_answers(t: TransferModel, events: Seq<TransferEvent>, i: int)
    requires
        begun(t),
        answers(t, events),
        0 <= i < events.len(),
    ensures
        i < events.len() - 1 ==> succeeded(events[i]),
        i == 0 <==> events[i] is Responded,
        i == 1 <==> events[i] is FileCreated,
        i == 2 <==> events[i] is ProgressShown,
        i >= 3 ==> match events[i - 1] {
            TransferEvent::ProgressShown(_) => events[i] is ChunkRead,
            TransferEvent::ChunkRead(Ok(Some(_))) => events[i] is ChunkWritten,
            TransferEvent::ChunkRead(Ok(None)) => events[i] is Renamed,
            TransferEvent::ChunkWritten(_) => events[i] is ChunkRead,
            _ => false,
        },
    decreases events.len(),
{
    let before = events.drop_last();
    lemma_place(t, before);
    lemma_progress(t, before);
    if i < events.len() - 1 {
        lemma_order_of_answers(t, before, i);
        assert(before[i] == events[i]);
        if i > 0 {
            assert(before[i - 1] == events[i - 1]);
        }
    } else if i > 0 {
        assert(before.last() == events[i - 1]);
    }
}

/// What a transfer asks for is settled by the last answer. A response that is a success has the
/// temporary file created; the progress is shown out of the length that the response gave; then
/// the body is read from its start, every piece that is read is stored, and the next one is read
/// with all bytes so far counted; its end has the temporary file take the final name. Any failure
/// ends the transfer with its reason, and nothing but a file with its final name ends it well.
pub proof fn lemma_what_is_asked_for(t: TransferModel, events: Seq<TransferEvent>)
    requires
        begun(t),
        events.len() > 0,
        answers(t, events),
    ensures
        ({
            let action = last_step(t, events).action;
            let cleanup = last_step(t, events).cleanup;
            &&& match events.last() {
                TransferEvent::Responded(Ok(head)) => if 200 <= head.status < 300 {
                    action == (TransferActionModel::CreateFile { path: t.path + ".tmp"@ })
                } else {
                    action == (TransferActionModel::Finish {
                        result: Err(
                            ErrorModel::Downloading(
                                "request failed with HTTP status "@ + status_text(head.status),
                            ),
                        ),
                    })
                },
                TransferEvent::FileCreated(Ok(())) => {
                    &&& action is ShowProgress
                    &&& action->label == t.label
                    &&& events[0] matches TransferEvent::Responded(Ok(head)) && action->total
                        == head.content_length
                },
                TransferEvent::ProgressShown(Ok(())) => action == (TransferActionModel::ReadChunk {
                    position: 0,
                }),
                TransferEvent::ChunkRead(Ok(Some(_))) => action is WriteChunk,
                TransferEvent::ChunkRead(Ok(None)) => action == (TransferActionModel::Rename {
                    from: t.path + ".tmp"@,
                    to: t.path,
                }),
                TransferEvent::ChunkWritten(Ok(())) => {
                    &&& action is ReadChunk
                    &&& action->position == bytes_read(events)
                },
                TransferEvent::Renamed(Ok(())) => action == (TransferActionModel::Finish {
                    result: Ok(()),
                }),
                TransferEvent::Responded(Err(reason)) => ends_for(action, reason@),
                TransferEvent::FileCreated(Err(reason)) => ends_for(action, reason@),
                TransferEvent::ProgressShown(Err(reason)) => ends_for(action, reason@),
                TransferEvent::ChunkRead(Err(reason)) => ends_for(action, reason@),
                TransferEvent::ChunkWritten(Err(reason)) => ends_for(action, reason@),
                TransferEvent::Renamed(Err(reason)) => ends_for(action, reason@),
            }
            &&& cleanup is Some <==> !succeeded(events.last()) && !(events.last() is Renamed)
            &&& cleanup is Some ==> cleanup->0 == t.path + ".tmp"@
        }),
{
    let before = events.drop_last();
    lemma_place(t, before);
    lemma_progress(t, before);
    lemma_progress(t, events);
    if events.len() == 2 {
        assert(before.last() == events[0]);
    }
    if events.last() is FileCreated {
        lemma_order_of_answers(t, events, events.len() - 1);
    }
}

/// Whether the transfer ends with this reason.
pub open spec fn ends_for(action: TransferActionModel, reason: Seq<char>) -> bool {
    action == (TransferActionModel::Finish { result: Err(ErrorModel::Downloading(reason)) })
}

/// What a transfer asks for can be answered, whatever comes of it: each piece of work has an
/// answer for its success and for its failure that the transfer takes, and none is taken once it
/// is over.
pub proof fn lemma_answers_are_taken(t: TransferModel, event: TransferEvent)
    requires
        accepts(t.phase, event),
    ensures
        ({
            let (after, step) = next(t, event);
            match step.action {
                TransferActionModel::SendRequest { .. } => false,
                TransferActionModel::CreateFile { .. } => forall|r: Result<(), String>| #[trigger]
                    accepts(after.phase, TransferEvent::FileCreated(r)),
                TransferActionModel::ShowProgress { .. } => forall|r: Result<(), String>| #[trigger]
                    accepts(after.phase, TransferEvent::ProgressShown(r)),
                TransferActionModel::ReadChunk { position } => forall|
                    r: Result<Option<u64>, String>,
                | #[trigger]
                    accepts(after.phase, TransferEvent::ChunkRead(r)) <==> (r matches Ok(Some(n))
                        ==> position + n <= u64::MAX),
                TransferActionModel::WriteChunk => forall|r: Result<(), String>| #[trigger]
                    accepts(after.phase, TransferEvent::ChunkWritten(r)),
                TransferActionModel::Rename { .. } => forall|r: Result<(), String>| #[trigger]
                    accepts(after.phase, TransferEvent::Renamed(r)),
                TransferActionModel::Finish { .. } => forall|e: TransferEvent|
                    !(#[trigger] accepts(after.phase, e)),
            }
        }),
{
}

/// A transfer that has just begun takes every response with a code of three digits, and every
/// failure to get one.
pub proof fn lemma_responses_are_taken(t: TransferModel, result: Result<ResponseHead, String>)
    requires
        begun(t),
    ensures
        accepts(t.phase, TransferEvent::Responded(result)) <==> (result matches Ok(head) ==> 100
            <= head.status < 1000),
{
}

proof fn lemma_bytes(t: TransferModel, events: Seq<TransferEvent>)
    requires
        begun(t),
        answers(t, events),
        outcome(t, events).phase is Reading || outcome(t, events).phase is Writing || outcome(
            t,
            events,
        ).phase is Renaming,
    ensures
        bytes_read(events) == bytes_written(events) + (match events.last() {
            TransferEvent::ChunkRead(Ok(Some(length))) => length as nat,
            _ => 0,
        }),
    decreases events.len(),
{
    let before = events.drop_last();
    lemma_place(t, events);
    lemma_place(t, before);
    if events.len() > 3 {
        lemma_bytes(t, before);
        assert(before.last() == events[events.len() - 2]);
    } else {
        reveal_with_fuel(bytes_read, 4);
        reveal_with_fuel(bytes_written, 4);
        lemma_order_of_answers(t, events, 0);
        lemma_order_of_answers(t, events, 1);
        lemma_order_of_answers(t, events, 2);
        assert(before.last() == events[1]);
        assert(before.drop_last().last() == events[0]);
    }
}

/// No piece of the body is dropped: when a transfer asks for the final name, each piece that was
/// read was stored right after that, and as many bytes were stored as were read.
pub proof fn lemma_every_piece_is_stored(t: TransferModel, events: Seq<TransferEvent>)
    requires
        begun(t),
        events.len() > 0,
        answers(t, events),
        last_step(t, events).action is Rename,
    ensures
        forall|k: int|
            0 <= k < events.len() && (#[trigger] events[k] matches TransferEvent::ChunkRead(
                Ok(Some(_)),
            )) ==> k + 1 < events.len() && (events[k + 1] matches TransferEvent::ChunkWritten(
                Ok(()),
            )),
        bytes_written(events) == bytes_read(events),
{
    lemma_place(t, events.drop_last());
    lemma_place(t, events);
    lemma_bytes(t, events);
    assert forall|k: int|
        0 <= k < events.len() && (#[trigger] events[k] matches TransferEvent::ChunkRead(
            Ok(Some(_)),
        )) implies k + 1 < events.len() && (events[k + 1] matches TransferEvent::ChunkWritten(
        Ok(()),
    )) by {
        lemma_order_of_answers(t, events, k);
        if k + 1 < events.len() {
            lemma_order_of_answers(t, events, k + 1);
            assert(events[k + 1] is ChunkWritten);
            if k + 1 == events.len() - 1 {
                assert(events.last() == events[k + 1]);
            }
        } else {
            assert(events.last() == events[k]);
        }
    }
}

/// The final name is given only to a whole file: when a transfer asks for it, the response was
/// a success, every piece of the body was read and stored, and its end was reached.
pub proof fn lemma_final_name_needs_success(t: TransferModel, events: Seq<TransferEvent>)
    requires
        begun(t),
        events.len() > 0,
        answers(t, events),
        last_step(t, events).action is Rename,
    ensures
        forall|i: int| 0 <= i < events.len() ==> succeeded(#[trigger] events[i]),
        events.last() matches TransferEvent::ChunkRead(Ok(None)),
        last_step(t, events).action == (TransferActionModel::Rename {
            from: temporary_path(t.path),
            to: t.path,
        }),
{
    lemma_progress(t, events);
    lemma_progress(t, events.drop_last());
}

/// A transfer that fails before the final name is asked for ends at once with that error, and
/// has the temporary file removed: it leaves no file behind.
pub proof fn lemma_failure_leaves_no_file(t: TransferModel, events: Seq<TransferEvent>)
    requires
        begun(t),
        events.len() > 0,
        answers(t, events),
        !succeeded(events.last()),
        !(events.last() is Renamed),
    ensures
        last_step(t, events).cleanup == Some(temporary_path(t.path)),
        last_step(t, events).action matches TransferActionModel::Finish { result: Err(
            ErrorModel::Downloading(_),
        ) },
        outcome(t, events).phase is Finished,
{
    lemma_progress(t, events.drop_last());
}

/// A transfer that is over takes no more answers.
pub proof fn lemma_end_is_final(t: TransferModel, events: Seq<TransferEvent>, event: TransferEvent)
    requires
        answers(t, events),
        outcome(t, events).phase is Finished,
    ensures
        !answers(t, events.push(event)),
{
    assert(events.push(event).drop_last() =~= events);
}

/// A transfer ends well exactly when the file got its final name, and then nothing is removed.
pub proof fn lemma_success_is_a_renamed_file(t: TransferModel, events: Seq<TransferEvent>)
    requires
        begun(t),
        events.len() > 0,
        answers(t, events),
    ensures
        last_step(t, events).action == (TransferActionModel::Finish { result: Ok(()) }) <==> (
        events.last() matches TransferEvent::Renamed(Ok(()))),
        events.last() is Renamed ==> last_step(t, events).cleanup is None,
{
}

/// The position that is shown is the number of bytes that were read and stored.
pub proof fn lemma_position_counts_bytes(t: TransferModel, events: Seq<TransferEvent>)
    requires
        begun(t),
        events.len() > 0,
        answers(t, events),
        last_step(t, events).action is ReadChunk,
    ensures
        last_step(t, events).action->ReadChunk_position == bytes_read(events),
{
    lemma_progress(t, events);
}

} // verus!
