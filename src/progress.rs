use vstd::prelude::*;
use vstd::string::StringExecFns;
use crate::error::{ErrorCode, ErrorInfo, ErrorInfoView};

verus! {

/// One progress update of a model download, as it is forwarded to the caller.
#[derive(Clone, Debug, PartialEq, Eq)]
pub struct ProgressEvent {
    pub digest: Option<String>,
    pub completed: Option<u64>,
    pub total: Option<u64>,
}

/// The terminal success payload of a model download.
#[derive(Clone, Debug, PartialEq, Eq)]
pub struct PullResponse {
    pub status: String,
}

/// The status that a successful download always reports.
pub open spec fn completed_status() -> Seq<char> {
    "completed"@
}

/// What the backend reports while a download runs.
pub enum PullEvent {
    /// An intermediate status update.
    Progress(ProgressEvent),
    /// The download finished.
    Completed,
    /// The backend or its transport failed, with the failure's description.
    Failed(String),
}

/// What the host must do after a backend report.
#[derive(Debug, PartialEq, Eq)]
pub enum PullAction {
    /// Deliver this event on the progress channel.
    Emit(ProgressEvent),
    /// Hand this terminal result to the caller.
    Finish(Result<PullResponse, ErrorInfo>),
    /// Nothing: the invocation already has its terminal result.
    Ignore,
}

/// The abstract content of a [`PullAction`].
pub enum PullStep {
    Emit(ProgressEvent),
    Finish(Result<Seq<char>, ErrorInfoView>),
    Ignore,
}

impl View for PullAction {
    type V = PullStep;

    open spec fn view(&self) -> PullStep {
        match self {
            PullAction::Emit(p) => PullStep::Emit(*p),
            PullAction::Finish(Ok(resp)) => PullStep::Finish(Ok(resp.status@)),
            PullAction::Finish(Err(e)) => PullStep::Finish(Err(e@)),
            PullAction::Ignore => PullStep::Ignore,
        }
    }
}

/// One transition of a download invocation: from whether it has already finished
/// and the backend's report, to whether it has finished afterwards and what to do.
pub open spec fn next(finished: bool, event: PullEvent) -> (bool, PullStep) {
    if finished {
        (true, PullStep::Ignore)
    } else {
        match event {
            PullEvent::Progress(p) => (false, PullStep::Emit(p)),
            PullEvent::Completed => (true, PullStep::Finish(Ok(completed_status()))),
            PullEvent::Failed(m) => (
                true,
                PullStep::Finish(Err(ErrorInfoView { code: ErrorCode::PullModelError, message: m@ })),
            ),
        }
    }
}

/// The actions of an invocation that receives `events` in order, starting
/// with `finished`.
pub open spec fn run(finished: bool, events: Seq<PullEvent>) -> Seq<PullStep>
    decreases events.len(),
{
    if events.len() == 0 {
        Seq::empty()
    } else {
        let (f, s) = next(finished, events[0]);
        seq![s] + run(f, events.drop_first())
    }
}

/// The backend reports of a download that makes progress `chunks`.
pub open spec fn progress_reports(chunks: Seq<ProgressEvent>) -> Seq<PullEvent> {
    chunks.map_values(|p: ProgressEvent| PullEvent::Progress(p))
}

/// One emission per progress chunk, in order.
pub open spec fn emissions(chunks: Seq<ProgressEvent>) -> Seq<PullStep> {
    chunks.map_values(|p: ProgressEvent| PullStep::Emit(p))
}

/// Progress reports of a running invocation are forwarded one for one, in order,
/// and leave it running.
pub proof fn lemma_progress_forwarded(chunks: Seq<ProgressEvent>, tail: Seq<PullEvent>)
    ensures
        run(false, progress_reports(chunks) + tail) == emissions(chunks) + run(false, tail),
    decreases chunks.len(),
{
    let events = progress_reports(chunks) + tail;
    if chunks.len() == 0 {
        assert(events =~= tail);
        assert(emissions(chunks) + run(false, tail) =~= run(false, tail));
    } else {
        let rest = chunks.drop_first();
        lemma_progress_forwarded(rest, tail);
        assert(events.drop_first() =~= progress_reports(rest) + tail);
        assert(emissions(chunks) + run(false, tail) =~= seq![PullStep::Emit(chunks[0])] + (
        emissions(rest) + run(false, tail)));
    }
}

/// A download that reports progress `chunks` and then succeeds emits exactly one
/// event per chunk, in the order reported, and only then its terminal
/// `completed` result.
pub proof fn lemma_progress_precedes_completion(chunks: Seq<ProgressEvent>)
    ensures
        run(false, progress_reports(chunks).push(PullEvent::Completed)) == emissions(chunks).push(
            PullStep::Finish(Ok(completed_status())),
        ),
{
    let tail = seq![PullEvent::Completed];
    lemma_progress_forwarded(chunks, tail);
    assert(progress_reports(chunks).push(PullEvent::Completed) =~= progress_reports(chunks) + tail);
    assert(run(true, tail.drop_first()) =~= Seq::<PullStep>::empty());
    assert(run(false, tail) =~= seq![PullStep::Finish(Ok(completed_status()))]);
    assert(emissions(chunks).push(PullStep::Finish(Ok(completed_status()))) =~= emissions(chunks)
        + run(false, tail));
}

/// A download that reports progress `chunks` and then fails with `message` emits
/// one event per chunk, in order, and then ends in a failure with the download's
/// error code and that message.
pub proof fn lemma_failure_after_progress(chunks: Seq<ProgressEvent>, message: String)
    ensures
        run(false, progress_reports(chunks).push(PullEvent::Failed(message))) == emissions(
            chunks,
        ).push(
            PullStep::Finish(
                Err(ErrorInfoView { code: ErrorCode::PullModelError, message: message@ }),
            ),
        ),
{
    let tail = seq![PullEvent::Failed(message)];
    let last = PullStep::Finish(
        Err(ErrorInfoView { code: ErrorCode::PullModelError, message: message@ }),
    );
    lemma_progress_forwarded(chunks, tail);
    assert(progress_reports(chunks).push(PullEvent::Failed(message)) =~= progress_reports(chunks)
        + tail);
    assert(run(true, tail.drop_first()) =~= Seq::<PullStep>::empty());
    assert(run(false, tail) =~= seq![last]);
    assert(emissions(chunks).push(last) =~= emissions(chunks) + run(false, tail));
}

/// Once an invocation has its terminal result, no further report produces an action.
pub proof fn lemma_nothing_after_finish(events: Seq<PullEvent>)
    ensures
        run(true, events) =~= Seq::new(events.len(), |i: int| PullStep::Ignore),
    decreases events.len(),
{
    if events.len() > 0 {
        lemma_nothing_after_finish(events.drop_first());
    }
}

/// The decisions of one model-download invocation.
pub struct PullSession {
    finished: bool,
}

impl View for PullSession {
    type V = bool;

    /// Whether the invocation already has its terminal result.
    closed spec fn view(&self) -> bool {
        self.finished
    }
}

impl PullSession {
    pub fn new() -> (r: PullSession)
        ensures
            !r@,
    {
        PullSession { finished: false }
    }

    pub fn is_finished(&self) -> (r: bool)
        ensures
            r == self@,
    {
        self.finished
    }

    /// Decides what to do with one report of the backend.
    pub fn step(&mut self, event: PullEvent) -> (r: PullAction)
        ensures
            (final(self)@, r@) == next(old(self)@, event),
    {
        if self.finished {
            return PullAction::Ignore;
        }
        match event {
            PullEvent::Progress(p) => PullAction::Emit(p),
            PullEvent::Completed => {
                self.finished = true;
                let status = String::from_str("completed");
                PullAction::Finish(Ok(PullResponse { status }))
            },
            PullEvent::Failed(message) => {
                self.finished = true;
                PullAction::Finish(Err(ErrorInfo::new(ErrorCode::PullModelError, message)))
            },
        }
    }
}

} // verus!
