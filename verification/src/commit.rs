//! The decisions of writing a commit.
//!
//! Writing a commit is a conversation with a repository. The writer asks for
//! one thing at a time, an [`Action`]; whoever drives it does that against
//! the repository and answers with an [`Event`]; the writer then asks for the
//! next thing or ends the run with its result. The writer itself touches no
//! repository: it holds the rules.
//!
//! The run goes through six stages, in this order:
//!
//! 1. open the repository;
//! 2. count the pending changes, and stop where there are none;
//! 3. write the index out as a tree;
//! 4. read the author's name and e-mail address from the configuration;
//! 5. resolve `HEAD` to the commit it points at;
//! 6. create the commit, with that tree and that one parent, and move `HEAD`
//!    to it.
//!
//! Nothing is tried twice: the first failure ends the run.

use vstd::prelude::*;

verus! {

/// The name of an object in the repository's store, as raw bytes.
#[derive(Debug, PartialEq, Eq)]
pub struct ObjectId {
    pub bytes: Vec<u8>,
}

impl View for ObjectId {
    type V = Seq<u8>;

    open spec fn view(&self) -> Seq<u8> {
        self.bytes@
    }
}

/// Why a commit was not written.
#[derive(Debug, PartialEq, Eq)]
pub enum CommitError {
    /// The path does not lead to a repository. Holds what the repository
    /// layer said when it failed to open it.
    RepositoryNotFound(String),
    /// There is no pending change.
    NothingToCommit,
    /// The author's name or e-mail address is not configured.
    MissingIdentity,
    /// `HEAD` points at no commit, as in a repository without history.
    NoHeadCommit,
    /// The repository layer failed at a later stage. Holds what it said.
    StorageFailure(String),
}

/// A [`CommitError`] with its texts as sequences of characters.
pub enum CommitErrorView {
    RepositoryNotFound(Seq<char>),
    NothingToCommit,
    MissingIdentity,
    NoHeadCommit,
    StorageFailure(Seq<char>),
}

impl View for CommitError {
    type V = CommitErrorView;

    open spec fn view(&self) -> CommitErrorView {
        match *self {
            CommitError::RepositoryNotFound(cause) => CommitErrorView::RepositoryNotFound(cause@),
            CommitError::NothingToCommit => CommitErrorView::NothingToCommit,
            CommitError::MissingIdentity => CommitErrorView::MissingIdentity,
            CommitError::NoHeadCommit => CommitErrorView::NoHeadCommit,
            CommitError::StorageFailure(cause) => CommitErrorView::StorageFailure(cause@),
        }
    }
}

/// The line that reports an error. A failure of the repository layer is
/// reported in its own words.
pub open spec fn error_message(error: CommitErrorView) -> Seq<char> {
    match error {
        CommitErrorView::RepositoryNotFound(cause) => cause,
        CommitErrorView::NothingToCommit => "Nothing to commit, working directory clean"@,
        CommitErrorView::MissingIdentity => {
            "Author identity unknown, user.name and user.email must be set"@
        },
        CommitErrorView::NoHeadCommit => "Failed to find HEAD target"@,
        CommitErrorView::StorageFailure(cause) => cause,
    }
}

impl CommitError {
    /// The line that reports this error.
    pub fn message(&self) -> (text: String)
        ensures
            text@ == error_message(self@),
    {
        match self {
            CommitError::RepositoryNotFound(cause) => cause.clone(),
            CommitError::NothingToCommit => "Nothing to commit, working directory clean".to_owned(),
            CommitError::MissingIdentity => {
                "Author identity unknown, user.name and user.email must be set".to_owned()
            },
            CommitError::NoHeadCommit => "Failed to find HEAD target".to_owned(),
            CommitError::StorageFailure(cause) => cause.clone(),
        }
    }
}

/// What the commit to create is made of.
#[derive(Debug, PartialEq, Eq)]
pub struct CommitRequest {
    /// The author's name. The author is the committer too.
    pub name: String,
    /// The author's e-mail address.
    pub email: String,
    /// The commit message.
    pub message: String,
    /// The tree that was written from the index.
    pub tree: ObjectId,
    /// The commit that `HEAD` points at: the one parent.
    pub parent: ObjectId,
}

/// A [`CommitRequest`] with its fields as sequences.
pub struct CommitRequestView {
    pub name: Seq<char>,
    pub email: Seq<char>,
    pub message: Seq<char>,
    pub tree: Seq<u8>,
    pub parent: Seq<u8>,
}

impl View for CommitRequest {
    type V = CommitRequestView;

    open spec fn view(&self) -> CommitRequestView {
        CommitRequestView {
            name: self.name@,
            email: self.email@,
            message: self.message@,
            tree: self.tree@,
            parent: self.parent@,
        }
    }
}

/// What the writer asks of the repository.
#[derive(Debug, PartialEq, Eq)]
pub enum Action {
    /// Open the repository.
    OpenRepository,
    /// Count the entries that differ between `HEAD`, the index and the
    /// working tree.
    CountChanges,
    /// Write the index out as a tree.
    WriteTree,
    /// Read `user.name` and `user.email` from the configuration.
    ReadIdentity,
    /// Resolve `HEAD` to the commit it points at.
    ResolveHead,
    /// Create the commit, signed by its author at the present time as author
    /// and committer, and move `HEAD` to it.
    CreateCommit(CommitRequest),
}

/// An [`Action`] with its fields as sequences.
pub enum ActionView {
    OpenRepository,
    CountChanges,
    WriteTree,
    ReadIdentity,
    ResolveHead,
    CreateCommit(CommitRequestView),
}

impl View for Action {
    type V = ActionView;

    open spec fn view(&self) -> ActionView {
        match *self {
            Action::OpenRepository => ActionView::OpenRepository,
            Action::CountChanges => ActionView::CountChanges,
            Action::WriteTree => ActionView::WriteTree,
            Action::ReadIdentity => ActionView::ReadIdentity,
            Action::ResolveHead => ActionView::ResolveHead,
            Action::CreateCommit(request) => ActionView::CreateCommit(request@),
        }
    }
}

/// What the repository answered.
#[derive(Debug, PartialEq, Eq)]
pub enum Event {
    /// The repository is open.
    Opened,
    /// The number of pending changes.
    ChangesCounted(usize),
    /// The index was written out as this tree.
    TreeWritten(ObjectId),
    /// The configured name and e-mail address. One that is not set, or
    /// cannot be read, is `None`.
    IdentityRead { name: Option<String>, email: Option<String> },
    /// The commit that `HEAD` points at, `None` where it points at none.
    HeadResolved(Option<ObjectId>),
    /// The commit was created under this name, and `HEAD` moved to it.
    Committed(ObjectId),
    /// The repository layer failed at what was asked of it, and said this.
    Failed(String),
}

/// An [`Event`] with its fields as sequences.
pub enum EventView {
    Opened,
    ChangesCounted(nat),
    TreeWritten(Seq<u8>),
    IdentityRead { name: Option<Seq<char>>, email: Option<Seq<char>> },
    HeadResolved(Option<Seq<u8>>),
    Committed(Seq<u8>),
    Failed(Seq<char>),
}

/// A text that may be missing, as a sequence of characters.
pub open spec fn text_view(text: Option<String>) -> Option<Seq<char>> {
    match text {
        Some(text) => Some(text@),
        None => None,
    }
}

/// An object name that may be missing, as a sequence of bytes.
pub open spec fn id_view(id: Option<ObjectId>) -> Option<Seq<u8>> {
    match id {
        Some(id) => Some(id@),
        None => None,
    }
}

impl View for Event {
    type V = EventView;

    open spec fn view(&self) -> EventView {
        match *self {
            Event::Opened => EventView::Opened,
            Event::ChangesCounted(count) => EventView::ChangesCounted(count as nat),
            Event::TreeWritten(tree) => EventView::TreeWritten(tree@),
            Event::IdentityRead { name, email } => EventView::IdentityRead {
                name: text_view(name),
                email: text_view(email),
            },
            Event::HeadResolved(head) => EventView::HeadResolved(id_view(head)),
            Event::Committed(commit) => EventView::Committed(commit@),
            Event::Failed(cause) => EventView::Failed(cause@),
        }
    }
}

/// Where a run stands: what was asked last, and what was learnt so far.
#[derive(Debug, PartialEq, Eq)]
pub enum Stage {
    Opening,
    CountingChanges,
    WritingTree,
    ReadingIdentity { tree: ObjectId },
    ResolvingHead { tree: ObjectId, name: String, email: String },
    Committing,
}

/// A [`Stage`] with its fields as sequences.
pub enum StageView {
    Opening,
    CountingChanges,
    WritingTree,
    ReadingIdentity { tree: Seq<u8> },
    ResolvingHead { tree: Seq<u8>, name: Seq<char>, email: Seq<char> },
    Committing,
}

impl View for Stage {
    type V = StageView;

    open spec fn view(&self) -> StageView {
        match *self {
            Stage::Opening => StageView::Opening,
            Stage::CountingChanges => StageView::CountingChanges,
            Stage::WritingTree => StageView::WritingTree,
            Stage::ReadingIdentity { tree } => StageView::ReadingIdentity { tree: tree@ },
            Stage::ResolvingHead { tree, name, email } => StageView::ResolvingHead {
                tree: tree@,
                name: name@,
                email: email@,
            },
            Stage::Committing => StageView::Committing,
        }
    }
}

/// A run in progress: the message to commit and the stage reached.
#[derive(Debug, PartialEq, Eq)]
pub struct CommitWriter {
    pub message: String,
    pub stage: Stage,
}

/// A [`CommitWriter`] with its fields as sequences.
pub struct CommitWriterView {
    pub message: Seq<char>,
    pub stage: StageView,
}

impl View for CommitWriter {
    type V = CommitWriterView;

    open spec fn view(&self) -> CommitWriterView {
        CommitWriterView { message: self.message@, stage: self.stage@ }
    }
}

/// What a run does on an event: it goes on with another action, or it is
/// over, with the name of the new commit or with an error.
#[derive(Debug, PartialEq, Eq)]
pub enum Step {
    Continue { writer: CommitWriter, action: Action },
    Done(Result<ObjectId, CommitError>),
}

/// A [`Step`] with its fields as sequences.
pub enum StepView {
    Continue { writer: CommitWriterView, action: ActionView },
    Done(Result<Seq<u8>, CommitErrorView>),
}

/// The result of a run, with its fields as sequences.
pub open spec fn result_view(result: Result<ObjectId, CommitError>) -> Result<
    Seq<u8>,
    CommitErrorView,
> {
    match result {
        Ok(commit) => Ok(commit@),
        Err(error) => Err(error@),
    }
}

impl View for Step {
    type V = StepView;

    open spec fn view(&self) -> StepView {
        match *self {
            Step::Continue { writer, action } => StepView::Continue {
                writer: writer@,
                action: action@,
            },
            Step::Done(result) => StepView::Done(result_view(result)),
        }
    }
}

/// What a run fails with on an answer that does not fit what was asked.
pub open spec fn unexpected_answer() -> Seq<char> {
    "Unexpected answer from the repository"@
}

/// A run that goes on from `writer` at another stage.
pub open spec fn proceed(
    writer: CommitWriterView,
    stage: StageView,
    action: ActionView,
) -> StepView {
    StepView::Continue { writer: CommitWriterView { message: writer.message, stage }, action }
}

/// The rules of a run: what follows from an event at a stage.
///
/// A failure reported while opening means that there is no repository; a
/// failure reported later is passed on as it is. No pending change, a
/// missing name or address, and a `HEAD` without commit each end the run
/// with their error. An answer to something that was not asked ends it as a
/// failure of the repository layer.
pub open spec fn next(writer: CommitWriterView, event: EventView) -> StepView {
    match (writer.stage, event) {
        (StageView::Opening, EventView::Failed(cause)) => StepView::Done(
            Err(CommitErrorView::RepositoryNotFound(cause)),
        ),
        (_, EventView::Failed(cause)) => StepView::Done(
            Err(CommitErrorView::StorageFailure(cause)),
        ),
        (StageView::Opening, EventView::Opened) => proceed(
            writer,
            StageView::CountingChanges,
            ActionView::CountChanges,
        ),
        (StageView::CountingChanges, EventView::ChangesCounted(count)) => if count == 0 {
            StepView::Done(Err(CommitErrorView::NothingToCommit))
        } else {
            proceed(writer, StageView::WritingTree, ActionView::WriteTree)
        },
        (StageView::WritingTree, EventView::TreeWritten(tree)) => proceed(
            writer,
            StageView::ReadingIdentity { tree },
            ActionView::ReadIdentity,
        ),
        (
            StageView::ReadingIdentity { tree },
            EventView::IdentityRead { name: Some(name), email: Some(email) },
        ) => proceed(
            writer,
            StageView::ResolvingHead { tree, name, email },
            ActionView::ResolveHead,
        ),
        (StageView::ReadingIdentity { .. }, EventView::IdentityRead { .. }) => StepView::Done(
            Err(CommitErrorView::MissingIdentity),
        ),
        (
            StageView::ResolvingHead { tree, name, email },
            EventView::HeadResolved(Some(parent)),
        ) => proceed(
            writer,
            StageView::Committing,
            ActionView::CreateCommit(
                CommitRequestView { name, email, message: writer.message, tree, parent },
            ),
        ),
        (StageView::ResolvingHead { .. }, EventView::HeadResolved(None)) => StepView::Done(
            Err(CommitErrorView::NoHeadCommit),
        ),
        (StageView::Committing, EventView::Committed(commit)) => StepView::Done(Ok(commit)),
        _ => StepView::Done(Err(CommitErrorView::StorageFailure(unexpected_answer()))),
    }
}

/// A run that ends with a failure of the repository layer, in its words.
fn storage_failure(cause: String) -> (step: Step)
    ensures
        step@ == StepView::Done(Err(CommitErrorView::StorageFailure(cause@))),
{
    Step::Done(Err(CommitError::StorageFailure(cause)))
}

/// A run that ends on an answer to something that was not asked.
fn unexpected() -> (step: Step)
    ensures
        step@ == StepView::Done(Err(CommitErrorView::StorageFailure(unexpected_answer()))),
{
    storage_failure("Unexpected answer from the repository".to_owned())
}

impl CommitWriter {
    /// Starts a run for a commit with the given message. The first thing it
    /// asks is to open the repository.
    pub fn begin(message: &str) -> (start: (CommitWriter, Action))
        ensures
            start.0@ == (CommitWriterView { message: message@, stage: StageView::Opening }),
            start.1@ == ActionView::OpenRepository,
    {
        let writer = CommitWriter { message: message.to_owned(), stage: Stage::Opening };
        (writer, Action::OpenRepository)
    }

    /// Takes the answer to the action that was asked last and says how the
    /// run goes on.
    pub fn step(self, event: Event) -> (step: Step)
        ensures
            step@ == next(self@, event@),
    {
        let CommitWriter { message, stage } = self;
        match stage {
            Stage::Opening => match event {
                Event::Failed(cause) => Step::Done(Err(CommitError::RepositoryNotFound(cause))),
                Event::Opened => Step::Continue {
                    writer: CommitWriter { message, stage: Stage::CountingChanges },
                    action: Action::CountChanges,
                },
                _ => unexpected(),
            },
            Stage::CountingChanges => match event {
                Event::Failed(cause) => storage_failure(cause),
                Event::ChangesCounted(count) => if count == 0 {
                    Step::Done(Err(CommitError::NothingToCommit))
                } else {
                    Step::Continue {
                        writer: CommitWriter { message, stage: Stage::WritingTree },
                        action: Action::WriteTree,
                    }
                },
                _ => unexpected(),
            },
            Stage::WritingTree => match event {
                Event::Failed(cause) => storage_failure(cause),
                Event::TreeWritten(tree) => Step::Continue {
                    writer: CommitWriter { message, stage: Stage::ReadingIdentity { tree } },
                    action: Action::ReadIdentity,
                },
                _ => unexpected(),
            },
            Stage::ReadingIdentity { tree } => match event {
                Event::Failed(cause) => storage_failure(cause),
                Event::IdentityRead { name: Some(name), email: Some(email) } => Step::Continue {
                    writer: CommitWriter {
                        message,
                        stage: Stage::ResolvingHead { tree, name, email },
                    },
                    action: Action::ResolveHead,
                },
                Event::IdentityRead { .. } => Step::Done(Err(CommitError::MissingIdentity)),
                _ => unexpected(),
            },
            Stage::ResolvingHead { tree, name, email } => match event {
                Event::Failed(cause) => storage_failure(cause),
                Event::HeadResolved(Some(parent)) => {
                    let request = CommitRequest {
                        name,
                        email,
                        message: message.clone(),
                        tree,
                        parent,
                    };
                    Step::Continue {
                        writer: CommitWriter { message, stage: Stage::Committing },
                        action: Action::CreateCommit(request),
                    }
                },
                Event::HeadResolved(None) => Step::Done(Err(CommitError::NoHeadCommit)),
                _ => unexpected(),
            },
            Stage::Committing => match event {
                Event::Failed(cause) => storage_failure(cause),
                Event::Committed(commit) => Step::Done(Ok(commit)),
                _ => unexpected(),
            },
        }
    }
}

/// What a run has come to.
pub struct RunView {
    /// The actions asked so far, in order.
    pub asked: Seq<ActionView>,
    /// The result, once the run is over.
    pub result: Option<Result<Seq<u8>, CommitErrorView>>,
}

/// What a run comes to when it goes on from `writer` and is given `events`
/// one after the other. Events that come after its end are not looked at.
pub open spec fn run_from(writer: CommitWriterView, events: Seq<EventView>) -> RunView
    decreases events.len(),
{
    if events.len() == 0 {
        RunView { asked: Seq::empty(), result: None }
    } else {
        match next(writer, events[0]) {
            StepView::Continue { writer, action } => {
                let rest = run_from(writer, events.drop_first());
                RunView { asked: seq![action] + rest.asked, result: rest.result }
            },
            StepView::Done(result) => RunView { asked: Seq::empty(), result: Some(result) },
        }
    }
}

/// What a run for a commit with the given message comes to on `events`,
/// from its first action on.
pub open spec fn run(message: Seq<char>, events: Seq<EventView>) -> RunView {
    let rest = run_from(CommitWriterView { message, stage: StageView::Opening }, events);
    RunView { asked: seq![ActionView::OpenRepository] + rest.asked, result: rest.result }
}

/// Whether an event is the answer that lets a run go on from its stage of
/// the given number, counted from zero: the repository opens, has changes,
/// gives a tree, a name and an address and a commit at `HEAD`, and takes
/// the new commit.
pub open spec fn goes_on(stage: int, event: EventView) -> bool {
    match event {
        EventView::Opened => stage == 0,
        EventView::ChangesCounted(count) => stage == 1 && count > 0,
        EventView::TreeWritten(_) => stage == 2,
        EventView::IdentityRead { name, email } => stage == 3 && name is Some && email is Some,
        EventView::HeadResolved(head) => stage == 4 && head is Some,
        EventView::Committed(_) => stage == 5,
        EventView::Failed(_) => false,
    }
}

/// Whether an event answers what is asked at the stage of the given number.
/// A failure answers at every stage.
pub open spec fn answers(stage: int, event: EventView) -> bool {
    match event {
        EventView::Opened => stage == 0,
        EventView::ChangesCounted(_) => stage == 1,
        EventView::TreeWritten(_) => stage == 2,
        EventView::IdentityRead { .. } => stage == 3,
        EventView::HeadResolved(_) => stage == 4,
        EventView::Committed(_) => stage == 5,
        EventView::Failed(_) => true,
    }
}

/// Whether the first `n` events are the answers of a run that goes well.
pub open spec fn goes_well(events: Seq<EventView>, n: int) -> bool {
    &&& n <= events.len()
    &&& forall|k: int| 0 <= k < n ==> goes_on(k, #[trigger] events[k])
}

/// The commit that a run asks for once `events` has given it a tree, an
/// identity and a parent.
pub open spec fn request_from(message: Seq<char>, events: Seq<EventView>) -> CommitRequestView {
    CommitRequestView {
        name: events[3]->name->0,
        email: events[3]->email->0,
        message,
        tree: events[2]->TreeWritten_0,
        parent: events[4]->HeadResolved_0->0,
    }
}

/// The six actions of a run that goes well.
pub open spec fn plan(message: Seq<char>, events: Seq<EventView>) -> Seq<ActionView> {
    seq![
        ActionView::OpenRepository,
        ActionView::CountChanges,
        ActionView::WriteTree,
        ActionView::ReadIdentity,
        ActionView::ResolveHead,
        ActionView::CreateCommit(request_from(message, events)),
    ]
}

/// How a run ends at the stage of the given number on an event that does
/// not let it go on.
spec fn ending(stage: int, event: EventView) -> CommitErrorView {
    match event {
        EventView::Failed(cause) => if stage == 0 {
            CommitErrorView::RepositoryNotFound(cause)
        } else {
            CommitErrorView::StorageFailure(cause)
        },
        EventView::ChangesCounted(_) if stage == 1 => CommitErrorView::NothingToCommit,
        EventView::IdentityRead { .. } if stage == 3 => CommitErrorView::MissingIdentity,
        EventView::HeadResolved(_) if stage == 4 => CommitErrorView::NoHeadCommit,
        _ => CommitErrorView::StorageFailure(unexpected_answer()),
    }
}

/// Every run has one outline: so many answers go well, `n` of them; then the
/// events are used up, or the run is over, with success after the sixth
/// answer and with an error on the first answer that does not let it go on.
proof fn lemma_outline(message: Seq<char>, events: Seq<EventView>) -> (n: int)
    ensures
        0 <= n <= 6,
        goes_well(events, n),
        n == 6 || n == events.len() || !goes_on(n, events[n]),
        run(message, events).asked == plan(message, events).take(if n < 6 {
            n + 1
        } else {
            6
        }),
        run(message, events).result == if n == 6 {
            Some(Ok::<Seq<u8>, CommitErrorView>(events[5]->Committed_0))
        } else if n == events.len() {
            None
        } else {
            Some(Err(ending(n, events[n])))
        },
{
    reveal_with_fuel(run_from, 7);
    let n: int = if !(0 < events.len() && goes_on(0, events[0])) {
        0
    } else if !(1 < events.len() && goes_on(1, events[1])) {
        1
    } else if !(2 < events.len() && goes_on(2, events[2])) {
        2
    } else if !(3 < events.len() && goes_on(3, events[3])) {
        3
    } else if !(4 < events.len() && goes_on(4, events[4])) {
        4
    } else if !(5 < events.len() && goes_on(5, events[5])) {
        5
    } else {
        6
    };
    assert(run(message, events).asked =~= plan(message, events).take(if n < 6 {
        n + 1
    } else {
        6
    }));
    n
}

/// While the answers go well the run follows its plan: it has asked one
/// action more than it has answers, and it is over only after the sixth.
pub proof fn lemma_run_follows_plan(message: Seq<char>, events: Seq<EventView>)
    requires
        events.len() <= 5,
        goes_well(events, events.len() as int),
    ensures
        run(message, events).asked == plan(message, events).take(events.len() as int + 1),
        run(message, events).result is None,
{
    let n = lemma_outline(message, events);
}

/// A run asks its actions in the order of the plan, and each only after
/// every answer before it went well.
pub proof fn lemma_asked_in_order(message: Seq<char>, events: Seq<EventView>, k: int)
    requires
        0 <= k < run(message, events).asked.len(),
    ensures
        k <= 5,
        goes_well(events, k),
        run(message, events).asked[k] == plan(message, events)[k],
{
    let n = lemma_outline(message, events);
}

/// What changes the repository comes after the checks. The index is written
/// out as a tree only once the repository is open and has changes. A commit
/// is created, and `HEAD` moved, only as the last action, after five answers
/// that went well: with the tree, the identity and the parent that the
/// repository gave, and with the message as it was handed in.
pub proof fn lemma_writes_come_after_checks(message: Seq<char>, events: Seq<EventView>, k: int)
    requires
        0 <= k < run(message, events).asked.len(),
    ensures
        run(message, events).asked[k] is WriteTree ==> k == 2 && goes_well(events, 2),
        run(message, events).asked[k] is CreateCommit ==> k == 5 && goes_well(events, 5) && run(
            message,
            events,
        ).asked[k] == ActionView::CreateCommit(request_from(message, events)),
{
    lemma_asked_in_order(message, events, k);
}

/// A run ends well on six answers that went well, and on nothing else. It
/// has then asked the six actions of the plan, the commit last, and its
/// result is the name that the repository gave the new commit.
pub proof fn lemma_run_succeeds(message: Seq<char>, events: Seq<EventView>)
    ensures
        run(message, events).result is Some && run(message, events).result->0 is Ok
            <==> goes_well(events, 6),
        goes_well(events, 6) ==> run(message, events) == (RunView {
            asked: plan(message, events),
            result: Some(Ok(events[5]->Committed_0)),
        }),
{
    let n = lemma_outline(message, events);
    if goes_well(events, 6) {
        assert(plan(message, events).take(6) =~= plan(message, events));
    }
}

/// A run ends with `RepositoryNotFound` where opening failed, and nowhere
/// else. The error holds what the repository layer said, and nothing was
/// asked but to open.
pub proof fn lemma_no_repository(message: Seq<char>, events: Seq<EventView>, cause: Seq<char>)
    ensures
        run(message, events).result == Some(
            Err::<Seq<u8>, CommitErrorView>(CommitErrorView::RepositoryNotFound(cause)),
        ) <==> events.len() > 0 && events[0] == EventView::Failed(cause),
        events.len() > 0 && events[0] == EventView::Failed(cause) ==> run(message, events).asked
            == seq![ActionView::OpenRepository],
{
    let n = lemma_outline(message, events);
    if events.len() > 0 && events[0] == EventView::Failed(cause) {
        assert(plan(message, events).take(1) =~= seq![ActionView::OpenRepository]);
    }
}

/// A run ends with `NothingToCommit` where the open repository has no
/// pending change, and nowhere else. Nothing was asked then but to open and
/// to count: nothing was written.
pub proof fn lemma_nothing_to_commit(message: Seq<char>, events: Seq<EventView>)
    ensures
        run(message, events).result == Some(
            Err::<Seq<u8>, CommitErrorView>(CommitErrorView::NothingToCommit),
        ) <==> events.len() > 1 && events[0] == EventView::Opened && events[1]
            == EventView::ChangesCounted(0),
        events.len() > 1 && events[0] == EventView::Opened && events[1]
            == EventView::ChangesCounted(0) ==> run(message, events).asked == seq![
            ActionView::OpenRepository,
            ActionView::CountChanges,
        ],
{
    let n = lemma_outline(message, events);
    if events.len() > 1 && events[0] == EventView::Opened && events[1]
        == EventView::ChangesCounted(0) {
        assert(plan(message, events).take(2) =~= seq![
            ActionView::OpenRepository,
            ActionView::CountChanges,
        ]);
    }
}

/// A run ends with `MissingIdentity` where the first three answers went well
/// and the name or the address is missing from the fourth, and nowhere else.
pub proof fn lemma_missing_identity(message: Seq<char>, events: Seq<EventView>)
    ensures
        run(message, events).result == Some(
            Err::<Seq<u8>, CommitErrorView>(CommitErrorView::MissingIdentity),
        ) <==> goes_well(events, 3) && events.len() > 3 && events[3] is IdentityRead && (
        events[3]->name is None || events[3]->email is None),
{
    let n = lemma_outline(message, events);
}

/// A run ends with `NoHeadCommit` where the first four answers went well and
/// `HEAD` points at no commit, and nowhere else. The tree was written by
/// then, and no commit was asked for.
pub proof fn lemma_no_head_commit(message: Seq<char>, events: Seq<EventView>)
    ensures
        run(message, events).result == Some(
            Err::<Seq<u8>, CommitErrorView>(CommitErrorView::NoHeadCommit),
        ) <==> goes_well(events, 4) && events.len() > 4 && events[4] == EventView::HeadResolved(
            None,
        ),
        run(message, events).result == Some(
            Err::<Seq<u8>, CommitErrorView>(CommitErrorView::NoHeadCommit),
        ) ==> run(message, events).asked == plan(message, events).take(5),
{
    let n = lemma_outline(message, events);
}

/// A failure that the repository layer reports after it has opened the
/// repository ends the run with `StorageFailure`, in the layer's own words.
pub proof fn lemma_failure_is_passed_on(
    message: Seq<char>,
    events: Seq<EventView>,
    n: int,
    cause: Seq<char>,
)
    requires
        1 <= n <= 5,
        n < events.len(),
        goes_well(events, n),
        events[n] == EventView::Failed(cause),
    ensures
        run(message, events).result == Some(
            Err::<Seq<u8>, CommitErrorView>(CommitErrorView::StorageFailure(cause)),
        ),
        run(message, events).asked == plan(message, events).take(n + 1),
{
    let m = lemma_outline(message, events);
    if m < n {
        assert(goes_on(m, events[m]));
    }
}

/// An answer to something that was not asked ends the run as a failure of
/// the repository layer, whatever went well before.
pub proof fn lemma_unexpected_answer_ends_run(
    message: Seq<char>,
    events: Seq<EventView>,
    n: int,
)
    requires
        0 <= n <= 5,
        n < events.len(),
        goes_well(events, n),
        !answers(n, events[n]),
    ensures
        run(message, events).result == Some(
            Err::<Seq<u8>, CommitErrorView>(
                CommitErrorView::StorageFailure(unexpected_answer()),
            ),
        ),
        run(message, events).asked == plan(message, events).take(n + 1),
{
    let m = lemma_outline(message, events);
    if m < n {
        assert(goes_on(m, events[m]));
    }
}

} // verus!
