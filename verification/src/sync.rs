//! Bringing the stored notices up to date: the decisions of one cycle.
//!
//! A cycle reads the highest number stored, asks the board for its newest
//! notice, and, where the board is ahead, asks for as many notices as lie
//! between and has them inserted. Store and board are the caller's: it
//! begins with [`begin`], carries out the action it is handed, reports what
//! happened to [`step`], and goes on until the action is
//! [`SyncAction::Stop`].

use crate::store::{holds, inserted, keys_unique, lemma_first_with, Row};
use crate::{Notice, NoticeView};
use vstd::prelude::*;

verus! {

/// The query option of the board's default category: the cursor is kept
/// for it, and the cycle fetches it.
pub const DEFAULT_CATEGORY: &'static str = "ajou";

/// Why a cycle failed.
#[derive(Debug, Clone, Copy, PartialEq, Eq, Structural)]
pub enum SyncError {
    /// The store reported an error.
    StoreFailed,
    /// The board could not be fetched or read.
    FetchFailed,
    /// The store holds no notice to tell the missing ones from.
    EmptyStore,
    /// The board listed no notice.
    EmptySource,
    /// The store is ahead of the board.
    SourceBehind,
    /// An event was reported that the state did not ask for.
    OutOfTurn,
}

/// What the caller is to do next.
#[derive(Debug)]
pub enum SyncAction {
    /// Read the highest number among the stored notices.
    ReadLatest,
    /// Fetch the newest `count` notices of the default category.
    Fetch { count: usize },
    /// Insert `notices` as new rows.
    Insert { notices: Vec<Notice> },
    /// Nothing: the cycle is over.
    Stop,
}

/// What the caller reports.
#[derive(Debug)]
pub enum SyncEvent {
    /// The highest number stored; none where nothing is stored.
    Latest { id: Option<i32> },
    /// The notices fetched, oldest first.
    Fetched { notices: Vec<Notice> },
    /// The notices were inserted.
    Inserted,
    /// The action failed.
    Failure,
}

/// Where a cycle stands.
#[derive(Debug, Clone, Copy, PartialEq, Eq, Structural)]
pub enum SyncState {
    /// The highest number stored is being read.
    ReadingCursor,
    /// The board's newest notice is being fetched; `persisted` is the
    /// highest number stored.
    Probing { persisted: i32 },
    /// The missing notices are being fetched.
    Fetching { missing: usize },
    /// `count` notices are being inserted.
    Inserting { count: usize },
    /// The cycle is over; `inserted` notices were inserted.
    Done { inserted: usize },
    /// The cycle is over and failed.
    Failed { error: SyncError },
}

/// A [`SyncAction`] in contracts.
pub enum ActionView {
    ReadLatest,
    Fetch { count: usize },
    Insert { notices: Seq<NoticeView> },
    Stop,
}

/// A [`SyncEvent`] in contracts.
pub enum EventView {
    Latest { id: Option<i32> },
    Fetched { notices: Seq<NoticeView> },
    Inserted,
    Failure,
}

impl DeepView for SyncAction {
    type V = ActionView;

    open spec fn deep_view(&self) -> ActionView {
        match self {
            SyncAction::ReadLatest => ActionView::ReadLatest,
            SyncAction::Fetch { count } => ActionView::Fetch { count: *count },
            SyncAction::Insert { notices } => ActionView::Insert { notices: notices.deep_view() },
            SyncAction::Stop => ActionView::Stop,
        }
    }
}

impl DeepView for SyncEvent {
    type V = EventView;

    open spec fn deep_view(&self) -> EventView {
        match self {
            SyncEvent::Latest { id } => EventView::Latest { id: *id },
            SyncEvent::Fetched { notices } => EventView::Fetched { notices: notices.deep_view() },
            SyncEvent::Inserted => EventView::Inserted,
            SyncEvent::Failure => EventView::Failure,
        }
    }
}

// ---------------------------------------------------------------------------
// The difference
// ---------------------------------------------------------------------------

/// How the board stands to the store.
#[derive(Debug, Clone, Copy, PartialEq, Eq, Structural)]
pub enum Difference {
    /// The board's newest notice is the newest stored.
    UpToDate,
    /// The board is ahead by `count` numbers.
    Missing { count: usize },
    /// The store is ahead of the board.
    SourceBehind,
}

/// How a board whose newest notice has the number `latest` stands to a
/// store whose highest number is `persisted`.
pub open spec fn difference_of(persisted: i32, latest: i32) -> Difference {
    if latest == persisted {
        Difference::UpToDate
    } else if latest > persisted {
        Difference::Missing { count: (latest - persisted) as usize }
    } else {
        Difference::SourceBehind
    }
}

/// How a board whose newest notice has the number `latest` stands to a
/// store whose highest number is `persisted`.
pub fn difference(persisted: i32, latest: i32) -> (d: Difference)
    ensures
        d == difference_of(persisted, latest),
        d matches Difference::Missing { count } ==> count == latest - persisted && count > 0,
{
    let ahead: i64 = latest as i64 - persisted as i64;
    if ahead == 0 {
        Difference::UpToDate
    } else if ahead > 0 {
        Difference::Missing { count: ahead as usize }
    } else {
        Difference::SourceBehind
    }
}

// ---------------------------------------------------------------------------
// The transition
// ---------------------------------------------------------------------------

/// Whether a cycle is over at `state`.
pub open spec fn is_over(state: SyncState) -> bool {
    state is Done || state is Failed
}

/// The failure that an action's failing at `state` is: the store's where
/// the store was asked, the board's where the board was.
pub open spec fn failure_at(state: SyncState) -> SyncError {
    match state {
        SyncState::Probing { .. } | SyncState::Fetching { .. } => SyncError::FetchFailed,
        _ => SyncError::StoreFailed,
    }
}

/// What the look at the board's newest notices leads to, the store's highest
/// number being `persisted`: the first of `notices` is taken for the newest.
pub open spec fn probed(persisted: i32, notices: Seq<NoticeView>) -> (SyncState, ActionView) {
    if notices.len() == 0 {
        (SyncState::Failed { error: SyncError::EmptySource }, ActionView::Stop)
    } else {
        match difference_of(persisted, notices[0].id as i32) {
            Difference::UpToDate => (SyncState::Done { inserted: 0 }, ActionView::Stop),
            Difference::Missing { count } => (
                SyncState::Fetching { missing: count },
                ActionView::Fetch { count },
            ),
            Difference::SourceBehind => (
                SyncState::Failed { error: SyncError::SourceBehind },
                ActionView::Stop,
            ),
        }
    }
}

/// The state after `event` was reported at `state`, and the action to carry
/// out next.
///
/// A failure ends the cycle as failed, and so does an event out of turn. A
/// cycle that is over stays as it is.
pub open spec fn next(state: SyncState, event: EventView) -> (SyncState, ActionView) {
    match (state, event) {
        (SyncState::Done { .. }, _) | (SyncState::Failed { .. }, _) => (state, ActionView::Stop),
        (_, EventView::Failure) => (
            SyncState::Failed { error: failure_at(state) },
            ActionView::Stop,
        ),
        (SyncState::ReadingCursor, EventView::Latest { id: Some(persisted) }) => (
            SyncState::Probing { persisted },
            ActionView::Fetch { count: 1 },
        ),
        (SyncState::ReadingCursor, EventView::Latest { id: None }) => (
            SyncState::Failed { error: SyncError::EmptyStore },
            ActionView::Stop,
        ),
        (SyncState::Probing { persisted }, EventView::Fetched { notices }) => probed(
            persisted,
            notices,
        ),
        (SyncState::Fetching { .. }, EventView::Fetched { notices }) => if notices.len() == 0 {
            (SyncState::Done { inserted: 0 }, ActionView::Stop)
        } else {
            (
                SyncState::Inserting { count: notices.len() as usize },
                ActionView::Insert { notices },
            )
        },
        (SyncState::Inserting { count }, EventView::Inserted) => (
            SyncState::Done { inserted: count },
            ActionView::Stop,
        ),
        _ => (SyncState::Failed { error: SyncError::OutOfTurn }, ActionView::Stop),
    }
}

/// The state a cycle begins in, and its first action.
pub fn begin() -> (first: (SyncState, SyncAction))
    ensures
        first.0 == SyncState::ReadingCursor,
        first.1.deep_view() == ActionView::ReadLatest,
{
    (SyncState::ReadingCursor, SyncAction::ReadLatest)
}

fn fail_at(state: SyncState) -> (error: SyncError)
    ensures
        error == failure_at(state),
{
    match state {
        SyncState::Probing { .. } | SyncState::Fetching { .. } => SyncError::FetchFailed,
        _ => SyncError::StoreFailed,
    }
}

fn probe(persisted: i32, notices: &Vec<Notice>) -> (r: (SyncState, SyncAction))
    ensures
        (r.0, r.1.deep_view()) == probed(persisted, notices.deep_view()),
{
    if notices.len() == 0 {
        return (SyncState::Failed { error: SyncError::EmptySource }, SyncAction::Stop);
    }
    assert(notices.deep_view()[0].id == notices[0].id);
    match difference(persisted, notices[0].id) {
        Difference::UpToDate => (SyncState::Done { inserted: 0 }, SyncAction::Stop),
        Difference::Missing { count } => (
            SyncState::Fetching { missing: count },
            SyncAction::Fetch { count },
        ),
        Difference::SourceBehind => (
            SyncState::Failed { error: SyncError::SourceBehind },
            SyncAction::Stop,
        ),
    }
}

/// The state after `event` was reported at `state`, and the action to carry
/// out next.
pub fn step(state: SyncState, event: SyncEvent) -> (r: (SyncState, SyncAction))
    ensures
        (r.0, r.1.deep_view()) == next(state, event.deep_view()),
{
    match (state, event) {
        (SyncState::Done { inserted }, _) => (SyncState::Done { inserted }, SyncAction::Stop),
        (SyncState::Failed { error }, _) => (SyncState::Failed { error }, SyncAction::Stop),
        (state, SyncEvent::Failure) => (
            SyncState::Failed { error: fail_at(state) },
            SyncAction::Stop,
        ),
        (SyncState::ReadingCursor, SyncEvent::Latest { id: Some(persisted) }) => (
            SyncState::Probing { persisted },
            SyncAction::Fetch { count: 1 },
        ),
        (SyncState::ReadingCursor, SyncEvent::Latest { id: None }) => (
            SyncState::Failed { error: SyncError::EmptyStore },
            SyncAction::Stop,
        ),
        (SyncState::Probing { persisted }, SyncEvent::Fetched { notices }) => probe(
            persisted,
            &notices,
        ),
        (SyncState::Fetching { .. }, SyncEvent::Fetched { notices }) => {
            if notices.len() == 0 {
                (SyncState::Done { inserted: 0 }, SyncAction::Stop)
            } else {
                (SyncState::Inserting { count: notices.len() }, SyncAction::Insert { notices })
            }
        },
        (SyncState::Inserting { count }, SyncEvent::Inserted) => (
            SyncState::Done { inserted: count },
            SyncAction::Stop,
        ),
        _ => (SyncState::Failed { error: SyncError::OutOfTurn }, SyncAction::Stop),
    }
}

/// Whether a cycle that ended at `state` succeeded. The rest after the cycle
/// goes by this.
pub fn succeeded(state: SyncState) -> (ok: bool)
    ensures
        ok == (state is Done),
{
    match state {
        SyncState::Done { .. } => true,
        _ => false,
    }
}

// ---------------------------------------------------------------------------
// A cycle against a board that numbers without gaps
// ---------------------------------------------------------------------------

/// What a fetch of the newest `count` notices gives of a board that lists
/// `board`, newest first: the first `count` of them, or all where there are
/// fewer, oldest first.
pub open spec fn listing(board: Seq<NoticeView>, count: int) -> Seq<NoticeView> {
    if count >= board.len() {
        board.reverse()
    } else if count <= 0 {
        Seq::empty()
    } else {
        board.take(count).reverse()
    }
}

/// Whether the first `count` notices of `board` are numbered downwards from
/// `latest` without a gap.
pub open spec fn numbered_from(board: Seq<NoticeView>, latest: int, count: int) -> bool {
    &&& count <= board.len()
    &&& forall|i: int| 0 <= i < count ==> (#[trigger] board[i]).id == latest - i
}

/// The rows that inserting `notices` adds: each notice under its number.
pub open spec fn rows_of(notices: Seq<NoticeView>) -> Seq<Row<int, NoticeView>> {
    Seq::new(notices.len(), |i: int| Row { key: notices[i].id, document: notices[i] })
}

/// With the highest stored number `persisted` and a board whose newest
/// notice has the number `persisted + n`, a cycle fetches and inserts
/// exactly `n` notices, each with a number above `persisted` and up to
/// `persisted + n`, and none where `n` is zero.
///
/// This is said of a board that lists at least one notice and numbers its
/// newest `n` notices without a gap.
pub proof fn law_cycle_inserts_the_missing(persisted: i32, n: nat, board: Seq<NoticeView>)
    requires
        persisted + n <= i32::MAX,
        board.len() >= 1,
        board[0].id == persisted + n,
        numbered_from(board, persisted + n, n as int),
    ensures
        ({
            let read = next(SyncState::ReadingCursor, EventView::Latest { id: Some(persisted) });
            let probed = next(read.0, EventView::Fetched { notices: listing(board, 1) });
            let batch = listing(board, n as int);
            let fetched = next(probed.0, EventView::Fetched { notices: batch });
            let done = next(fetched.0, EventView::Inserted);
            &&& read.1 == ActionView::Fetch { count: 1 }
            &&& n == 0 ==> probed == (SyncState::Done { inserted: 0 }, ActionView::Stop)
            &&& n > 0 ==> {
                &&& probed.1 == ActionView::Fetch { count: n as usize }
                &&& fetched.1 == ActionView::Insert { notices: batch }
                &&& batch.len() == n
                &&& forall|j: int|
                    0 <= j < n ==> persisted < (#[trigger] batch[j]).id <= persisted + n
                &&& forall|j: int| 0 <= j < n ==> (#[trigger] batch[j]).id == persisted + 1 + j
                &&& done == (SyncState::Done { inserted: n as usize }, ActionView::Stop)
            }
        }),
{
    let first = listing(board, 1);
    assert(first.len() >= 1);
    assert(first[0] == board[0]) by {
        if board.len() > 1 {
            assert(board.take(1).reverse()[0] == board.take(1)[0]);
        }
    }
    if n > 0 {
        let batch = listing(board, n as int);
        assert(batch.len() == n);
        assert forall|j: int| 0 <= j < n implies (#[trigger] batch[j]).id == persisted + 1 + j by {
            assert(batch[j] == board[n - 1 - j]);
        }
    }
}

/// Inserting notices whose numbers go upwards from above the highest stored
/// number leaves no number stored twice, and the last of them becomes the
/// highest: the cursor of the next cycle.
pub proof fn law_insert_advances_cursor(
    stored: Seq<Row<int, NoticeView>>,
    persisted: int,
    batch: Seq<NoticeView>,
)
    requires
        keys_unique(stored),
        forall|i: int| 0 <= i < stored.len() ==> (#[trigger] stored[i]).key <= persisted,
        batch.len() > 0,
        forall|j: int| 0 <= j < batch.len() ==> (#[trigger] batch[j]).id == persisted + 1 + j,
    ensures
        keys_unique(inserted(stored, rows_of(batch))),
        holds(inserted(stored, rows_of(batch)), persisted + batch.len()),
        forall|i: int|
            0 <= i < inserted(stored, rows_of(batch)).len() ==> (#[trigger] inserted(
                stored,
                rows_of(batch),
            )[i]).key <= persisted + batch.len(),
{
    let after = inserted(stored, rows_of(batch));
    let top = persisted + batch.len();
    assert forall|i: int, j: int| 0 <= i < j < after.len() implies (#[trigger] after[i]).key != (
    #[trigger] after[j]).key by {
        if j < stored.len() {
            assert(stored[i].key != stored[j].key);
        } else if i < stored.len() {
            assert(stored[i].key <= persisted);
            assert(after[j].key == batch[j - stored.len()].id);
        } else {
            assert(after[i].key == batch[i - stored.len()].id);
            assert(after[j].key == batch[j - stored.len()].id);
        }
    }
    assert forall|i: int| 0 <= i < after.len() implies (#[trigger] after[i]).key <= top by {
        if i < stored.len() {
            assert(stored[i].key <= persisted);
        } else {
            assert(after[i].key == batch[i - stored.len()].id);
        }
    }
    let last = after.len() - 1;
    assert(after[last].key == batch[batch.len() - 1].id);
    lemma_first_with(after, top);
    if !holds(after, top) {
        assert(after[last].key != top);
    }
}

} // verus!
