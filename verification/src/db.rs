//! The data store: a backend that holds the persisted state, and the
//! operations that read it, change it and write it back whole.

use crate::models::{DBState, DBStateView, Epic, Status, Story};
use crate::transitions::StoreError;
use vstd::prelude::*;

verus! {

/// A place where the whole state is kept between operations.
///
/// The contracts of the store rest on the two clauses below: what is loaded
/// is what the backend holds, and after a successful write it holds what was
/// written. `MockDB` is proved to meet them. A backend defined elsewhere is
/// taken at its word; one that keeps the state in a file meets them as long
/// as nothing else writes the file.
pub trait Database {
    /// The value of the state that is kept.
    spec fn state(&self) -> DBStateView;

    /// Loads the state. A failure is a `ReadError` or a `ParseError`.
    fn read_db(&self) -> (r: Result<DBState, StoreError>)
        ensures
            r matches Ok(loaded) ==> loaded@ == self.state(),
            r matches Err(e) ==> e.is_load_failure(),
    ;

    /// Replaces the state that is kept by `db_state`. A failure is a
    /// `WriteError`, and leaves open what is kept.
    fn write_db(&mut self, db_state: &DBState) -> (r: Result<(), StoreError>)
        ensures
            r is Ok ==> final(self).state() == db_state@,
            r matches Err(e) ==> e == StoreError::WriteError,
    ;
}

/// What was found when the persisted state was looked for.
pub enum Loaded {
    /// Nothing has been persisted yet.
    Missing,
    /// Something is there but could not be read.
    Unreadable,
    /// What was read is not a serialized state.
    Malformed,
    /// What was read is this state.
    Parsed(DBState),
}

/// Settles what loading yields: the empty state where nothing was persisted
/// yet, the parsed state where there is one, and an error otherwise.
pub fn resolve_load(found: Loaded) -> (r: Result<DBState, StoreError>)
    ensures
        match found {
            Loaded::Missing => r matches Ok(state) && state@ == DBStateView::empty(),
            Loaded::Unreadable => r == Err::<DBState, StoreError>(StoreError::ReadError),
            Loaded::Malformed => r == Err::<DBState, StoreError>(StoreError::ParseError),
            Loaded::Parsed(state) => r == Ok::<DBState, StoreError>(state),
        },
{
    match found {
        Loaded::Missing => Ok(DBState::new()),
        Loaded::Unreadable => Err(StoreError::ReadError),
        Loaded::Malformed => Err(StoreError::ParseError),
        Loaded::Parsed(state) => Ok(state),
    }
}

/// How one read-modify-write round can end, given what the operation alone
/// yields on the state that was read (`outcome`) and the state it leads to
/// (`target`).
///
/// The round succeeds only where the operation does, and then the backend
/// holds `target`. It fails with the operation's own error, or with a load
/// failure, and then the backend holds what it held; or with a `WriteError`
/// after the operation succeeded, and then what the backend holds is open.
pub open spec fn round_ends<T>(
    before: DBStateView,
    after: DBStateView,
    result: Result<T, StoreError>,
    outcome: Result<T, StoreError>,
    target: DBStateView,
) -> bool {
    match result {
        Ok(value) => outcome == Ok::<T, StoreError>(value) && after == target,
        Err(e) => {
            ||| e.is_load_failure() && after == before
            ||| e == StoreError::WriteError && outcome is Ok
            ||| outcome == Err::<T, StoreError>(e) && after == before
        },
    }
}

/// The store: every operation loads the whole state from the backend,
/// changes it, and writes the whole state back.
pub struct JiraDatabase {
    pub database: Box<dyn Database>,
}

impl JiraDatabase {
    /// The value of the state that the backend holds.
    pub open spec fn state(&self) -> DBStateView {
        self.database.state()
    }

    /// Loads the whole state.
    pub fn read_db(&self) -> (r: Result<DBState, StoreError>)
        ensures
            r matches Ok(loaded) ==> loaded@ == self.state(),
            r matches Err(e) ==> e.is_load_failure(),
    {
        self.database.read_db()
    }

    /// Stores `epic` under a new id and returns the id.
    pub fn create_epic(&mut self, epic: Epic) -> (r: Result<u32, StoreError>)
        ensures
            round_ends(
                old(self).state(),
                final(self).state(),
                r,
                old(self).state().create_epic_outcome(),
                old(self).state().create_epic(epic@),
            ),
    {
        let mut state = self.database.read_db()?;
        let id = state.create_epic(epic)?;
        self.database.write_db(&state)?;
        Ok(id)
    }

    /// Stores `story` under a new id, appends the id to the list of epic
    /// `epic_id` and returns the id. Fails with `EpicNotFound` when the epic
    /// does not exist.
    pub fn create_story(&mut self, story: Story, epic_id: u32) -> (r: Result<u32, StoreError>)
        ensures
            round_ends(
                old(self).state(),
                final(self).state(),
                r,
                old(self).state().create_story_outcome(epic_id),
                old(self).state().create_story(story@, epic_id),
            ),
    {
        let mut state = self.database.read_db()?;
        let id = state.create_story(story, epic_id)?;
        self.database.write_db(&state)?;
        Ok(id)
    }

    /// Overwrites the status of epic `epic_id`. Fails with `EpicNotFound`
    /// when the epic does not exist.
    pub fn update_epic_status(&mut self, epic_id: u32, status: Status) -> (r: Result<
        (),
        StoreError,
    >)
        ensures
            round_ends(
                old(self).state(),
                final(self).state(),
                r,
                old(self).state().epic_outcome(epic_id),
                old(self).state().update_epic_status(epic_id, status),
            ),
    {
        let mut state = self.database.read_db()?;
        state.update_epic_status(epic_id, status)?;
        self.database.write_db(&state)?;
        Ok(())
    }

    /// Overwrites the status of story `story_id`. Fails with `StoryNotFound`
    /// when the story does not exist.
    pub fn update_story_status(&mut self, story_id: u32, status: Status) -> (r: Result<
        (),
        StoreError,
    >)
        ensures
            round_ends(
                old(self).state(),
                final(self).state(),
                r,
                old(self).state().story_outcome(story_id),
                old(self).state().update_story_status(story_id, status),
            ),
    {
        let mut state = self.database.read_db()?;
        state.update_story_status(story_id, status)?;
        self.database.write_db(&state)?;
        Ok(())
    }

    /// Removes epic `epic_id` and every story it lists; the backend is
    /// written once, after both tables were changed. Fails with
    /// `EpicNotFound` when the epic does not exist.
    pub fn delete_epic(&mut self, epic_id: u32) -> (r: Result<(), StoreError>)
        ensures
            round_ends(
                old(self).state(),
                final(self).state(),
                r,
                old(self).state().epic_outcome(epic_id),
                old(self).state().delete_epic(epic_id),
            ),
    {
        let mut state = self.database.read_db()?;
        state.delete_epic(epic_id)?;
        self.database.write_db(&state)?;
        Ok(())
    }

    /// Takes `story_id` out of the list of epic `epic_id` and removes the
    /// story record. Fails with `EpicNotFound` when the epic does not exist.
    pub fn delete_story(&mut self, epic_id: u32, story_id: u32) -> (r: Result<(), StoreError>)
        ensures
            round_ends(
                old(self).state(),
                final(self).state(),
                r,
                old(self).state().epic_outcome(epic_id),
                old(self).state().delete_story(epic_id, story_id),
            ),
    {
        let mut state = self.database.read_db()?;
        state.delete_story(epic_id, story_id)?;
        self.database.write_db(&state)?;
        Ok(())
    }
}

/// A backend that keeps the last written state in memory and never fails.
pub struct MockDB {
    last_written_state: DBState,
}

impl MockDB {
    /// A backend that holds the empty state.
    pub fn new() -> (db: Self)
        ensures
            db.state() == DBStateView::empty(),
    {
        Self { last_written_state: DBState::new() }
    }
}

impl Database for MockDB {
    closed spec fn state(&self) -> DBStateView {
        self.last_written_state@
    }

    fn read_db(&self) -> (r: Result<DBState, StoreError>)
        ensures
            r is Ok,
    {
        Ok(self.last_written_state.duplicate())
    }

    fn write_db(&mut self, db_state: &DBState) -> (r: Result<(), StoreError>)
        ensures
            r is Ok,
    {
        self.last_written_state = db_state.duplicate();
        Ok(())
    }
}

} // verus!
