//! The store's operations as transitions of the persisted state: what each
//! one does to the value of a [`DBState`], when it is refused, and the
//! referential integrity it keeps.

use crate::models::{DBState, DBStateView, Epic, EpicView, Status, Story, StoryView};
use vstd::prelude::*;

verus! {

broadcast use vstd::std_specs::hash::group_hash_axioms;

/// Why an operation on the store did not take place.
#[derive(Debug, Clone, Copy, PartialEq, Eq, Structural)]
pub enum StoreError {
    /// The epic id is not in the epics table.
    EpicNotFound,
    /// The story id is not in the stories table.
    StoryNotFound,
    /// The persisted state could not be read.
    ReadError,
    /// The persisted state was read but is not a valid state.
    ParseError,
    /// The new state could not be persisted.
    WriteError,
    /// Every id has been handed out.
    IdSpaceExhausted,
}

impl StoreError {
    /// Whether loading the persisted state can fail with this error.
    pub open spec fn is_load_failure(self) -> bool {
        self == StoreError::ReadError || self == StoreError::ParseError
    }
}

impl DBStateView {
    /// Whether another id can be handed out.
    pub open spec fn can_allocate(self) -> bool {
        self.last_item_id < u32::MAX
    }

    /// The id the next created item gets.
    pub open spec fn next_id(self) -> u32
        recommends
            self.can_allocate(),
    {
        (self.last_item_id + 1) as u32
    }

    /// Whether epic `epic_id` exists and lists story `story_id`.
    pub open spec fn owns(self, epic_id: u32, story_id: u32) -> bool {
        self.epics.contains_key(epic_id) && self.epics[epic_id].stories.contains(story_id)
    }

    /// Referential integrity: no id exceeds the counter, no id names both an
    /// epic and a story, every listed story exists, and every story is listed
    /// exactly once, by exactly one epic.
    pub open spec fn wf(self) -> bool {
        &&& forall|id: u32| #[trigger] self.epics.contains_key(id) ==> id <= self.last_item_id
        &&& forall|id: u32| #[trigger] self.stories.contains_key(id) ==> id <= self.last_item_id
        &&& forall|id: u32| #[trigger] self.epics.contains_key(id) ==> !self.stories.contains_key(id)
        &&& forall|e: u32, s: u32| #[trigger] self.owns(e, s) ==> self.stories.contains_key(s)
        &&& forall|s: u32| #[trigger]
            self.stories.contains_key(s) ==> exists|e: u32| self.owns(e, s)
        &&& forall|e1: u32, e2: u32, s: u32|
            #[trigger] self.owns(e1, s) && #[trigger] self.owns(e2, s) ==> e1 == e2
        &&& forall|e: u32| #[trigger]
            self.epics.contains_key(e) ==> self.epics[e].stories.no_duplicates()
    }

    /// What `create_epic` returns on this state.
    pub open spec fn create_epic_outcome(self) -> Result<u32, StoreError> {
        if self.can_allocate() {
            Ok(self.next_id())
        } else {
            Err(StoreError::IdSpaceExhausted)
        }
    }

    /// The state after `epic` was created under the next id.
    pub open spec fn create_epic(self, epic: EpicView) -> DBStateView {
        DBStateView {
            last_item_id: self.next_id(),
            epics: self.epics.insert(self.next_id(), epic),
            stories: self.stories,
        }
    }

    /// What `create_story` under `epic_id` returns on this state.
    pub open spec fn create_story_outcome(self, epic_id: u32) -> Result<u32, StoreError> {
        if !self.epics.contains_key(epic_id) {
            Err(StoreError::EpicNotFound)
        } else if self.can_allocate() {
            Ok(self.next_id())
        } else {
            Err(StoreError::IdSpaceExhausted)
        }
    }

    /// The state after `story` was created under the next id and that id was
    /// appended to the list of epic `epic_id`.
    pub open spec fn create_story(self, story: StoryView, epic_id: u32) -> DBStateView {
        let id = self.next_id();
        let epic = self.epics[epic_id];
        DBStateView {
            last_item_id: id,
            epics: self.epics.insert(epic_id, EpicView { stories: epic.stories.push(id), ..epic }),
            stories: self.stories.insert(id, story),
        }
    }

    /// What an operation that needs epic `epic_id` to exist returns.
    pub open spec fn epic_outcome(self, epic_id: u32) -> Result<(), StoreError> {
        if self.epics.contains_key(epic_id) {
            Ok(())
        } else {
            Err(StoreError::EpicNotFound)
        }
    }

    /// What an operation that needs story `story_id` to exist returns.
    pub open spec fn story_outcome(self, story_id: u32) -> Result<(), StoreError> {
        if self.stories.contains_key(story_id) {
            Ok(())
        } else {
            Err(StoreError::StoryNotFound)
        }
    }

    /// The state after the status of epic `epic_id` was overwritten.
    pub open spec fn update_epic_status(self, epic_id: u32, status: Status) -> DBStateView {
        DBStateView {
            epics: self.epics.insert(epic_id, EpicView { status, ..self.epics[epic_id] }),
            ..self
        }
    }

    /// The state after the status of story `story_id` was overwritten.
    pub open spec fn update_story_status(self, story_id: u32, status: Status) -> DBStateView {
        DBStateView {
            stories: self.stories.insert(story_id, StoryView { status, ..self.stories[story_id] }),
            ..self
        }
    }

    /// The state after epic `epic_id` was removed together with every story
    /// it lists.
    pub open spec fn delete_epic(self, epic_id: u32) -> DBStateView {
        DBStateView {
            epics: self.epics.remove(epic_id),
            stories: self.stories.remove_keys(self.epics[epic_id].stories.to_set()),
            ..self
        }
    }

    /// The state after `story_id` was taken out of the list of epic `epic_id`
    /// and out of the stories table.
    pub open spec fn delete_story(self, epic_id: u32, story_id: u32) -> DBStateView {
        let epic = self.epics[epic_id];
        DBStateView {
            epics: self.epics.insert(
                epic_id,
                EpicView { stories: without(epic.stories, story_id), ..epic },
            ),
            stories: self.stories.remove(story_id),
            ..self
        }
    }
}

/// `ids` with every occurrence of `id` taken out, the rest in order.
pub open spec fn without(ids: Seq<u32>, id: u32) -> Seq<u32> {
    ids.filter(|x: u32| x != id)
}

/// `without` drops exactly the occurrences of `id`: the result holds `x` if
/// and only if `ids` does and `x` differs from `id`.
pub proof fn lemma_without_contains(ids: Seq<u32>, id: u32, x: u32)
    ensures
        without(ids, id).contains(x) <==> ids.contains(x) && x != id,
    decreases ids.len(),
{
    reveal(Seq::filter);
    if ids.len() > 0 {
        let front = ids.drop_last();
        lemma_without_contains(front, id, x);
    }
}

/// Taking an id out of a list without duplicates leaves no duplicates.
pub proof fn lemma_without_no_duplicates(ids: Seq<u32>, id: u32)
    requires
        ids.no_duplicates(),
    ensures
        without(ids, id).no_duplicates(),
    decreases ids.len(),
{
    reveal(Seq::filter);
    if ids.len() > 0 {
        let front = ids.drop_last();
        lemma_without_no_duplicates(front, id);
        lemma_without_contains(front, id, ids.last());
    }
}

/// A list that does not hold `id` is left as it is.
pub proof fn lemma_without_absent(ids: Seq<u32>, id: u32)
    requires
        !ids.contains(id),
    ensures
        without(ids, id) == ids,
    decreases ids.len(),
{
    reveal(Seq::filter);
    if ids.len() > 0 {
        let front = ids.drop_last();
        lemma_without_absent(front, id);
    }
}

/// Creating an epic that lists no story keeps referential integrity.
pub proof fn lemma_create_epic_keeps_wf(s: DBStateView, epic: EpicView)
    requires
        s.wf(),
        s.can_allocate(),
        epic.stories.len() == 0,
    ensures
        s.create_epic(epic).wf(),
{
    let t = s.create_epic(epic);
    let id = s.next_id();
    assert forall|e: u32, x: u32| #[trigger] t.owns(e, x) implies s.owns(e, x) && e != id by {}
    assert forall|x: u32| #[trigger] t.stories.contains_key(x) implies exists|e: u32|
        t.owns(e, x) by {
        let e = choose|e: u32| s.owns(e, x);
        assert(t.owns(e, x));
    }
}

/// Creating a story under an existing epic keeps referential integrity.
pub proof fn lemma_create_story_keeps_wf(s: DBStateView, story: StoryView, epic_id: u32)
    requires
        s.wf(),
        s.can_allocate(),
        s.epics.contains_key(epic_id),
    ensures
        s.create_story(story, epic_id).wf(),
{
    let t = s.create_story(story, epic_id);
    let id = s.next_id();
    let old_list = s.epics[epic_id].stories;
    let new_list = old_list.push(id);
    assert(new_list[old_list.len() as int] == id);
    assert(t.owns(epic_id, id));
    assert forall|x: u32| old_list.contains(x) implies x != id by {
        assert(s.owns(epic_id, x));
    }
    assert forall|e: u32, x: u32| #[trigger] t.owns(e, x) implies (x == id && e == epic_id)
        || (x != id && s.owns(e, x)) by {
        if e != epic_id {
            assert(s.owns(e, x));
        }
    }
    assert forall|e: u32, x: u32| s.owns(e, x) implies #[trigger] t.owns(e, x) by {
        if e == epic_id {
            let i = choose|i: int| 0 <= i < old_list.len() && old_list[i] == x;
            assert(new_list[i] == x);
        }
    }
    assert forall|x: u32| #[trigger] t.stories.contains_key(x) implies exists|e: u32|
        t.owns(e, x) by {
        if x != id {
            let e = choose|e: u32| s.owns(e, x);
            assert(t.owns(e, x));
        }
    }
    assert forall|e: u32| #[trigger] t.epics.contains_key(e) implies t.epics[e].stories.no_duplicates() by {
        if e == epic_id {
            assert forall|i: int, j: int|
                0 <= i < new_list.len() && 0 <= j < new_list.len() && i != j implies new_list[i]
                != new_list[j] by {
                if i < old_list.len() {
                    assert(old_list.contains(new_list[i]));
                }
                if j < old_list.len() {
                    assert(old_list.contains(new_list[j]));
                }
            }
        }
    }
}

/// Overwriting the status of an existing epic keeps referential integrity.
pub proof fn lemma_update_epic_status_keeps_wf(s: DBStateView, epic_id: u32, status: Status)
    requires
        s.wf(),
        s.epics.contains_key(epic_id),
    ensures
        s.update_epic_status(epic_id, status).wf(),
{
    let t = s.update_epic_status(epic_id, status);
    assert forall|e: u32, x: u32| #[trigger] t.owns(e, x) <==> s.owns(e, x) by {}
    assert forall|x: u32| #[trigger] t.stories.contains_key(x) implies exists|e: u32|
        t.owns(e, x) by {
        let e = choose|e: u32| s.owns(e, x);
        assert(t.owns(e, x));
    }
}

/// Overwriting the status of an existing story keeps referential integrity.
pub proof fn lemma_update_story_status_keeps_wf(s: DBStateView, story_id: u32, status: Status)
    requires
        s.wf(),
        s.stories.contains_key(story_id),
    ensures
        s.update_story_status(story_id, status).wf(),
{
    let t = s.update_story_status(story_id, status);
    assert forall|e: u32, x: u32| #[trigger] t.owns(e, x) <==> s.owns(e, x) by {}
    assert forall|x: u32| #[trigger] t.stories.contains_key(x) implies exists|e: u32|
        t.owns(e, x) by {
        let e = choose|e: u32| s.owns(e, x);
        assert(t.owns(e, x));
    }
}

/// Deleting an existing epic, with the stories it lists, keeps referential
/// integrity.
pub proof fn lemma_delete_epic_keeps_wf(s: DBStateView, epic_id: u32)
    requires
        s.wf(),
        s.epics.contains_key(epic_id),
    ensures
        s.delete_epic(epic_id).wf(),
{
    let t = s.delete_epic(epic_id);
    assert forall|e: u32, x: u32| #[trigger] t.owns(e, x) <==> s.owns(e, x) && e != epic_id by {}
    assert forall|e: u32, x: u32| #[trigger] t.owns(e, x) implies t.stories.contains_key(x) by {
        if s.epics[epic_id].stories.contains(x) {
            assert(s.owns(epic_id, x));
        }
    }
    assert forall|x: u32| #[trigger] t.stories.contains_key(x) implies exists|e: u32|
        t.owns(e, x) by {
        let e = choose|e: u32| s.owns(e, x);
        assert(t.owns(e, x));
    }
}

/// Deleting a story through the epic that lists it, or a story that does not
/// exist, keeps referential integrity.
pub proof fn lemma_delete_story_keeps_wf(s: DBStateView, epic_id: u32, story_id: u32)
    requires
        s.wf(),
        s.epics.contains_key(epic_id),
        s.stories.contains_key(story_id) ==> s.owns(epic_id, story_id),
    ensures
        s.delete_story(epic_id, story_id).wf(),
{
    let t = s.delete_story(epic_id, story_id);
    let old_list = s.epics[epic_id].stories;
    lemma_without_no_duplicates(old_list, story_id);
    assert forall|e: u32, x: u32| #[trigger] t.owns(e, x) <==> s.owns(e, x) && x != story_id by {
        lemma_without_contains(old_list, story_id, x);
        if s.owns(e, x) && x == story_id {
            assert(s.owns(epic_id, story_id));
        }
    }
    assert forall|x: u32| #[trigger] t.stories.contains_key(x) implies exists|e: u32|
        t.owns(e, x) by {
        let e = choose|e: u32| s.owns(e, x);
        assert(t.owns(e, x));
    }
}

impl DBState {
    /// Hands out the next id and stores `epic` under it.
    ///
    /// Refused with `IdSpaceExhausted`, and the state left as it was, when the
    /// counter has reached the largest id.
    pub fn create_epic(&mut self, epic: Epic) -> (r: Result<u32, StoreError>)
        ensures
            r == old(self)@.create_epic_outcome(),
            r is Ok ==> final(self)@ == old(self)@.create_epic(epic@),
            r is Err ==> final(self)@ == old(self)@,
            r matches Ok(id) ==> id > old(self)@.last_item_id && final(self)@.last_item_id == id,
            old(self)@.wf() && epic@.stories.len() == 0 ==> final(self)@.wf(),
    {
        if self.last_item_id == u32::MAX {
            return Err(StoreError::IdSpaceExhausted);
        }
        let id: u32 = self.last_item_id + 1;
        self.last_item_id = id;
        self.epics.insert(id, epic);
        proof {
            assert(self@.epics =~= old(self)@.epics.insert(id, epic@));
            if old(self)@.wf() && epic@.stories.len() == 0 {
                lemma_create_epic_keeps_wf(old(self)@, epic@);
            }
        }
        Ok(id)
    }

    /// Hands out the next id, stores `story` under it and appends the id to
    /// the list of epic `epic_id`.
    ///
    /// Refused with `EpicNotFound` exactly when the epic does not exist, and
    /// with `IdSpaceExhausted` when it exists but the counter has reached the
    /// largest id; a refusal leaves the state as it was.
    pub fn create_story(&mut self, story: Story, epic_id: u32) -> (r: Result<u32, StoreError>)
        ensures
            r == old(self)@.create_story_outcome(epic_id),
            r is Ok ==> final(self)@ == old(self)@.create_story(story@, epic_id),
            r is Err ==> final(self)@ == old(self)@,
            r == Err::<u32, StoreError>(StoreError::EpicNotFound) <==> !old(self)@.epics.contains_key(
                epic_id,
            ),
            r matches Ok(id) ==> {
                &&& id > old(self)@.last_item_id
                &&& final(self)@.last_item_id == id
                &&& final(self)@.epics[epic_id].stories == old(self)@.epics[epic_id].stories.push(id)
                &&& final(self)@.stories.contains_key(id)
                &&& final(self)@.stories[id] == story@
            },
            old(self)@.wf() ==> final(self)@.wf(),
    {
        if !self.epics.contains_key(&epic_id) {
            return Err(StoreError::EpicNotFound);
        }
        if self.last_item_id == u32::MAX {
            return Err(StoreError::IdSpaceExhausted);
        }
        let id: u32 = self.last_item_id + 1;
        let removed = self.epics.remove(&epic_id);
        let mut epic = removed.unwrap();
        let ghost listed = epic@;
        epic.stories.push(id);
        self.epics.insert(epic_id, epic);
        self.stories.insert(id, story);
        self.last_item_id = id;
        proof {
            assert(self@.epics =~= old(self)@.create_story(story@, epic_id).epics);
            assert(self@.stories =~= old(self)@.create_story(story@, epic_id).stories);
            if old(self)@.wf() {
                lemma_create_story_keeps_wf(old(self)@, story@, epic_id);
            }
        }
        Ok(id)
    }

    /// Overwrites the status of epic `epic_id`.
    ///
    /// Refused with `EpicNotFound`, and the state left as it was, exactly when
    /// the epic does not exist.
    pub fn update_epic_status(&mut self, epic_id: u32, status: Status) -> (r: Result<
        (),
        StoreError,
    >)
        ensures
            r == old(self)@.epic_outcome(epic_id),
            r is Ok ==> final(self)@ == old(self)@.update_epic_status(epic_id, status),
            r is Err ==> final(self)@ == old(self)@,
            old(self)@.wf() ==> final(self)@.wf(),
    {
        match self.epics.remove(&epic_id) {
            None => {
                proof {
                    assert(self@.epics =~= old(self)@.epics);
                }
                Err(StoreError::EpicNotFound)
            },
            Some(mut epic) => {
                epic.status = status;
                self.epics.insert(epic_id, epic);
                proof {
                    assert(self@.epics =~= old(self)@.update_epic_status(epic_id, status).epics);
                    if old(self)@.wf() {
                        lemma_update_epic_status_keeps_wf(old(self)@, epic_id, status);
                    }
                }
                Ok(())
            },
        }
    }

    /// Overwrites the status of story `story_id`.
    ///
    /// Refused with `StoryNotFound`, and the state left as it was, exactly
    /// when the story does not exist.
    pub fn update_story_status(&mut self, story_id: u32, status: Status) -> (r: Result<
        (),
        StoreError,
    >)
        ensures
            r == old(self)@.story_outcome(story_id),
            r is Ok ==> final(self)@ == old(self)@.update_story_status(story_id, status),
            r is Err ==> final(self)@ == old(self)@,
            old(self)@.wf() ==> final(self)@.wf(),
    {
        match self.stories.remove(&story_id) {
            None => {
                proof {
                    assert(self@.stories =~= old(self)@.stories);
                }
                Err(StoreError::StoryNotFound)
            },
            Some(mut story) => {
                story.status = status;
                self.stories.insert(story_id, story);
                proof {
                    assert(self@.stories =~= old(self)@.update_story_status(
                        story_id,
                        status,
                    ).stories);
                    if old(self)@.wf() {
                        lemma_update_story_status_keeps_wf(old(self)@, story_id, status);
                    }
                }
                Ok(())
            },
        }
    }

    /// Removes epic `epic_id` and every story it lists.
    ///
    /// Refused with `EpicNotFound`, and the state left as it was, exactly when
    /// the epic does not exist.
    pub fn delete_epic(&mut self, epic_id: u32) -> (r: Result<(), StoreError>)
        ensures
            r == old(self)@.epic_outcome(epic_id),
            r is Ok ==> final(self)@ == old(self)@.delete_epic(epic_id),
            r is Err ==> final(self)@ == old(self)@,
            r is Ok ==> {
                &&& !final(self)@.epics.contains_key(epic_id)
                &&& forall|i: int|
                    0 <= i < old(self)@.epics[epic_id].stories.len()
                        ==> !final(self)@.stories.contains_key(
                        #[trigger] old(self)@.epics[epic_id].stories[i],
                    )
                &&& forall|s: u32| #[trigger]
                    final(self)@.stories.contains_key(s) ==> !old(self)@.owns(epic_id, s)
            },
            old(self)@.wf() ==> final(self)@.wf(),
    {
        let epic = match self.epics.remove(&epic_id) {
            None => {
                proof {
                    assert(self@.epics =~= old(self)@.epics);
                }
                return Err(StoreError::EpicNotFound);
            },
            Some(epic) => epic,
        };
        let ghost listed = epic.stories@;
        let ghost before = self.stories@;
        let mut i: usize = 0;
        while i < epic.stories.len()
            invariant
                i <= epic.stories.len(),
                epic.stories@ == listed,
                self.last_item_id == old(self).last_item_id,
                self.epics@ == old(self).epics@.remove(epic_id),
                self.stories@ =~= before.remove_keys(listed.subrange(0, i as int).to_set()),
            decreases epic.stories.len() - i,
        {
            let story_id = epic.stories[i];
            self.stories.remove(&story_id);
            proof {
                let done = listed.subrange(0, i as int);
                let more = listed.subrange(0, i + 1);
                assert forall|x: u32| more.contains(x) <==> done.contains(x) || x == story_id by {
                    assert(more[i as int] == story_id);
                }
            }
            i += 1;
        }
        proof {
            assert(listed.subrange(0, i as int) =~= listed);
            let expected = old(self)@.delete_epic(epic_id);
            assert(self@.epics =~= expected.epics);
            assert(self@.stories =~= expected.stories);
            if old(self)@.wf() {
                lemma_delete_epic_keeps_wf(old(self)@, epic_id);
            }
        }
        Ok(())
    }

    /// Takes `story_id` out of the list of epic `epic_id` and removes the
    /// story record. Succeeds also when the list or the table does not hold
    /// the id.
    ///
    /// Refused with `EpicNotFound`, and the state left as it was, exactly when
    /// the epic does not exist.
    pub fn delete_story(&mut self, epic_id: u32, story_id: u32) -> (r: Result<(), StoreError>)
        ensures
            r == old(self)@.epic_outcome(epic_id),
            r is Ok ==> final(self)@ == old(self)@.delete_story(epic_id, story_id),
            r is Err ==> final(self)@ == old(self)@,
            r is Ok ==> {
                &&& !final(self)@.owns(epic_id, story_id)
                &&& !final(self)@.stories.contains_key(story_id)
            },
            old(self)@.wf() && (old(self)@.stories.contains_key(story_id) ==> old(self)@.owns(
                epic_id,
                story_id,
            )) ==> final(self)@.wf(),
    {
        let mut epic = match self.epics.remove(&epic_id) {
            None => {
                proof {
                    assert(self@.epics =~= old(self)@.epics);
                }
                return Err(StoreError::EpicNotFound);
            },
            Some(epic) => epic,
        };
        let ghost listed = epic.stories@;
        let ghost found = epic@;
        let mut kept: Vec<u32> = Vec::new();
        let mut i: usize = 0;
        while i < epic.stories.len()
            invariant
                i <= epic.stories.len(),
                epic.stories@ == listed,
                kept@ == without(listed.subrange(0, i as int), story_id),
            decreases epic.stories.len() - i,
        {
            let id = epic.stories[i];
            proof {
                reveal(Seq::filter);
                assert(listed.subrange(0, i + 1).drop_last() =~= listed.subrange(0, i as int));
            }
            if id != story_id {
                kept.push(id);
            }
            i += 1;
        }
        epic.stories = kept;
        self.epics.insert(epic_id, epic);
        self.stories.remove(&story_id);
        proof {
            assert(listed.subrange(0, i as int) =~= listed);
            let expected = old(self)@.delete_story(epic_id, story_id);
            assert(self@.epics =~= expected.epics);
            assert(self@.stories =~= expected.stories);
            if old(self)@.wf() && (old(self)@.stories.contains_key(story_id) ==> old(self)@.owns(
                epic_id,
                story_id,
            )) {
                lemma_delete_story_keeps_wf(old(self)@, epic_id, story_id);
            }
        }
        Ok(())
    }

    /// A copy with the same value.
    pub fn duplicate(&self) -> (copy: Self)
        ensures
            copy@ == self@,
    {
        Self {
            last_item_id: self.last_item_id,
            epics: self.epics.clone(),
            stories: self.stories.clone(),
        }
    }
}

/// Deleting a story a second time changes nothing: once the list and the
/// table no longer hold the id, the deletion succeeds and leaves the state as
/// it is.
pub proof fn lemma_delete_story_idempotent(s: DBStateView, epic_id: u32, story_id: u32)
    requires
        s.epics.contains_key(epic_id),
    ensures
        s.delete_story(epic_id, story_id).epic_outcome(epic_id) is Ok,
        s.delete_story(epic_id, story_id).delete_story(epic_id, story_id) == s.delete_story(
            epic_id,
            story_id,
        ),
{
    let once = s.delete_story(epic_id, story_id);
    let twice = once.delete_story(epic_id, story_id);
    let list = without(s.epics[epic_id].stories, story_id);
    lemma_without_absent(list, story_id);
    assert(twice.epics =~= once.epics);
    assert(twice.stories =~= once.stories);
}

/// The empty state has referential integrity.
pub proof fn lemma_empty_wf()
    ensures
        DBStateView::empty().wf(),
{
}

} // verus!
