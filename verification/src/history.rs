//! Sequences of store operations: the state they lead to and the ids they
//! hand out along the way.

use crate::models::{DBStateView, EpicView, Status, StoryView};
use crate::transitions::{
    lemma_create_epic_keeps_wf, lemma_create_story_keeps_wf, lemma_delete_epic_keeps_wf,
    lemma_delete_story_keeps_wf, lemma_update_epic_status_keeps_wf,
    lemma_update_story_status_keeps_wf,
};
use vstd::prelude::*;

verus! {

/// One operation on the store, with the values it is given.
pub enum Operation {
    CreateEpic { epic: EpicView },
    CreateStory { story: StoryView, epic_id: u32 },
    UpdateEpicStatus { epic_id: u32, status: Status },
    UpdateStoryStatus { story_id: u32, status: Status },
    DeleteEpic { epic_id: u32 },
    DeleteStory { epic_id: u32, story_id: u32 },
}

impl DBStateView {
    /// The id that `op` hands out on this state: that of the item it creates,
    /// and none when it is refused or creates nothing.
    pub open spec fn issued(self, op: Operation) -> Option<u32> {
        match op {
            Operation::CreateEpic { .. } => match self.create_epic_outcome() {
                Ok(id) => Some(id),
                Err(_) => None,
            },
            Operation::CreateStory { epic_id, .. } => match self.create_story_outcome(epic_id) {
                Ok(id) => Some(id),
                Err(_) => None,
            },
            _ => None,
        }
    }

    /// The state after `op`: changed as the operation says where it succeeds,
    /// and left as it is where it is refused.
    pub open spec fn after(self, op: Operation) -> DBStateView {
        match op {
            Operation::CreateEpic { epic } => if self.create_epic_outcome() is Ok {
                self.create_epic(epic)
            } else {
                self
            },
            Operation::CreateStory { story, epic_id } => if self.create_story_outcome(epic_id) is Ok {
                self.create_story(story, epic_id)
            } else {
                self
            },
            Operation::UpdateEpicStatus { epic_id, status } => if self.epic_outcome(epic_id) is Ok {
                self.update_epic_status(epic_id, status)
            } else {
                self
            },
            Operation::UpdateStoryStatus { story_id, status } => if self.story_outcome(story_id) is Ok {
                self.update_story_status(story_id, status)
            } else {
                self
            },
            Operation::DeleteEpic { epic_id } => if self.epic_outcome(epic_id) is Ok {
                self.delete_epic(epic_id)
            } else {
                self
            },
            Operation::DeleteStory { epic_id, story_id } => if self.epic_outcome(epic_id) is Ok {
                self.delete_story(epic_id, story_id)
            } else {
                self
            },
        }
    }

    /// Whether `op` is posed so that referential integrity survives it: a new
    /// epic lists no story, and a story is deleted through the epic that
    /// lists it.
    pub open spec fn well_posed(self, op: Operation) -> bool {
        match op {
            Operation::CreateEpic { epic } => epic.stories.len() == 0,
            Operation::DeleteStory { epic_id, story_id } => self.stories.contains_key(story_id)
                ==> self.owns(epic_id, story_id),
            _ => true,
        }
    }

    /// The state after all of `ops`, first to last.
    pub open spec fn after_all(self, ops: Seq<Operation>) -> DBStateView
        decreases ops.len(),
    {
        if ops.len() == 0 {
            self
        } else {
            self.after_all(ops.drop_last()).after(ops.last())
        }
    }

    /// The id that `ops[i]` hands out when `ops` is run from this state.
    pub open spec fn issued_at(self, ops: Seq<Operation>, i: int) -> Option<u32>
        recommends
            0 <= i < ops.len(),
    {
        self.after_all(ops.subrange(0, i)).issued(ops[i])
    }
}

/// No operation lowers the id counter, and one that hands out an id raises
/// the counter to that id.
pub proof fn lemma_counter_after(s: DBStateView, op: Operation)
    ensures
        s.after(op).last_item_id >= s.last_item_id,
        s.issued(op) matches Some(id) ==> id > s.last_item_id && s.after(op).last_item_id == id,
{
}

/// Whatever operations are run, deletions included, the id counter never
/// goes down.
pub proof fn lemma_counter_never_decreases(s: DBStateView, ops: Seq<Operation>)
    ensures
        s.after_all(ops).last_item_id >= s.last_item_id,
    decreases ops.len(),
{
    if ops.len() > 0 {
        lemma_counter_never_decreases(s, ops.drop_last());
    }
}

/// The counter after the first `j` operations is at least the counter after
/// the first `i`, for `i <= j`.
proof fn lemma_counter_monotone(s: DBStateView, ops: Seq<Operation>, i: int, j: int)
    requires
        0 <= i <= j <= ops.len(),
    ensures
        s.after_all(ops.subrange(0, i)).last_item_id <= s.after_all(
            ops.subrange(0, j),
        ).last_item_id,
    decreases j - i,
{
    if i < j {
        lemma_counter_monotone(s, ops, i, j - 1);
        assert(ops.subrange(0, j).drop_last() =~= ops.subrange(0, j - 1));
    }
}

/// Ids are handed out in strictly increasing order and never reused: in any
/// sequence of operations run from any state, an id handed out later exceeds
/// every id handed out earlier, and each exceeds the counter the run started
/// from.
pub proof fn lemma_ids_strictly_increase(s: DBStateView, ops: Seq<Operation>, i: int, j: int)
    requires
        0 <= i < j < ops.len(),
        s.issued_at(ops, i) is Some,
        s.issued_at(ops, j) is Some,
    ensures
        s.issued_at(ops, i)->0 < s.issued_at(ops, j)->0,
        s.last_item_id < s.issued_at(ops, i)->0,
{
    lemma_counter_monotone(s, ops, 0, i);
    assert(ops.subrange(0, i + 1).drop_last() =~= ops.subrange(0, i));
    lemma_counter_monotone(s, ops, i + 1, j);
}

/// An id that was handed out is never handed out again: two operations of
/// one run never hand out the same id.
pub proof fn lemma_issued_ids_distinct(s: DBStateView, ops: Seq<Operation>, i: int, j: int)
    requires
        0 <= i < ops.len(),
        0 <= j < ops.len(),
        i != j,
        s.issued_at(ops, i) is Some,
        s.issued_at(ops, j) is Some,
    ensures
        s.issued_at(ops, i)->0 != s.issued_at(ops, j)->0,
{
    if i < j {
        lemma_ids_strictly_increase(s, ops, i, j);
    } else {
        lemma_ids_strictly_increase(s, ops, j, i);
    }
}

/// Every completed operation leaves referential integrity in place, whether
/// it succeeded or was refused.
pub proof fn lemma_after_keeps_wf(s: DBStateView, op: Operation)
    requires
        s.wf(),
        s.well_posed(op),
    ensures
        s.after(op).wf(),
{
    match op {
        Operation::CreateEpic { epic } => {
            if s.create_epic_outcome() is Ok {
                lemma_create_epic_keeps_wf(s, epic);
            }
        },
        Operation::CreateStory { story, epic_id } => {
            if s.create_story_outcome(epic_id) is Ok {
                lemma_create_story_keeps_wf(s, story, epic_id);
            }
        },
        Operation::UpdateEpicStatus { epic_id, status } => {
            if s.epic_outcome(epic_id) is Ok {
                lemma_update_epic_status_keeps_wf(s, epic_id, status);
            }
        },
        Operation::UpdateStoryStatus { story_id, status } => {
            if s.story_outcome(story_id) is Ok {
                lemma_update_story_status_keeps_wf(s, story_id, status);
            }
        },
        Operation::DeleteEpic { epic_id } => {
            if s.epic_outcome(epic_id) is Ok {
                lemma_delete_epic_keeps_wf(s, epic_id);
            }
        },
        Operation::DeleteStory { epic_id, story_id } => {
            if s.epic_outcome(epic_id) is Ok {
                lemma_delete_story_keeps_wf(s, epic_id, story_id);
            }
        },
    }
}

} // verus!
