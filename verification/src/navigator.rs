//! The page stack and the handling of actions: navigation changes the stack,
//! everything else asks a prompt and then the store.

use crate::db::{round_ends, JiraDatabase};
use crate::models::{Action, DBStateView, Epic, Status, Story};
use crate::pages::Page;
use crate::prompts::Prompts;
use crate::transitions::StoreError;
use vstd::prelude::*;

verus! {

/// The page stack after `action`, bottom first.
///
/// Opening a page pushes it, going back pops the top page of a stack that
/// has one and leaves an empty stack empty, leaving clears the stack, and no
/// other action touches it.
pub open spec fn navigate(pages: Seq<Page>, action: Action) -> Seq<Page> {
    match action {
        Action::NavigateToEpicDetail { epic_id } => pages.push(Page::EpicDetail { epic_id }),
        Action::NavigateToStoryDetail { epic_id, story_id } => pages.push(
            Page::StoryDetail { epic_id, story_id },
        ),
        Action::NavigateToPreviousPage => if pages.len() > 0 {
            pages.drop_last()
        } else {
            pages
        },
        Action::Exit => Seq::empty(),
        _ => pages,
    }
}

/// Whether `action` only moves between pages.
pub open spec fn is_navigation(action: Action) -> bool {
    action is NavigateToEpicDetail || action is NavigateToStoryDetail
        || action is NavigateToPreviousPage || action is Exit
}

/// The result of an operation without the id it handed out.
pub open spec fn without_id(outcome: Result<u32, StoreError>) -> Result<(), StoreError> {
    match outcome {
        Ok(_) => Ok(()),
        Err(e) => Err(e),
    }
}

/// How the store stands after `action` was handled with result `r`: as the
/// action's operation ends on some answer that its prompt can give, and left
/// alone without an error by navigation.
pub open spec fn handled(
    prompts: Prompts,
    before: DBStateView,
    after: DBStateView,
    r: Result<(), StoreError>,
    action: Action,
) -> bool {
    match action {
        Action::CreateEpic => exists|epic: Epic| #[trigger]
            prompts.create_epic.can_answer(epic) && round_ends(
                before,
                after,
                r,
                without_id(before.create_epic_outcome()),
                before.create_epic(epic@),
            ),
        Action::CreateStory { epic_id } => exists|story: Story| #[trigger]
            prompts.create_story.can_answer(story) && round_ends(
                before,
                after,
                r,
                without_id(before.create_story_outcome(epic_id)),
                before.create_story(story@, epic_id),
            ),
        Action::UpdateEpicStatus { epic_id } => exists|selection: Option<Status>| #[trigger]
            prompts.update_status.can_answer(selection) && epic_status_settled(
                before,
                after,
                r,
                epic_id,
                selection,
            ),
        Action::UpdateStoryStatus { story_id } => exists|selection: Option<Status>| #[trigger]
            prompts.update_status.can_answer(selection) && story_status_settled(
                before,
                after,
                r,
                story_id,
                selection,
            ),
        Action::DeleteEpic { epic_id } => exists|confirmed: bool| #[trigger]
            prompts.delete_epic.can_answer(confirmed) && epic_deletion_settled(
                before,
                after,
                r,
                epic_id,
                confirmed,
            ),
        Action::DeleteStory { epic_id, story_id } => exists|confirmed: bool| #[trigger]
            prompts.delete_story.can_answer(confirmed) && story_deletion_settled(
                before,
                after,
                r,
                epic_id,
                story_id,
                confirmed,
            ),
        _ => r is Ok && after == before,
    }
}

/// Opening an epic and then a story and going back twice leads to the stack
/// one started from; from the home page alone, to the home page alone.
pub proof fn lemma_detail_and_back(pages: Seq<Page>, epic_id: u32, story_id: u32)
    ensures
        ({
            let at_epic = navigate(pages, Action::NavigateToEpicDetail { epic_id });
            let at_story = navigate(at_epic, Action::NavigateToStoryDetail { epic_id, story_id });
            let back_once = navigate(at_story, Action::NavigateToPreviousPage);
            let back_twice = navigate(back_once, Action::NavigateToPreviousPage);
            &&& at_epic.len() == pages.len() + 1
            &&& at_epic.last() == Page::EpicDetail { epic_id }
            &&& at_story.len() == pages.len() + 2
            &&& at_story.last() == Page::StoryDetail { epic_id, story_id }
            &&& back_once == at_epic
            &&& back_twice == pages
            &&& pages == seq![Page::HomePage] ==> back_twice.len() == 1 && back_twice.last()
                == Page::HomePage
        }),
{
}

/// Going back on an empty stack changes nothing, and going back on any other
/// stack takes exactly the top page off, so that the home page alone gives
/// way to the empty stack.
pub proof fn lemma_going_back(pages: Seq<Page>)
    ensures
        navigate(Seq::<Page>::empty(), Action::NavigateToPreviousPage) == Seq::<Page>::empty(),
        pages.len() > 0 ==> navigate(pages, Action::NavigateToPreviousPage) == pages.drop_last(),
        navigate(seq![Page::HomePage], Action::NavigateToPreviousPage) == Seq::<Page>::empty(),
{
}

/// Leaving empties the stack, however deep it is.
pub proof fn lemma_exit_clears(pages: Seq<Page>)
    ensures
        navigate(pages, Action::Exit).len() == 0,
{
}

/// A stack with the home page at the bottom keeps it there, whatever the
/// action, for as long as it is not empty.
pub proof fn lemma_home_stays_at_bottom(pages: Seq<Page>, action: Action)
    requires
        pages.len() > 0,
        pages[0] == Page::HomePage,
    ensures
        navigate(pages, action).len() > 0 ==> navigate(pages, action)[0] == Page::HomePage,
{
}

/// The page stack of the tracker, with the prompts and the store that the
/// actions work on.
pub struct Navigator {
    pages: Vec<Page>,
    prompts: Prompts,
    db: JiraDatabase,
}

impl Navigator {
    /// The page stack, bottom first.
    pub closed spec fn pages(&self) -> Seq<Page> {
        self.pages@
    }

    /// The value of the state that the store holds.
    pub closed spec fn store(&self) -> DBStateView {
        self.db.state()
    }

    /// A navigator on the home page, with prompts that ask nobody.
    pub fn new(db: JiraDatabase) -> (nav: Self)
        ensures
            nav.pages() == seq![Page::HomePage],
            nav.store() == db.state(),
            nav.prompts().unattended(),
    {
        let mut pages = Vec::new();
        pages.push(Page::HomePage);
        Self { pages, prompts: Prompts::new(), db }
    }

    /// The page on top of the stack; none once the stack is empty.
    pub fn get_current_page(&self) -> (page: Option<&Page>)
        ensures
            match page {
                Some(top) => self.pages().len() > 0 && *top == self.pages().last(),
                None => self.pages().len() == 0,
            },
    {
        let count = self.pages.len();
        if count == 0 {
            None
        } else {
            Some(&self.pages[count - 1])
        }
    }

    /// The number of pages on the stack.
    pub fn get_page_count(&self) -> (count: usize)
        ensures
            count == self.pages().len(),
    {
        self.pages.len()
    }

    /// Replaces the prompts: from now on the actions ask `prompts`.
    pub fn set_prompts(&mut self, prompts: Prompts)
        ensures
            final(self).prompts() == prompts,
            final(self).pages() == old(self).pages(),
            final(self).store() == old(self).store(),
    {
        self.prompts = prompts;
    }

    /// The prompts that the actions ask.
    pub closed spec fn prompts(&self) -> Prompts {
        self.prompts
    }

    /// The store that the actions work on.
    pub fn db(&self) -> (db: &JiraDatabase)
        ensures
            db.state() == self.store(),
    {
        &self.db
    }

    /// Creates the epic that the prompt gave.
    pub fn create_epic(&mut self, epic: Epic) -> (r: Result<(), StoreError>)
        ensures
            final(self).pages() == old(self).pages(),
            final(self).prompts() == old(self).prompts(),
            round_ends(
                old(self).store(),
                final(self).store(),
                r,
                without_id(old(self).store().create_epic_outcome()),
                old(self).store().create_epic(epic@),
            ),
    {
        match self.db.create_epic(epic) {
            Ok(_) => Ok(()),
            Err(e) => Err(e),
        }
    }

    /// Creates the story that the prompt gave, under epic `epic_id`.
    pub fn create_story(&mut self, story: Story, epic_id: u32) -> (r: Result<(), StoreError>)
        ensures
            final(self).pages() == old(self).pages(),
            final(self).prompts() == old(self).prompts(),
            round_ends(
                old(self).store(),
                final(self).store(),
                r,
                without_id(old(self).store().create_story_outcome(epic_id)),
                old(self).store().create_story(story@, epic_id),
            ),
    {
        match self.db.create_story(story, epic_id) {
            Ok(_) => Ok(()),
            Err(e) => Err(e),
        }
    }

    /// Gives epic `epic_id` the status that was selected. Where none was
    /// selected the update is cancelled: the store is not touched, and that
    /// is no error.
    pub fn update_epic_status(&mut self, epic_id: u32, selection: Option<Status>) -> (r: Result<
        (),
        StoreError,
    >)
        ensures
            final(self).pages() == old(self).pages(),
            final(self).prompts() == old(self).prompts(),
            epic_status_settled(old(self).store(), final(self).store(), r, epic_id, selection),
            selection is None ==> r is Ok && final(self).store() == old(self).store(),
    {
        match selection {
            None => Ok(()),
            Some(status) => self.db.update_epic_status(epic_id, status),
        }
    }

    /// Gives story `story_id` the status that was selected. Where none was
    /// selected the update is cancelled: the store is not touched, and that
    /// is no error.
    pub fn update_story_status(&mut self, story_id: u32, selection: Option<Status>) -> (r: Result<
        (),
        StoreError,
    >)
        ensures
            final(self).pages() == old(self).pages(),
            final(self).prompts() == old(self).prompts(),
            story_status_settled(old(self).store(), final(self).store(), r, story_id, selection),
            selection is None ==> r is Ok && final(self).store() == old(self).store(),
    {
        match selection {
            None => Ok(()),
            Some(status) => self.db.update_story_status(story_id, status),
        }
    }

    /// Deletes epic `epic_id` with its stories where the deletion was
    /// confirmed. Where it was declined the store is not touched, and that is
    /// no error.
    pub fn delete_epic(&mut self, epic_id: u32, confirmed: bool) -> (r: Result<(), StoreError>)
        ensures
            final(self).pages() == old(self).pages(),
            final(self).prompts() == old(self).prompts(),
            epic_deletion_settled(old(self).store(), final(self).store(), r, epic_id, confirmed),
            !confirmed ==> r is Ok && final(self).store() == old(self).store(),
    {
        if confirmed {
            self.db.delete_epic(epic_id)
        } else {
            Ok(())
        }
    }

    /// Deletes story `story_id` of epic `epic_id` where the deletion was
    /// confirmed. Where it was declined the store is not touched, and that is
    /// no error.
    pub fn delete_story(&mut self, epic_id: u32, story_id: u32, confirmed: bool) -> (r: Result<
        (),
        StoreError,
    >)
        ensures
            final(self).pages() == old(self).pages(),
            final(self).prompts() == old(self).prompts(),
            story_deletion_settled(
                old(self).store(),
                final(self).store(),
                r,
                epic_id,
                story_id,
                confirmed,
            ),
            !confirmed ==> r is Ok && final(self).store() == old(self).store(),
    {
        if confirmed {
            self.db.delete_story(epic_id, story_id)
        } else {
            Ok(())
        }
    }

    /// Handles one action. Navigation changes the page stack and cannot
    /// fail; every other action leaves the stack alone, asks the prompt it
    /// needs and hands the answer to the store, whose failure is returned as
    /// it is.
    pub fn handle_action(&mut self, action: Action) -> (r: Result<(), StoreError>)
        ensures
            final(self).pages() == navigate(old(self).pages(), action),
            is_navigation(action) ==> r is Ok && final(self).store() == old(self).store(),
            action == Action::Exit ==> final(self).pages().len() == 0,
            final(self).prompts() == old(self).prompts(),
            handled(old(self).prompts(), old(self).store(), final(self).store(), r, action),
    {
        match action {
            Action::NavigateToEpicDetail { epic_id } => {
                self.pages.push(Page::EpicDetail { epic_id });
                Ok(())
            },
            Action::NavigateToStoryDetail { epic_id, story_id } => {
                self.pages.push(Page::StoryDetail { epic_id, story_id });
                Ok(())
            },
            Action::NavigateToPreviousPage => {
                let _ = self.pages.pop();
                Ok(())
            },
            Action::CreateEpic => {
                let epic = self.prompts.create_epic.ask();
                self.create_epic(epic)
            },
            Action::UpdateEpicStatus { epic_id } => {
                let selection = self.prompts.update_status.ask();
                self.update_epic_status(epic_id, selection)
            },
            Action::DeleteEpic { epic_id } => {
                let confirmed = self.prompts.delete_epic.ask();
                self.delete_epic(epic_id, confirmed)
            },
            Action::CreateStory { epic_id } => {
                let story = self.prompts.create_story.ask();
                self.create_story(story, epic_id)
            },
            Action::UpdateStoryStatus { story_id } => {
                let selection = self.prompts.update_status.ask();
                self.update_story_status(story_id, selection)
            },
            Action::DeleteStory { epic_id, story_id } => {
                let confirmed = self.prompts.delete_story.ask();
                self.delete_story(epic_id, story_id, confirmed)
            },
            Action::Exit => {
                self.pages.clear();
                Ok(())
            },
        }
    }
}

/// How a status update of epic `epic_id` ends: cancelled, without touching
/// the store and without an error, where no status was selected, and else as
/// one round of the update with the selected status.
pub open spec fn epic_status_settled(
    before: DBStateView,
    after: DBStateView,
    r: Result<(), StoreError>,
    epic_id: u32,
    selection: Option<Status>,
) -> bool {
    match selection {
        None => r is Ok && after == before,
        Some(status) => round_ends(
            before,
            after,
            r,
            before.epic_outcome(epic_id),
            before.update_epic_status(epic_id, status),
        ),
    }
}

/// How a status update of story `story_id` ends: cancelled, without touching
/// the store and without an error, where no status was selected, and else as
/// one round of the update with the selected status.
pub open spec fn story_status_settled(
    before: DBStateView,
    after: DBStateView,
    r: Result<(), StoreError>,
    story_id: u32,
    selection: Option<Status>,
) -> bool {
    match selection {
        None => r is Ok && after == before,
        Some(status) => round_ends(
            before,
            after,
            r,
            before.story_outcome(story_id),
            before.update_story_status(story_id, status),
        ),
    }
}

/// How a deletion of epic `epic_id` ends: declined, without touching the
/// store and without an error, and else as one round of the deletion.
pub open spec fn epic_deletion_settled(
    before: DBStateView,
    after: DBStateView,
    r: Result<(), StoreError>,
    epic_id: u32,
    confirmed: bool,
) -> bool {
    if confirmed {
        round_ends(before, after, r, before.epic_outcome(epic_id), before.delete_epic(epic_id))
    } else {
        r is Ok && after == before
    }
}

/// How a deletion of story `story_id` of epic `epic_id` ends: declined,
/// without touching the store and without an error, and else as one round of
/// the deletion.
pub open spec fn story_deletion_settled(
    before: DBStateView,
    after: DBStateView,
    r: Result<(), StoreError>,
    epic_id: u32,
    story_id: u32,
    confirmed: bool,
) -> bool {
    if confirmed {
        round_ends(
            before,
            after,
            r,
            before.epic_outcome(epic_id),
            before.delete_story(epic_id, story_id),
        )
    } else {
        r is Ok && after == before
    }
}

} // verus!
