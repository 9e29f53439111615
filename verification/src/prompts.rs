//! The questions the navigator puts to the user, as replaceable parts.

use crate::models::{Epic, EpicView, Status, Story, StoryView};
use crate::pages::is_command;
use vstd::prelude::*;

verus! {

/// Something that can be asked for a `T`. A prompt says which answers it can
/// give, and gives one of them each time it is asked: one that puts the
/// question to a user can give any answer, one that answers by itself only
/// its own.
pub trait Prompt<T> {
    /// Whether `answer` is one that the prompt can give.
    spec fn can_answer(&self, answer: T) -> bool;

    /// Asks, and hands back the answer.
    fn ask(&self) -> (answer: T)
        ensures
            self.can_answer(answer),
    ;
}

/// Answers with an open epic of the given name and description.
pub struct EpicAnswer {
    pub name: String,
    pub description: String,
}

impl Prompt<Epic> for EpicAnswer {
    open spec fn can_answer(&self, answer: Epic) -> bool {
        answer@ == new_epic(self.name@, self.description@)
    }

    fn ask(&self) -> (epic: Epic) {
        Epic::new(self.name.clone(), self.description.clone())
    }
}

/// Answers with an open story of the given name and description.
pub struct StoryAnswer {
    pub name: String,
    pub description: String,
}

impl Prompt<Story> for StoryAnswer {
    open spec fn can_answer(&self, answer: Story) -> bool {
        answer@ == new_story(self.name@, self.description@)
    }

    fn ask(&self) -> (story: Story) {
        Story::new(self.name.clone(), self.description.clone())
    }
}

/// Answers a yes-or-no question the same way each time.
pub struct Confirmation(pub bool);

impl Prompt<bool> for Confirmation {
    open spec fn can_answer(&self, answer: bool) -> bool {
        answer == self.0
    }

    fn ask(&self) -> (confirmed: bool) {
        self.0
    }
}

/// Answers with the same status selection each time; `None` selects nothing.
pub struct Selection(pub Option<Status>);

impl Prompt<Option<Status>> for Selection {
    open spec fn can_answer(&self, answer: Option<Status>) -> bool {
        answer == self.0
    }

    fn ask(&self) -> (selection: Option<Status>) {
        self.0
    }
}

/// The status that a line of input selects: `1` to `4` select the statuses in
/// their order, and any other line selects none.
pub open spec fn spec_selected_status(line: Seq<char>) -> Option<Status> {
    if line == seq!['1'] {
        Some(Status::Open)
    } else if line == seq!['2'] {
        Some(Status::InProgress)
    } else if line == seq!['3'] {
        Some(Status::Resolved)
    } else if line == seq!['4'] {
        Some(Status::Closed)
    } else {
        None
    }
}

/// Reads the answer to a status question.
pub fn selected_status(line: &str) -> (selection: Option<Status>)
    ensures
        selection == spec_selected_status(line@),
{
    if is_command(line, '1') {
        Some(Status::Open)
    } else if is_command(line, '2') {
        Some(Status::InProgress)
    } else if is_command(line, '3') {
        Some(Status::Resolved)
    } else if is_command(line, '4') {
        Some(Status::Closed)
    } else {
        None
    }
}

/// The five questions of the navigator.
pub struct Prompts {
    /// Asks for the epic to create.
    pub create_epic: Box<dyn Prompt<Epic>>,
    /// Asks for the story to create.
    pub create_story: Box<dyn Prompt<Story>>,
    /// Asks whether an epic is to be deleted.
    pub delete_epic: Box<dyn Prompt<bool>>,
    /// Asks whether a story is to be deleted.
    pub delete_story: Box<dyn Prompt<bool>>,
    /// Asks for a new status; no selection cancels the update.
    pub update_status: Box<dyn Prompt<Option<Status>>>,
}

impl Prompts {
    /// Prompts that ask nobody: they name nothing, confirm no deletion and
    /// select no status. A front end puts its own in their place.
    pub fn new() -> (prompts: Self)
        ensures
            prompts.unattended(),
    {
        Self {
            create_epic: Box::new(EpicAnswer { name: String::new(), description: String::new() }),
            create_story: Box::new(StoryAnswer { name: String::new(), description: String::new() }),
            delete_epic: Box::new(Confirmation(false)),
            delete_story: Box::new(Confirmation(false)),
            update_status: Box::new(Selection(None)),
        }
    }

    /// Whether these prompts ask nobody: the only epic and the only story
    /// they give are open and unnamed, they confirm no deletion, and they
    /// select no status.
    pub open spec fn unattended(self) -> bool {
        &&& forall|epic: Epic| #[trigger]
            self.create_epic.can_answer(epic) <==> epic@ == new_epic(Seq::empty(), Seq::empty())
        &&& forall|story: Story| #[trigger]
            self.create_story.can_answer(story) <==> story@ == new_story(
                Seq::empty(),
                Seq::empty(),
            )
        &&& forall|confirmed: bool| #[trigger]
            self.delete_epic.can_answer(confirmed) <==> !confirmed
        &&& forall|confirmed: bool| #[trigger]
            self.delete_story.can_answer(confirmed) <==> !confirmed
        &&& forall|selection: Option<Status>| #[trigger]
            self.update_status.can_answer(selection) <==> selection is None
    }
}

/// Reads the answer to a yes-or-no question: only a capital `Y` confirms.
pub fn confirms(line: &str) -> (confirmed: bool)
    ensures
        confirmed == (line@ == seq!['Y']),
{
    is_command(line, 'Y')
}

/// The value of an open epic of the given name and description that lists no
/// story.
pub open spec fn new_epic(name: Seq<char>, description: Seq<char>) -> EpicView {
    EpicView { name, description, status: Status::Open, stories: Seq::empty() }
}

/// The value of an open story of the given name and description.
pub open spec fn new_story(name: Seq<char>, description: Seq<char>) -> StoryView {
    StoryView { name, description, status: Status::Open }
}

} // verus!
