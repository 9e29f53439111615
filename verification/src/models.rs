//! Work items, their lifecycle status, the persisted state and the actions a
//! page can ask for, each with the mathematical value contracts speak of.

use std::collections::HashMap;
use vstd::prelude::*;

verus! {

/// What a page asks the navigator to do.
#[derive(Debug, PartialEq, Eq, Clone, Copy, Structural)]
pub enum Action {
    NavigateToEpicDetail { epic_id: u32 },
    NavigateToStoryDetail { epic_id: u32, story_id: u32 },
    NavigateToPreviousPage,
    CreateEpic,
    UpdateEpicStatus { epic_id: u32 },
    DeleteEpic { epic_id: u32 },
    CreateStory { epic_id: u32 },
    UpdateStoryStatus { story_id: u32 },
    DeleteStory { epic_id: u32, story_id: u32 },
    Exit,
}

/// Lifecycle stage of an epic or a story, ordered
/// `Open < InProgress < Resolved < Closed`.
#[derive(Debug, Clone, Copy, PartialEq, Eq, PartialOrd, Ord, Structural)]
pub enum Status {
    Open,
    InProgress,
    Resolved,
    Closed,
}

impl Status {
    /// Position of the status in the lifecycle order, starting at 0.
    pub open spec fn spec_rank(self) -> nat {
        match self {
            Status::Open => 0,
            Status::InProgress => 1,
            Status::Resolved => 2,
            Status::Closed => 3,
        }
    }

    /// The display label of the status.
    pub open spec fn label(self) -> Seq<char> {
        match self {
            Status::Open => "OPEN"@,
            Status::InProgress => "IN PROGRESS"@,
            Status::Resolved => "RESOLVED"@,
            Status::Closed => "Closed"@,
        }
    }

    /// Position of the status in the lifecycle order, starting at 0.
    pub fn rank(self) -> (r: u8)
        ensures
            r == self.spec_rank(),
    {
        match self {
            Status::Open => 0,
            Status::InProgress => 1,
            Status::Resolved => 2,
            Status::Closed => 3,
        }
    }

    /// The display label as an owned string.
    pub fn to_string(&self) -> (s: String)
        ensures
            s@ == self.label(),
    {
        match self {
            Status::Open => "OPEN".to_owned(),
            Status::InProgress => "IN PROGRESS".to_owned(),
            Status::Resolved => "RESOLVED".to_owned(),
            Status::Closed => "Closed".to_owned(),
        }
    }
}

/// Distinct statuses have distinct ranks, so the rank orders them totally.
pub proof fn lemma_rank_injective(a: Status, b: Status)
    ensures
        a.spec_rank() == b.spec_rank() <==> a == b,
        a.spec_rank() <= 3,
{
}

/// The value of an [`Epic`].
pub struct EpicView {
    pub name: Seq<char>,
    pub description: Seq<char>,
    pub status: Status,
    pub stories: Seq<u32>,
}

/// The value of a [`Story`].
pub struct StoryView {
    pub name: Seq<char>,
    pub description: Seq<char>,
    pub status: Status,
}

/// A top-level work item; `stories` lists the ids of the stories it owns, in
/// the order they were created.
#[derive(Debug, Clone, PartialEq, Eq, PartialOrd, Ord)]
pub struct Epic {
    pub name: String,
    pub description: String,
    pub status: Status,
    pub stories: Vec<u32>,
}

impl View for Epic {
    type V = EpicView;

    open spec fn view(&self) -> EpicView {
        EpicView {
            name: self.name@,
            description: self.description@,
            status: self.status,
            stories: self.stories@,
        }
    }
}

impl Epic {
    /// An open epic that owns no story yet.
    pub fn new(name: String, description: String) -> (epic: Self)
        ensures
            epic@ == (EpicView {
                name: name@,
                description: description@,
                status: Status::Open,
                stories: Seq::empty(),
            }),
    {
        Self { name, description, status: Status::Open, stories: Vec::new() }
    }
}

/// A leaf work item, owned by exactly one epic.
#[derive(Debug, Clone, PartialEq, Eq, PartialOrd, Ord)]
pub struct Story {
    pub name: String,
    pub description: String,
    pub status: Status,
}

impl View for Story {
    type V = StoryView;

    open spec fn view(&self) -> StoryView {
        StoryView { name: self.name@, description: self.description@, status: self.status }
    }
}

impl Story {
    /// An open story.
    pub fn new(name: String, description: String) -> (story: Self)
        ensures
            story@ == (StoryView { name: name@, description: description@, status: Status::Open }),
    {
        Self { name, description, status: Status::Open }
    }
}

/// The value of a [`DBState`]: the id counter and both tables.
pub struct DBStateView {
    pub last_item_id: u32,
    pub epics: Map<u32, EpicView>,
    pub stories: Map<u32, StoryView>,
}

/// Everything that is persisted: the last id handed out, the epics and the
/// stories, each keyed by id.
#[derive(Debug, Clone, PartialEq, Eq)]
pub struct DBState {
    pub last_item_id: u32,
    pub epics: HashMap<u32, Epic>,
    pub stories: HashMap<u32, Story>,
}

impl View for DBState {
    type V = DBStateView;

    open spec fn view(&self) -> DBStateView {
        DBStateView {
            last_item_id: self.last_item_id,
            epics: self.epics@.map_values(|e: Epic| e@),
            stories: self.stories@.map_values(|s: Story| s@),
        }
    }
}

impl DBStateView {
    /// The state before anything was created.
    pub open spec fn empty() -> DBStateView {
        DBStateView { last_item_id: 0, epics: Map::empty(), stories: Map::empty() }
    }
}

impl DBState {
    /// The empty state: no items, and no id handed out yet.
    pub fn new() -> (state: Self)
        ensures
            state@ == DBStateView::empty(),
    {
        let state = Self { last_item_id: 0, epics: HashMap::new(), stories: HashMap::new() };
        assert(state@.epics =~= Map::empty());
        assert(state@.stories =~= Map::empty());
        state
    }
}

} // verus!
