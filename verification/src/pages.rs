//! The screens of the tracker: which items each one shows, and what a line
//! of input means on it.

use crate::models::{Action, DBState, DBStateView};
use vstd::prelude::*;

verus! {

broadcast use vstd::std_specs::hash::group_hash_axioms;

/// Whether `c` is one of the ten decimal digits.
pub open spec fn is_digit(c: char) -> bool {
    '0' <= c && c <= '9'
}

/// Whether `text` holds decimal digits only.
pub open spec fn all_digits(text: Seq<char>) -> bool {
    forall|i: int| 0 <= i < text.len() ==> is_digit(#[trigger] text[i])
}

/// The number that the decimal digits `text` write; 0 for the empty text.
pub open spec fn decimal_value(text: Seq<char>) -> int
    decreases text.len(),
{
    if text.len() == 0 {
        0
    } else {
        decimal_value(text.drop_last()) * 10 + (text.last() as int - '0' as int)
    }
}

/// `line` without a leading plus sign.
pub open spec fn unsigned_part(line: Seq<char>) -> Seq<char> {
    if line.len() > 0 && line[0] == '+' {
        line.drop_first()
    } else {
        line
    }
}

/// The id that `line` writes: one or more decimal digits, after an optional
/// plus sign, whose value is an id. Anything else writes none.
pub open spec fn spec_parse_id(line: Seq<char>) -> Option<u32> {
    let digits = unsigned_part(line);
    if digits.len() > 0 && all_digits(digits) && decimal_value(digits) <= u32::MAX {
        Some(decimal_value(digits) as u32)
    } else {
        None
    }
}

/// More digits never write a smaller number.
proof fn lemma_decimal_value_grows(text: Seq<char>, k: int)
    requires
        all_digits(text),
        0 <= k <= text.len(),
    ensures
        0 <= decimal_value(text.subrange(0, k)) <= decimal_value(text),
    decreases text.len() - k,
{
    if k == text.len() {
        assert(text.subrange(0, k) =~= text);
        lemma_decimal_value_nonnegative(text);
    } else {
        lemma_decimal_value_grows(text, k + 1);
        let longer = text.subrange(0, k + 1);
        assert(longer.drop_last() =~= text.subrange(0, k));
    }
}

/// Digits write a number that is not negative.
proof fn lemma_decimal_value_nonnegative(text: Seq<char>)
    requires
        all_digits(text),
    ensures
        0 <= decimal_value(text),
    decreases text.len(),
{
    if text.len() > 0 {
        lemma_decimal_value_nonnegative(text.drop_last());
    }
}

/// Reads `line` as an id.
pub fn parse_id(line: &str) -> (id: Option<u32>)
    ensures
        id == spec_parse_id(line@),
{
    let mut value: u32 = 0;
    let mut signed = false;
    let mut any = false;
    let ghost mut start: int = 0;
    for c in it: line.chars()
        invariant
            it.seq() == line@,
            0 <= start <= 1,
            signed <==> start == 1,
            signed ==> line@.len() > 0 && line@[0] == '+' && it.index() >= 1,
            !signed && it.index() > 0 ==> line@[0] != '+',
            start <= it.index() || it.index() == 0,
            any <==> it.index() > start,
            it.index() >= start ==> all_digits(line@.subrange(start, it.index() as int)),
            it.index() >= start ==> value == decimal_value(
                line@.subrange(start, it.index() as int),
            ),
            it.index() < start ==> value == 0,
    {
        let ghost k = it.index() as int;
        if !any && !signed && c == '+' {
            signed = true;
            proof {
                start = 1;
            }
        } else {
            let ghost digits = unsigned_part(line@);
            if !('0' <= c && c <= '9') {
                assert(!is_digit(digits[k - start]));
                return None;
            }
            let digit: u32 = (c as u32) - ('0' as u32);
            let ghost longer = line@.subrange(start, k + 1);
            proof {
                assert(longer.drop_last() =~= line@.subrange(start, k));
                assert(longer =~= digits.subrange(0, k + 1 - start));
            }
            if value > (u32::MAX - digit) / 10 {
                proof {
                    if all_digits(digits) {
                        lemma_decimal_value_grows(digits, k + 1 - start);
                    }
                }
                return None;
            }
            value = value * 10 + digit;
            any = true;
        }
    }
    proof {
        let digits = unsigned_part(line@);
        assert(digits =~= line@.subrange(start, line@.len() as int));
    }
    if any {
        Some(value)
    } else {
        None
    }
}

/// Whether `line` is the one-letter command `letter`.
pub fn is_command(line: &str, letter: char) -> (b: bool)
    ensures
        b == (line@ == seq![letter]),
{
    let mut count: usize = 0;
    let mut matches = true;
    for c in it: line.chars()
        invariant
            it.seq() == line@,
            count == if it.index() < 2 { it.index() as int } else { 2 },
            matches <==> (it.index() == 0 || line@[0] == letter),
    {
        if count == 0 {
            matches = c == letter;
        }
        if count < 2 {
            count += 1;
        }
    }
    proof {
        if count == 1 && matches {
            assert(line@ =~= seq![letter]);
        }
    }
    count == 1 && matches
}

/// A screen of the tracker.
#[derive(Debug, Clone, Copy, PartialEq, Eq, Structural)]
pub enum Page {
    /// The list of all epics.
    HomePage,
    /// One epic and the stories it lists.
    EpicDetail { epic_id: u32 },
    /// One story of an epic.
    StoryDetail { epic_id: u32, story_id: u32 },
}

impl Page {
    /// Whether the items that the page was opened for exist in `state`.
    pub open spec fn spec_exists_in(self, state: DBStateView) -> bool {
        match self {
            Page::HomePage => true,
            Page::EpicDetail { epic_id } => state.epics.contains_key(epic_id),
            Page::StoryDetail { epic_id, story_id } => state.epics.contains_key(epic_id)
                && state.stories.contains_key(story_id),
        }
    }

    /// What `line` asks for on this page, given the items in `state`.
    ///
    /// On the home page `q` leaves, `c` creates an epic, and the id of an
    /// existing epic opens it. On an epic's page `p` goes back, `u` updates
    /// its status, `d` deletes it, `c` creates a story under it, and the id
    /// of a story that it lists opens the story. On a story's page `p` goes
    /// back, `u` updates its status and `d` deletes it. Any other line asks
    /// for nothing.
    pub open spec fn spec_handle_input(self, line: Seq<char>, state: DBStateView) -> Option<
        Action,
    > {
        match self {
            Page::HomePage => if line == seq!['q'] {
                Some(Action::Exit)
            } else if line == seq!['c'] {
                Some(Action::CreateEpic)
            } else {
                match spec_parse_id(line) {
                    Some(epic_id) => if state.epics.contains_key(epic_id) {
                        Some(Action::NavigateToEpicDetail { epic_id })
                    } else {
                        None
                    },
                    None => None,
                }
            },
            Page::EpicDetail { epic_id } => if line == seq!['p'] {
                Some(Action::NavigateToPreviousPage)
            } else if line == seq!['u'] {
                Some(Action::UpdateEpicStatus { epic_id })
            } else if line == seq!['d'] {
                Some(Action::DeleteEpic { epic_id })
            } else if line == seq!['c'] {
                Some(Action::CreateStory { epic_id })
            } else {
                match spec_parse_id(line) {
                    Some(story_id) => if state.owns(epic_id, story_id) {
                        Some(Action::NavigateToStoryDetail { epic_id, story_id })
                    } else {
                        None
                    },
                    None => None,
                }
            },
            Page::StoryDetail { epic_id, story_id } => if line == seq!['p'] {
                Some(Action::NavigateToPreviousPage)
            } else if line == seq!['u'] {
                Some(Action::UpdateStoryStatus { story_id })
            } else if line == seq!['d'] {
                Some(Action::DeleteStory { epic_id, story_id })
            } else {
                None
            },
        }
    }

    /// Whether the items that the page was opened for still exist, so that a
    /// page left behind by a deletion can say so instead of showing them.
    pub fn exists_in(self, state: &DBState) -> (b: bool)
        ensures
            b == self.spec_exists_in(state@),
    {
        match self {
            Page::HomePage => true,
            Page::EpicDetail { epic_id } => state.epics.contains_key(&epic_id),
            Page::StoryDetail { epic_id, story_id } => state.epics.contains_key(&epic_id)
                && state.stories.contains_key(&story_id),
        }
    }

    /// Reads one line of input on this page; `None` where the line asks for
    /// nothing.
    pub fn handle_input(&self, line: &str, state: &DBState) -> (action: Option<Action>)
        ensures
            action == self.spec_handle_input(line@, state@),
    {
        match *self {
            Page::HomePage => {
                if is_command(line, 'q') {
                    Some(Action::Exit)
                } else if is_command(line, 'c') {
                    Some(Action::CreateEpic)
                } else {
                    match parse_id(line) {
                        Some(epic_id) => if state.epics.contains_key(&epic_id) {
                            Some(Action::NavigateToEpicDetail { epic_id })
                        } else {
                            None
                        },
                        None => None,
                    }
                }
            },
            Page::EpicDetail { epic_id } => {
                if is_command(line, 'p') {
                    Some(Action::NavigateToPreviousPage)
                } else if is_command(line, 'u') {
                    Some(Action::UpdateEpicStatus { epic_id })
                } else if is_command(line, 'd') {
                    Some(Action::DeleteEpic { epic_id })
                } else if is_command(line, 'c') {
                    Some(Action::CreateStory { epic_id })
                } else {
                    match parse_id(line) {
                        Some(story_id) => if lists(state, epic_id, story_id) {
                            Some(Action::NavigateToStoryDetail { epic_id, story_id })
                        } else {
                            None
                        },
                        None => None,
                    }
                }
            },
            Page::StoryDetail { epic_id, story_id } => {
                if is_command(line, 'p') {
                    Some(Action::NavigateToPreviousPage)
                } else if is_command(line, 'u') {
                    Some(Action::UpdateStoryStatus { story_id })
                } else if is_command(line, 'd') {
                    Some(Action::DeleteStory { epic_id, story_id })
                } else {
                    None
                }
            },
        }
    }
}

/// Whether epic `epic_id` exists in `state` and lists story `story_id`.
pub fn lists(state: &DBState, epic_id: u32, story_id: u32) -> (b: bool)
    ensures
        b == state@.owns(epic_id, story_id),
{
    match state.epics.get(&epic_id) {
        None => false,
        Some(epic) => {
            let mut i: usize = 0;
            while i < epic.stories.len()
                invariant
                    i <= epic.stories.len(),
                    state@.epics.contains_key(epic_id),
                    epic@ == state@.epics[epic_id],
                    forall|j: int| 0 <= j < i ==> epic.stories@[j] != story_id,
                decreases epic.stories.len() - i,
            {
                if epic.stories[i] == story_id {
                    return true;
                }
                i += 1;
            }
            false
        },
    }
}

} // verus!
