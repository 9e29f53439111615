use issue_tracker::db::{JiraDatabase, MockDB};
use issue_tracker::models::{Action, Epic, Status, Story};
use issue_tracker::navigator::Navigator;
use issue_tracker::pages::Page;
use issue_tracker::prompts::{Confirmation, EpicAnswer, Prompt, Prompts, Selection, StoryAnswer};
use issue_tracker::transitions::StoreError;

/// A prompt that answers by calling a closure.
struct Ask<F>(F);

impl<T, F: Fn() -> T> Prompt<T> for Ask<F> {
    // Only contracts speak of the answers a prompt can give; nothing calls this.
    fn can_answer(&self, _answer: T) -> bool {
        unreachable!()
    }

    fn ask(&self) -> T {
        (self.0)()
    }
}

fn empty_store() -> JiraDatabase {
    JiraDatabase { database: Box::new(MockDB::new()) }
}

#[test]
fn should_start_on_home_page() {
    let db = JiraDatabase { database: Box::new(MockDB::new()) };
    let nav = Navigator::new(db);

    assert_eq!(nav.get_page_count(), 1);

    let current_page = nav.get_current_page().unwrap();
    let home_page = matches!(current_page, Page::HomePage);

    assert_eq!(home_page, true);
}

#[test]
fn handle_action_should_navigate_pages() {
    let db = JiraDatabase { database: Box::new(MockDB::new()) };

    let mut nav = Navigator::new(db);

    nav.handle_action(Action::NavigateToEpicDetail { epic_id: 1 }).unwrap();
    assert_eq!(nav.get_page_count(), 2);

    let current_page = nav.get_current_page().unwrap();
    let epic_detail_page = matches!(current_page, Page::EpicDetail { .. });
    assert_eq!(epic_detail_page, true);

    nav.handle_action(Action::NavigateToStoryDetail { epic_id: 1, story_id: 2 }).unwrap();
    assert_eq!(nav.get_page_count(), 3);

    let current_page = nav.get_current_page().unwrap();
    let story_detail_page = matches!(current_page, Page::StoryDetail { .. });
    assert_eq!(story_detail_page, true);

    nav.handle_action(Action::NavigateToPreviousPage).unwrap();
    assert_eq!(nav.get_page_count(), 2);

    let current_page = nav.get_current_page().unwrap();
    let epic_detail_page = matches!(current_page, Page::EpicDetail { .. });
    assert_eq!(epic_detail_page, true);

    nav.handle_action(Action::NavigateToPreviousPage).unwrap();
    assert_eq!(nav.get_page_count(), 1);

    let current_page = nav.get_current_page().unwrap();
    let home_page = matches!(current_page, Page::HomePage);
    assert_eq!(home_page, true);

    nav.handle_action(Action::NavigateToPreviousPage).unwrap();
    assert_eq!(nav.get_page_count(), 0);

    nav.handle_action(Action::NavigateToPreviousPage).unwrap();
    assert_eq!(nav.get_page_count(), 0);
}

#[test]
fn handle_action_should_clear_pages_on_exit() {
    let db = JiraDatabase { database: Box::new(MockDB::new()) };

    let mut nav = Navigator::new(db);

    nav.handle_action(Action::NavigateToEpicDetail { epic_id: 1 }).unwrap();
    nav.handle_action(Action::NavigateToStoryDetail { epic_id: 1, story_id: 2 }).unwrap();
    nav.handle_action(Action::Exit).unwrap();

    assert_eq!(nav.get_page_count(), 0);
}

#[test]
fn handle_action_should_handle_create_epic() {
    let db = JiraDatabase { database: Box::new(MockDB::new()) };

    let mut nav = Navigator::new(db);

    let mut prompts = Prompts::new();
    prompts.create_epic =
        Box::new(Ask(|| Epic::new("name".to_owned(), "description".to_owned())));

    nav.set_prompts(prompts);

    nav.handle_action(Action::CreateEpic).unwrap();

    let db_state = nav.db().read_db().unwrap();
    assert_eq!(db_state.epics.len(), 1);

    let epic = db_state.epics.into_iter().next().unwrap().1;
    assert_eq!(epic.name, "name".to_owned());
    assert_eq!(epic.description, "description".to_owned());
}

#[test]
fn handle_action_should_handle_update_epic() {
    let mut db = JiraDatabase { database: Box::new(MockDB::new()) };
    let epic_id = db.create_epic(Epic::new("".to_owned(), "".to_owned())).unwrap();

    let mut nav = Navigator::new(db);

    let mut prompts = Prompts::new();
    prompts.update_status = Box::new(Ask(|| Some(Status::InProgress)));

    nav.set_prompts(prompts);

    nav.handle_action(Action::UpdateEpicStatus { epic_id }).unwrap();

    let db_state = nav.db().read_db().unwrap();
    assert_eq!(db_state.epics.get(&epic_id).unwrap().status, Status::InProgress);
}

#[test]
fn handle_action_should_handle_delete_epic() {
    let mut db = JiraDatabase { database: Box::new(MockDB::new()) };
    let epic_id = db.create_epic(Epic::new("".to_owned(), "".to_owned())).unwrap();

    let mut nav = Navigator::new(db);

    let mut prompts = Prompts::new();
    prompts.delete_epic = Box::new(Ask(|| true));

    nav.set_prompts(prompts);

    nav.handle_action(Action::DeleteEpic { epic_id }).unwrap();

    let db_state = nav.db().read_db().unwrap();
    assert_eq!(db_state.epics.len(), 0);
}

#[test]
fn handle_action_should_handle_create_story() {
    let mut db = JiraDatabase { database: Box::new(MockDB::new()) };
    let epic_id = db.create_epic(Epic::new("".to_owned(), "".to_owned())).unwrap();

    let mut nav = Navigator::new(db);

    let mut prompts = Prompts::new();
    prompts.create_story =
        Box::new(Ask(|| Story::new("name".to_owned(), "description".to_owned())));

    nav.set_prompts(prompts);

    nav.handle_action(Action::CreateStory { epic_id }).unwrap();

    let db_state = nav.db().read_db().unwrap();
    assert_eq!(db_state.stories.len(), 1);

    let story = db_state.stories.into_iter().next().unwrap().1;
    assert_eq!(story.name, "name".to_owned());
    assert_eq!(story.description, "description".to_owned());
}

#[test]
fn handle_action_should_handle_update_story() {
    let mut db = JiraDatabase { database: Box::new(MockDB::new()) };
    let epic_id = db.create_epic(Epic::new("".to_owned(), "".to_owned())).unwrap();
    let story_id = db.create_story(Story::new("".to_owned(), "".to_owned()), epic_id).unwrap();

    let mut nav = Navigator::new(db);

    let mut prompts = Prompts::new();
    prompts.update_status = Box::new(Ask(|| Some(Status::InProgress)));

    nav.set_prompts(prompts);

    nav.handle_action(Action::UpdateStoryStatus { story_id }).unwrap();

    let db_state = nav.db().read_db().unwrap();
    assert_eq!(db_state.stories.get(&story_id).unwrap().status, Status::InProgress);
}

#[test]
fn handle_action_should_handle_delete_story() {
    let mut db = JiraDatabase { database: Box::new(MockDB::new()) };
    let epic_id = db.create_epic(Epic::new("".to_owned(), "".to_owned())).unwrap();
    let story_id = db.create_story(Story::new("".to_owned(), "".to_owned()), epic_id).unwrap();

    let mut nav = Navigator::new(db);

    let mut prompts = Prompts::new();
    prompts.delete_story = Box::new(Ask(|| true));

    nav.set_prompts(prompts);

    nav.handle_action(Action::DeleteStory { epic_id, story_id }).unwrap();

    let db_state = nav.db().read_db().unwrap();
    assert_eq!(db_state.stories.len(), 0);
}

#[test]
fn detail_pages_carry_the_ids_they_were_opened_with() {
    let mut nav = Navigator::new(empty_store());

    nav.handle_action(Action::NavigateToEpicDetail { epic_id: 7 }).unwrap();
    assert_eq!(nav.get_current_page(), Some(&Page::EpicDetail { epic_id: 7 }));

    nav.handle_action(Action::NavigateToStoryDetail { epic_id: 7, story_id: 9 }).unwrap();
    assert_eq!(nav.get_current_page(), Some(&Page::StoryDetail { epic_id: 7, story_id: 9 }));
}

#[test]
fn opening_two_pages_and_going_back_twice_returns_to_home_alone() {
    let mut nav = Navigator::new(empty_store());

    nav.handle_action(Action::NavigateToEpicDetail { epic_id: 1 }).unwrap();
    nav.handle_action(Action::NavigateToStoryDetail { epic_id: 1, story_id: 2 }).unwrap();
    nav.handle_action(Action::NavigateToPreviousPage).unwrap();
    nav.handle_action(Action::NavigateToPreviousPage).unwrap();

    assert_eq!(nav.get_page_count(), 1);
    assert_eq!(nav.get_current_page(), Some(&Page::HomePage));
}

#[test]
fn going_back_on_an_empty_stack_changes_nothing() {
    let mut nav = Navigator::new(empty_store());

    nav.handle_action(Action::Exit).unwrap();
    assert_eq!(nav.get_page_count(), 0);
    assert_eq!(nav.get_current_page(), None);

    assert_eq!(nav.handle_action(Action::NavigateToPreviousPage), Ok(()));
    assert_eq!(nav.get_page_count(), 0);
    assert_eq!(nav.get_current_page(), None);
}

#[test]
fn exit_clears_the_stack_at_every_depth() {
    let mut nav = Navigator::new(empty_store());
    nav.handle_action(Action::Exit).unwrap();
    assert_eq!(nav.get_page_count(), 0);

    nav.handle_action(Action::Exit).unwrap();
    assert_eq!(nav.get_page_count(), 0);

    let mut nav = Navigator::new(empty_store());
    for epic_id in 1..=5 {
        nav.handle_action(Action::NavigateToEpicDetail { epic_id }).unwrap();
    }
    assert_eq!(nav.get_page_count(), 6);
    nav.handle_action(Action::Exit).unwrap();
    assert_eq!(nav.get_page_count(), 0);
}

#[test]
fn navigation_leaves_the_store_alone() {
    let mut db = empty_store();
    let epic_id = db.create_epic(Epic::new("A".to_owned(), "".to_owned())).unwrap();
    let before = db.read_db().unwrap();

    let mut nav = Navigator::new(db);
    nav.handle_action(Action::NavigateToEpicDetail { epic_id }).unwrap();
    nav.handle_action(Action::NavigateToPreviousPage).unwrap();
    nav.handle_action(Action::Exit).unwrap();

    assert_eq!(nav.db().read_db().unwrap(), before);
}

#[test]
fn cancelled_status_update_changes_nothing_and_is_no_error() {
    let mut db = empty_store();
    let epic_id = db.create_epic(Epic::new("A".to_owned(), "".to_owned())).unwrap();
    let story_id = db.create_story(Story::new("B".to_owned(), "".to_owned()), epic_id).unwrap();
    db.update_epic_status(epic_id, Status::Resolved).unwrap();
    db.update_story_status(story_id, Status::Closed).unwrap();
    let before = db.read_db().unwrap();

    let mut nav = Navigator::new(db);
    let mut prompts = Prompts::new();
    prompts.update_status = Box::new(Selection(None));
    nav.set_prompts(prompts);

    assert_eq!(nav.handle_action(Action::UpdateEpicStatus { epic_id }), Ok(()));
    assert_eq!(nav.handle_action(Action::UpdateStoryStatus { story_id }), Ok(()));

    let after = nav.db().read_db().unwrap();
    assert_eq!(after.epics.get(&epic_id).unwrap().status, Status::Resolved);
    assert_eq!(after.stories.get(&story_id).unwrap().status, Status::Closed);
    assert_eq!(after, before);
    assert_eq!(nav.get_page_count(), 1);
}

#[test]
fn cancelled_status_update_of_a_missing_item_is_no_error() {
    let mut nav = Navigator::new(empty_store());

    assert_eq!(nav.handle_action(Action::UpdateEpicStatus { epic_id: 5 }), Ok(()));
    assert_eq!(nav.handle_action(Action::UpdateStoryStatus { story_id: 5 }), Ok(()));
}

#[test]
fn declined_deletion_changes_nothing() {
    let mut db = empty_store();
    let epic_id = db.create_epic(Epic::new("A".to_owned(), "".to_owned())).unwrap();
    let story_id = db.create_story(Story::new("B".to_owned(), "".to_owned()), epic_id).unwrap();
    let before = db.read_db().unwrap();

    let mut nav = Navigator::new(db);
    let mut prompts = Prompts::new();
    prompts.delete_epic = Box::new(Confirmation(false));
    prompts.delete_story = Box::new(Confirmation(false));
    nav.set_prompts(prompts);

    assert_eq!(nav.handle_action(Action::DeleteStory { epic_id, story_id }), Ok(()));
    assert_eq!(nav.handle_action(Action::DeleteEpic { epic_id }), Ok(()));

    let after = nav.db().read_db().unwrap();
    assert_eq!(after, before);
    assert_eq!(after.epics.get(&epic_id).unwrap().stories, vec![story_id]);
    assert_eq!(after.stories.len(), 1);
}

#[test]
fn confirmed_deletion_of_an_epic_takes_its_stories() {
    let mut db = empty_store();
    let kept = db.create_epic(Epic::new("kept".to_owned(), "".to_owned())).unwrap();
    let gone = db.create_epic(Epic::new("gone".to_owned(), "".to_owned())).unwrap();
    let kept_story = db.create_story(Story::new("k".to_owned(), "".to_owned()), kept).unwrap();
    db.create_story(Story::new("g1".to_owned(), "".to_owned()), gone).unwrap();
    db.create_story(Story::new("g2".to_owned(), "".to_owned()), gone).unwrap();

    let mut nav = Navigator::new(db);
    let mut prompts = Prompts::new();
    prompts.delete_epic = Box::new(Confirmation(true));
    nav.set_prompts(prompts);
    nav.handle_action(Action::DeleteEpic { epic_id: gone }).unwrap();

    let state = nav.db().read_db().unwrap();
    assert_eq!(state.epics.len(), 1);
    assert!(state.epics.contains_key(&kept));
    assert_eq!(state.stories.len(), 1);
    assert!(state.stories.contains_key(&kept_story));
}

#[test]
fn default_prompts_select_and_confirm_nothing() {
    let mut db = empty_store();
    let epic_id = db.create_epic(Epic::new("A".to_owned(), "".to_owned())).unwrap();
    let story_id = db.create_story(Story::new("B".to_owned(), "".to_owned()), epic_id).unwrap();
    let before = db.read_db().unwrap();

    let mut nav = Navigator::new(db);
    nav.handle_action(Action::UpdateEpicStatus { epic_id }).unwrap();
    nav.handle_action(Action::UpdateStoryStatus { story_id }).unwrap();
    nav.handle_action(Action::DeleteStory { epic_id, story_id }).unwrap();
    nav.handle_action(Action::DeleteEpic { epic_id }).unwrap();

    assert_eq!(nav.db().read_db().unwrap(), before);
}

#[test]
fn store_errors_surface_unchanged_and_leave_the_stack_alone() {
    let mut nav = Navigator::new(empty_store());
    let mut prompts = Prompts::new();
    prompts.update_status = Box::new(Selection(Some(Status::Closed)));
    prompts.delete_epic = Box::new(Confirmation(true));
    prompts.delete_story = Box::new(Confirmation(true));
    prompts.create_story =
        Box::new(StoryAnswer { name: "s".to_owned(), description: "d".to_owned() });
    nav.set_prompts(prompts);
    nav.handle_action(Action::NavigateToEpicDetail { epic_id: 3 }).unwrap();

    assert_eq!(
        nav.handle_action(Action::UpdateEpicStatus { epic_id: 3 }),
        Err(StoreError::EpicNotFound)
    );
    assert_eq!(
        nav.handle_action(Action::UpdateStoryStatus { story_id: 4 }),
        Err(StoreError::StoryNotFound)
    );
    assert_eq!(nav.handle_action(Action::DeleteEpic { epic_id: 3 }), Err(StoreError::EpicNotFound));
    assert_eq!(
        nav.handle_action(Action::DeleteStory { epic_id: 3, story_id: 4 }),
        Err(StoreError::EpicNotFound)
    );
    assert_eq!(
        nav.handle_action(Action::CreateStory { epic_id: 3 }),
        Err(StoreError::EpicNotFound)
    );

    assert_eq!(nav.get_page_count(), 2);
    let state = nav.db().read_db().unwrap();
    assert_eq!(state.last_item_id, 0);
    assert_eq!(state.epics.len(), 0);
    assert_eq!(state.stories.len(), 0);
}

#[test]
fn answer_prompts_create_open_items() {
    let mut nav = Navigator::new(empty_store());
    let mut prompts = Prompts::new();
    prompts.create_epic =
        Box::new(EpicAnswer { name: "epic".to_owned(), description: "about".to_owned() });
    prompts.create_story =
        Box::new(StoryAnswer { name: "story".to_owned(), description: "more".to_owned() });
    nav.set_prompts(prompts);

    nav.handle_action(Action::CreateEpic).unwrap();
    nav.handle_action(Action::CreateStory { epic_id: 1 }).unwrap();

    let state = nav.db().read_db().unwrap();
    assert_eq!(state.last_item_id, 2);
    let epic = state.epics.get(&1).unwrap();
    assert_eq!(epic.name, "epic");
    assert_eq!(epic.description, "about");
    assert_eq!(epic.status, Status::Open);
    assert_eq!(epic.stories, vec![2]);
    let story = state.stories.get(&2).unwrap();
    assert_eq!(story.name, "story");
    assert_eq!(story.description, "more");
    assert_eq!(story.status, Status::Open);
}

#[test]
fn replaced_prompts_are_the_ones_that_are_asked() {
    let mut db = empty_store();
    let epic_id = db.create_epic(Epic::new("A".to_owned(), "".to_owned())).unwrap();
    let mut nav = Navigator::new(db);

    // The prompts a navigator starts with select nothing.
    nav.handle_action(Action::UpdateEpicStatus { epic_id }).unwrap();
    assert_eq!(nav.db().read_db().unwrap().epics[&epic_id].status, Status::Open);

    let mut prompts = Prompts::new();
    prompts.update_status = Box::new(Selection(Some(Status::Resolved)));
    nav.set_prompts(prompts);
    nav.handle_action(Action::UpdateEpicStatus { epic_id }).unwrap();
    assert_eq!(nav.db().read_db().unwrap().epics[&epic_id].status, Status::Resolved);
    assert_eq!(nav.get_page_count(), 1);

    // Replacing them again replaces all of them.
    nav.set_prompts(Prompts::new());
    nav.handle_action(Action::UpdateEpicStatus { epic_id }).unwrap();
    assert_eq!(nav.db().read_db().unwrap().epics[&epic_id].status, Status::Resolved);
}

#[test]
fn default_prompts_create_unnamed_open_items() {
    let mut nav = Navigator::new(empty_store());
    nav.handle_action(Action::CreateEpic).unwrap();
    nav.handle_action(Action::CreateStory { epic_id: 1 }).unwrap();

    let state = nav.db().read_db().unwrap();
    let epic = state.epics.get(&1).unwrap();
    assert_eq!(epic.name, "");
    assert_eq!(epic.description, "");
    assert_eq!(epic.status, Status::Open);
    assert_eq!(epic.stories, vec![2]);
    let story = state.stories.get(&2).unwrap();
    assert_eq!(story.name, "");
    assert_eq!(story.description, "");
    assert_eq!(story.status, Status::Open);
}

#[test]
fn fixed_prompts_give_their_answer() {
    assert_eq!(Confirmation(true).ask(), true);
    assert_eq!(Confirmation(false).ask(), false);
    assert_eq!(Selection(None).ask(), None);
    assert_eq!(Selection(Some(Status::Closed)).ask(), Some(Status::Closed));
    let epic = EpicAnswer { name: "n".to_owned(), description: "d".to_owned() }.ask();
    assert_eq!(epic, Epic::new("n".to_owned(), "d".to_owned()));
    let story = StoryAnswer { name: "n".to_owned(), description: "d".to_owned() }.ask();
    assert_eq!(story, Story::new("n".to_owned(), "d".to_owned()));
}
