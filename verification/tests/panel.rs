use project_diff::icon_story::{IconStory, StoryNode, ICON_ROW_GAP};
use project_diff::project_diff::{
    DeployAction, DiffBuffer, DiffHunk, LabelColor, ProjectDiff, ViewRole,
};
use project_diff::project_path::BufferId;

#[test]
fn deploy_activates_an_existing_panel() {
    match ProjectDiff::deploy(Some("panel")) {
        DeployAction::ActivateExisting { item, activate_pane, focus_item } => {
            assert_eq!(item, "panel");
            assert!(activate_pane);
            assert!(focus_item);
        }
        DeployAction::AddToActivePane { .. } => panic!("an existing panel must be activated"),
    }
}

#[test]
fn deploy_adds_a_panel_where_there_is_none() {
    match ProjectDiff::deploy::<u8>(None) {
        DeployAction::AddToActivePane { destination_index, focus_item } => {
            assert_eq!(destination_index, None);
            assert!(focus_item);
        }
        DeployAction::ActivateExisting { .. } => panic!("there is no panel to activate"),
    }
}

#[test]
fn the_tab_is_muted_unless_selected() {
    let selected = ProjectDiff::tab_content(true);
    assert_eq!(selected.text, "No changes");
    assert_eq!(selected.color, LabelColor::Default);
    let other = ProjectDiff::tab_content(false);
    assert_eq!(other.text, "No changes");
    assert_eq!(other.color, LabelColor::Muted);
}

#[test]
fn the_panel_answers_for_itself_and_for_its_editor() {
    assert_eq!(ProjectDiff::act_as_type(true, false), Some(ViewRole::Panel));
    assert_eq!(ProjectDiff::act_as_type(false, true), Some(ViewRole::Editor));
    assert_eq!(ProjectDiff::act_as_type(true, true), Some(ViewRole::Panel));
    assert_eq!(ProjectDiff::act_as_type(false, false), None);
}

#[test]
fn registering_a_buffer_shows_each_hunk_with_context() {
    let diff_buffer = DiffBuffer {
        buffer: BufferId(9),
        hunks: vec![
            DiffHunk { buffer_start: 3u32, buffer_end: 5u32 },
            DiffHunk { buffer_start: 40, buffer_end: 40 },
            DiffHunk { buffer_start: 7, buffer_end: 12 },
        ],
    };
    let request = ProjectDiff::register_buffer(diff_buffer, 2);
    assert_eq!(request.buffer, BufferId(9));
    assert_eq!(request.ranges, vec![(3, 5), (40, 40), (7, 12)]);
    assert_eq!(request.context_line_count, 2);
}

#[test]
fn registering_a_buffer_without_hunks_shows_nothing_of_it() {
    let diff_buffer: DiffBuffer<u32> = DiffBuffer { buffer: BufferId(1), hunks: vec![] };
    let request = ProjectDiff::register_buffer(diff_buffer, 5);
    assert_eq!(request.buffer, BufferId(1));
    assert!(request.ranges.is_empty());
    assert_eq!(request.context_line_count, 5);
}

#[test]
fn the_icon_story_shows_every_icon_in_one_row() {
    let story = IconStory.render(vec!["check", "close", "folder"]);
    assert_eq!(story.len(), 4);
    assert!(matches!(story[0], StoryNode::Title));
    assert!(matches!(story[1], StoryNode::Label("DecoratedIcon")));
    assert!(matches!(story[2], StoryNode::Label("All Icons")));
    match &story[3] {
        StoryNode::IconRow { gap, icons } => {
            assert_eq!(*gap, 3);
            assert_eq!(*gap, ICON_ROW_GAP);
            assert_eq!(icons, &vec!["check", "close", "folder"]);
        }
        _ => panic!("the last part of the story is the row of icons"),
    }
}
