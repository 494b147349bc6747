use persway::errors::DecisionError;
use persway::events::ContainerInfo;
use persway::naming::find_focused_workspace;
use persway::naming::normalize_identity;
use persway::naming::rename_command;
use persway::naming::rename_for;
use persway::naming::ws_num;
use persway::naming::WorkspaceInfo;

fn container(app_id: Option<&str>, window_class: Option<&str>) -> ContainerInfo {
    ContainerInfo {
        id: 1,
        app_id: app_id.map(|s| s.to_string()),
        window_class: window_class.map(|s| s.to_string()),
    }
}

fn workspace(name: &str, focused: bool, focus: Vec<i64>) -> WorkspaceInfo {
    WorkspaceInfo { name: name.to_string(), focused, focus }
}

#[test]
fn ws_num_without_colon_is_whole_name() {
    assert_eq!(ws_num("myws"), "myws");
    assert_eq!(ws_num("3"), "3");
    assert_eq!(ws_num(""), "");
}

#[test]
fn ws_num_stops_at_first_colon() {
    assert_eq!(ws_num("3: firefox"), "3");
    assert_eq!(ws_num("a:b:c"), "a");
    assert_eq!(ws_num(":x"), "");
}

#[test]
fn normalize_trims_hyphens_and_lowercases() {
    assert_eq!(normalize_identity("--FiReFox-"), "firefox");
    assert_eq!(normalize_identity("Firefox"), "firefox");
    assert_eq!(normalize_identity("a-b"), "a-b");
}

#[test]
fn normalize_all_hyphens_is_empty() {
    assert_eq!(normalize_identity("---"), "");
    assert_eq!(normalize_identity(""), "");
}

#[test]
fn focus_event_renames_with_identity() {
    let ws = workspace("3", true, vec![10]);
    let c = container(Some("Firefox"), None);
    let cmd = rename_command(&ws, &c);
    assert_eq!(cmd, Some("rename workspace to 3: firefox".to_string()));
}

#[test]
fn close_event_strips_suffix_when_workspace_empty() {
    let ws = workspace("3: firefox", true, vec![]);
    let c = container(None, None);
    let cmd = rename_command(&ws, &c);
    assert_eq!(cmd, Some("rename workspace to 3".to_string()));
}

#[test]
fn falls_back_to_window_class() {
    let ws = workspace("1", true, vec![4]);
    let c = container(None, Some("URxvt"));
    let cmd = rename_command(&ws, &c);
    assert_eq!(cmd, Some("rename workspace to 1: urxvt".to_string()));
}

#[test]
fn no_identity_means_no_command() {
    let ws = workspace("1", true, vec![4]);
    let c = container(None, None);
    assert_eq!(rename_command(&ws, &c), None);
}

#[test]
fn rename_is_idempotent_on_a_focus_event() {
    let c = container(Some("--FiReFox-"), None);
    let first = rename_command(&workspace("3", true, vec![10]), &c).unwrap();
    let new_name = first.strip_prefix("rename workspace to ").unwrap();
    assert_eq!(new_name, "3: firefox");
    let second = rename_command(&workspace(new_name, true, vec![10]), &c).unwrap();
    assert_eq!(first, second);
}

#[test]
fn rename_is_idempotent_on_an_emptied_workspace() {
    let c = container(None, None);
    let first = rename_command(&workspace("3: firefox", true, vec![]), &c).unwrap();
    let new_name = first.strip_prefix("rename workspace to ").unwrap();
    assert_eq!(new_name, "3");
    let second = rename_command(&workspace(new_name, true, vec![]), &c).unwrap();
    assert_eq!(first, second);
}

#[test]
fn finds_first_focused_workspace() {
    let wss = vec![
        workspace("1", false, vec![]),
        workspace("2", true, vec![7]),
        workspace("3", true, vec![9]),
    ];
    let found = find_focused_workspace(&wss).unwrap();
    assert_eq!(found.name, "2");
}

#[test]
fn errs_when_no_workspace_is_focused() {
    let wss = vec![workspace("1", false, vec![]), workspace("2", false, vec![])];
    let err = find_focused_workspace(&wss).unwrap_err();
    assert_eq!(err, DecisionError::NoFocusedWorkspace);
    assert_eq!(err.message(), "No focused workspace");
}

#[test]
fn rename_for_uses_the_focused_workspace() {
    let wss = vec![
        workspace("9: stale", false, vec![3]),
        workspace("3", true, vec![10]),
    ];
    let c = container(Some("Firefox"), None);
    let r = rename_for(&wss, &c);
    assert_eq!(r, Ok(Some("rename workspace to 3: firefox".to_string())));
}

#[test]
fn rename_for_errs_without_focused_workspace() {
    let wss = vec![workspace("1", false, vec![])];
    let c = container(Some("Firefox"), None);
    assert_eq!(rename_for(&wss, &c), Err(DecisionError::NoFocusedWorkspace));
}
