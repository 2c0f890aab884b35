use modal_input::options::{ConfirmCfg, InputCfg, PickCfg};
use modal_input::position::Origin;

#[test]
fn cd_input() {
    let cfg = InputCfg::cd();
    assert_eq!(cfg.title, "Change directory:");
    assert_eq!(cfg.value, "");
    assert_eq!(cfg.cursor, None);
    assert!(cfg.completion);
    assert!(!cfg.realtime);
    assert!(!cfg.highlight);
    assert_eq!(cfg.position.origin, Origin::TopCenter);
}

#[test]
fn create_input_titles() {
    assert_eq!(InputCfg::create(false).title, "Create:");
    assert_eq!(InputCfg::create(true).title, "Create (dir):");
}

#[test]
fn rename_input() {
    let cfg = InputCfg::rename();
    assert_eq!(cfg.title, "Rename:");
    assert_eq!(cfg.position.origin, Origin::Hovered);
}

#[test]
fn filter_and_find_are_realtime() {
    assert!(InputCfg::filter().realtime);
    assert_eq!(InputCfg::filter().title, "Filter:");
    assert!(InputCfg::find(false).realtime);
    assert_eq!(InputCfg::find(false).title, "Find next:");
    assert_eq!(InputCfg::find(true).title, "Find previous:");
}

#[test]
fn search_title_names_the_provider() {
    assert_eq!(InputCfg::search("fd").title, "Search via fd:");
    assert_eq!(InputCfg::search("rg").title, "Search via rg:");
}

#[test]
fn shell_input_titles_and_highlight() {
    assert_eq!(InputCfg::shell(false).title, "Shell:");
    assert_eq!(InputCfg::shell(true).title, "Shell (block):");
    assert!(InputCfg::shell(true).highlight);
}

#[test]
fn with_value_and_cursor() {
    let cfg = InputCfg::cd().with_value("x/y".to_string()).with_cursor(Some(2));
    assert_eq!(cfg.value, "x/y");
    assert_eq!(cfg.cursor, Some(2));
    assert_eq!(cfg.title, "Change directory:");
}

#[test]
fn pick_height_grows_with_items_up_to_a_cap() {
    let cfg = PickCfg::open(vec!["a".to_string(), "b".to_string(), "c".to_string()]);
    assert_eq!(cfg.title, "Pick:");
    assert_eq!(cfg.items.len(), 3);
    assert_eq!(cfg.position.offset.height, 5);
    let many: Vec<String> = (0..40).map(|i| i.to_string()).collect();
    assert_eq!(PickCfg::open(many).position.offset.height, 15);
    assert_eq!(PickCfg::open(Vec::new()).position.offset.height, 2);
}

#[test]
fn trash_title_counts_and_pluralises() {
    let one = vec!["a.txt".to_string()];
    let cfg = ConfirmCfg::trash(&one);
    assert_eq!(cfg.title, "Trash 1 selected file?");
    assert_eq!(cfg.content, None);
    assert_eq!(cfg.list, vec!["a.txt".to_string()]);

    let two = vec!["a.txt".to_string(), "b.txt".to_string()];
    let cfg = ConfirmCfg::trash(&two);
    assert_eq!(cfg.title, "Trash 2 selected files?");
    assert_eq!(cfg.list, two);
}

#[test]
fn delete_title() {
    let urls = vec!["x".to_string(), "y".to_string(), "z".to_string()];
    let cfg = ConfirmCfg::delete(&urls);
    assert_eq!(cfg.title, "Permanently delete 3 selected files?");
    assert_eq!(cfg.list, urls);
}

#[test]
fn long_lists_are_truncated() {
    let urls: Vec<String> = (0..105).map(|i| format!("file-{i}")).collect();
    let cfg = ConfirmCfg::trash(&urls);
    assert_eq!(cfg.list.len(), 101);
    assert_eq!(cfg.list[0], "file-0");
    assert_eq!(cfg.list[99], "file-99");
    assert_eq!(cfg.list[100], "... and 5 more");
}

#[test]
fn overwrite_names_the_target() {
    let cfg = ConfirmCfg::overwrite("/tmp/out.txt");
    assert_eq!(cfg.title, "Overwrite an existing file?");
    assert_eq!(cfg.content, Some("Will overwrite the following file:".to_string()));
    assert_eq!(cfg.list, vec!["/tmp/out.txt".to_string()]);
}

#[test]
fn quit_lists_up_to_ten_tasks() {
    let names: Vec<String> = (0..12).map(|i| format!("task-{i}")).collect();
    let cfg = ConfirmCfg::quit(12, names);
    assert_eq!(cfg.title, "There are 12 tasks running, sure to quit?");
    assert_eq!(cfg.content, Some("The following tasks are still running:".to_string()));
    assert_eq!(cfg.list.len(), 11);
    assert_eq!(cfg.list[9], "task-9");
    assert_eq!(cfg.list[10], "... and 2 more");

    let cfg = ConfirmCfg::quit(1, vec!["task-0".to_string()]);
    assert_eq!(cfg.title, "There are 1 task running, sure to quit?");
    assert_eq!(cfg.list, vec!["task-0".to_string()]);
}

#[test]
fn quit_with_no_tasks() {
    let cfg = ConfirmCfg::quit(0, Vec::new());
    assert_eq!(cfg.title, "There are 0 task running, sure to quit?");
    assert!(cfg.list.is_empty());
}
