use photo_order::plan::base_name_of;
use photo_order::plan::dir_ready;
use photo_order::plan::file_hendler;
use photo_order::plan::join_path;
use photo_order::plan::DirCreation;
use photo_order::plan::FileAction;
use photo_order::scan::collect_records;
use photo_order::scan::EntryInfo;
use photo_order::scan::ListItem;
use photo_order::session::input_event;
use photo_order::session::PromptAction;
use photo_order::session::PromptEvent;
use photo_order::session::PromptSession;
use photo_order::text::remove_quotes;

fn entry(path: &str, is_file: bool, created: Option<i64>) -> EntryInfo {
    EntryInfo { path: path.to_string(), is_file, created }
}

fn moved(a: &FileAction) -> Option<(&str, &str, &str)> {
    match a {
        FileAction::Move { source, folder, destination } => {
            Some((source.as_str(), folder.as_str(), destination.as_str()))
        }
        _ => None,
    }
}

#[test]
fn list_item_keeps_its_fields() {
    let item = ListItem::new(42, "/a/b.png".to_string());
    assert_eq!(item.metadata, 42);
    assert_eq!(item.file_path, "/a/b.png");
}

#[test]
fn base_name_is_the_last_part() {
    assert_eq!(base_name_of("/src/photo.jpg"), "photo.jpg");
    assert_eq!(base_name_of("photo.jpg"), "photo.jpg");
    assert_eq!(base_name_of("/src/dir/"), "");
    assert_eq!(base_name_of(""), "");
}

#[test]
fn join_puts_a_slash_between() {
    assert_eq!(join_path("/src", "2024.01.05"), "/src/2024.01.05");
    assert_eq!(join_path("", "x"), "/x");
}

#[test]
fn photo_moves_and_notes_stay() {
    let files = vec![
        ListItem::new(1704412800, "/src/photo.jpg".to_string()),
        ListItem::new(1704412800, "/src/notes.txt".to_string()),
    ];
    let actions = file_hendler(files, "/src");
    assert_eq!(actions.len(), 2);
    assert_eq!(
        moved(&actions[0]),
        Some(("/src/photo.jpg", "/src/2024.01.05", "/src/2024.01.05/photo.jpg"))
    );
    assert!(matches!(actions[1], FileAction::Leave));
}

#[test]
fn file_without_date_stays() {
    let actions = file_hendler(vec![ListItem::new(i64::MAX, "/src/a.png".to_string())], "/src");
    match &actions[0] {
        FileAction::NoDate { source } => assert_eq!(source, "/src/a.png"),
        other => panic!("unexpected action {:?}", other),
    }
}

#[test]
fn empty_list_gives_no_actions() {
    assert!(file_hendler(vec![], "/src").is_empty());
}

#[test]
fn unreadable_creation_time_is_reported_not_kept() {
    let entries = vec![
        entry("/src/a.jpg", true, None),
        entry("/src/sub", false, Some(5)),
        entry("/src/b.jpg", true, Some(1700000000)),
    ];
    let out = collect_records(&entries);
    assert_eq!(out.records.len(), 1);
    assert_eq!(out.records[0].metadata, 1700000000);
    assert_eq!(out.records[0].file_path, "/src/b.jpg");
    assert_eq!(out.unreadable, vec!["/src/a.jpg".to_string()]);
    let actions = file_hendler(out.records, "/src");
    assert_eq!(actions.len(), 1);
    assert_eq!(
        moved(&actions[0]),
        Some(("/src/b.jpg", "/src/2023.11.14", "/src/2023.11.14/b.jpg"))
    );
}

#[test]
fn failed_folder_skips_only_its_file() {
    let files = vec![
        ListItem::new(1704412800, "/src/a.jpg".to_string()),
        ListItem::new(1700000000, "/src/b.pdf".to_string()),
        ListItem::new(1704412800, "/src/c.png".to_string()),
    ];
    let actions = file_hendler(files, "/src");
    let outcomes = [DirCreation::Created, DirCreation::Failed, DirCreation::AlreadyExists];
    let mut moved_files = Vec::new();
    for (a, o) in actions.iter().zip(outcomes.iter()) {
        let (source, _, _) = moved(a).unwrap();
        if dir_ready(*o) {
            moved_files.push(source.to_string());
        }
    }
    assert_eq!(moved_files, vec!["/src/a.jpg".to_string(), "/src/c.png".to_string()]);
}

#[test]
fn existing_folder_counts_as_ready() {
    assert!(dir_ready(DirCreation::Created));
    assert!(dir_ready(DirCreation::AlreadyExists));
    assert!(!dir_ready(DirCreation::Failed));
}

#[test]
fn two_empty_inputs_say_goodbye() {
    let mut s = PromptSession::new();
    assert_eq!(s.step(input_event(&remove_quotes("\n"))), PromptAction::Prompt);
    assert!(!s.is_finished());
    assert_eq!(s.step(input_event(&remove_quotes("  \n"))), PromptAction::Farewell);
    assert!(s.is_finished());
    assert_eq!(s.step(PromptEvent::PathGiven), PromptAction::Done);
}

#[test]
fn failed_scan_then_empty_input_say_goodbye() {
    let mut s = PromptSession::new();
    assert_eq!(s.step(PromptEvent::PathGiven), PromptAction::Scan);
    assert_eq!(s.step(PromptEvent::ScanFailed), PromptAction::Prompt);
    assert_eq!(s.step(PromptEvent::EmptyInput), PromptAction::Farewell);
}

#[test]
fn successful_scan_ends_the_session() {
    let mut s = PromptSession::new();
    assert_eq!(s.step(PromptEvent::EmptyInput), PromptAction::Prompt);
    assert_eq!(s.step(input_event("/src")), PromptAction::Scan);
    assert_eq!(s.step(PromptEvent::ScanSucceeded), PromptAction::ProcessFiles);
    assert!(s.is_finished());
    assert_eq!(s.step(PromptEvent::EmptyInput), PromptAction::Done);
}
