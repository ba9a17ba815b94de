//! Tests of the store's query planning, the pager, paths, errors, and
//! decimal rendering.

use lia::{
    DeletionPlan, DirEntryInfo, LiaCoreError, Pager, PagerKey, Path, RootSearchStep, SearchPlan,
    UpdateCommand, UpdateField,
};

#[test]
fn search_pattern_connects_words_and_marks_prefixes() {
    assert_eq!(lia::build_search_query(""), None);
    assert_eq!(lia::build_search_query("redis"), Some(String::from("redis:*")));
    assert_eq!(lia::build_search_query("list all files"), Some(String::from(
        "list & all & files:*"
    )));
    // Every space becomes a connective, consecutive ones included.
    assert_eq!(lia::build_search_query("a  b"), Some(String::from("a &  & b:*")));
}

#[test]
fn search_plans_follow_query_and_tags() {
    match lia::plan_search("db", Some(vec![String::from("infra")])) {
        SearchPlan::TextAndTags(pattern, tags) => {
            assert_eq!(pattern, "db:*");
            assert_eq!(tags, vec![String::from("infra")]);
        },
        _ => panic!("expected text and tags"),
    }
    match lia::plan_search("db", None) {
        SearchPlan::TextOnly(pattern) => assert_eq!(pattern, "db:*"),
        _ => panic!("expected text only"),
    }
    match lia::plan_search("", Some(vec![String::from("infra")])) {
        SearchPlan::TagsOnly(tags) => assert_eq!(tags, vec![String::from("infra")]),
        _ => panic!("expected tags only"),
    }
    assert!(matches!(lia::plan_search("", None), SearchPlan::All));
}

#[test]
fn deletion_with_nothing_named_touches_nothing() {
    assert!(matches!(lia::plan_deletion(None, None), DeletionPlan::Nothing));
    match lia::plan_deletion(Some(String::from("ls")), None) {
        DeletionPlan::ByName(name) => assert_eq!(name, "ls"),
        _ => panic!("expected by-name"),
    }
    match lia::plan_deletion(Some(String::from("ls")), Some(vec![String::from("t")])) {
        DeletionPlan::ByNameAndTags(name, tags) => {
            assert_eq!(name, "ls");
            assert_eq!(tags, vec![String::from("t")]);
        },
        _ => panic!("expected by-name-and-tags"),
    }
    match lia::plan_deletion(None, Some(vec![String::from("t")])) {
        DeletionPlan::ByTags(tags) => assert_eq!(tags, vec![String::from("t")]),
        _ => panic!("expected by-tags"),
    }
}

#[test]
fn update_steps_keep_the_store_order() {
    let cmd = UpdateCommand {
        name: String::from("ls"),
        new_tags: Some(vec![String::from("t")]),
        new_description: None,
        new_command_text: Some(String::from("ls -la")),
    };
    let steps = lia::update_steps(cmd);
    assert_eq!(steps.len(), 2);
    assert!(matches!(&steps[0], UpdateField::Tags(t) if t == &vec![String::from("t")]));
    assert!(matches!(&steps[1], UpdateField::CommandText(x) if x == "ls -la"));

    let none = UpdateCommand {
        name: String::from("ls"),
        new_tags: None,
        new_description: None,
        new_command_text: None,
    };
    assert_eq!(lia::update_steps(none).len(), 0);
}

#[test]
fn dto_conversions_move_every_field() {
    let dto = lia::CommandDTO {
        name: String::from("ls"),
        description: Some(String::from("list")),
        command_text: String::from("ls -la"),
        tags: Some(vec![String::from("files")]),
    };
    let new_cmd = dto.into_new_command();
    assert_eq!(new_cmd.name, "ls");
    assert_eq!(new_cmd.description, Some(String::from("list")));
    assert_eq!(new_cmd.command_text, "ls -la");
    assert_eq!(new_cmd.tags, Some(vec![String::from("files")]));

    let dto = lia::UpdateCommandDTO {
        name: String::from("ls"),
        new_description: None,
        new_command_text: Some(String::from("ls -l")),
        new_tags: None,
    };
    let upd = dto.into_update_command();
    assert_eq!(upd.name, "ls");
    assert_eq!(upd.new_description, None);
    assert_eq!(upd.new_command_text, Some(String::from("ls -l")));
    assert_eq!(upd.new_tags, None);
}

#[test]
fn pager_counts_pages_and_clips_the_last() {
    assert_eq!(lia::total_pages(0), 1);
    assert_eq!(lia::total_pages(1), 1);
    assert_eq!(lia::total_pages(10), 1);
    assert_eq!(lia::total_pages(11), 2);
    assert_eq!(lia::total_pages(25), 3);

    let pager = Pager::new(25);
    assert_eq!(pager.page_bounds(25), (0, 10));
    let empty = Pager::new(0);
    assert_eq!(empty.page_bounds(0), (0, 0));
}

#[test]
fn pager_keys_move_stop_and_quit() {
    let mut pager = Pager::new(25);
    assert!(!pager.handle_key(PagerKey::Advance));
    assert_eq!(pager.current_page, 1);
    assert!(pager.display);
    assert_eq!(pager.page_bounds(25), (10, 20));
    assert!(!pager.handle_key(PagerKey::Advance));
    assert_eq!(pager.current_page, 2);
    assert_eq!(pager.page_bounds(25), (20, 25));
    assert!(!pager.handle_key(PagerKey::Advance));
    assert_eq!(pager.current_page, 2);
    assert!(!pager.display);
    assert!(!pager.handle_key(PagerKey::Other));
    assert!(!pager.display);
    assert!(pager.handle_key(PagerKey::Quit));
    assert_eq!(pager.current_page, 2);
}

#[test]
fn paths_join_with_separators() {
    let root = Path::new("/opt/lia");
    let path = Path::from_root(root);
    assert_eq!(path.join_root(vec!["configs.json"]).as_str(), "/opt/lia/configs.json");
    assert_eq!(path.join_root(vec!["logs", "out.txt"]).as_str(), "/opt/lia/logs/out.txt");
    assert_eq!(path.get_migrations_path().as_str(), "/opt/lia/back-end/migrations");
    let base = Path::new("/a");
    assert_eq!(Path::join(&base, String::from("b")).as_str(), "/a/b");
    assert_eq!(path.root().as_str(), "/opt/lia");
}

#[test]
fn root_search_finds_ascends_and_gives_up() {
    let entries = vec![
        DirEntryInfo { name: String::from("docs"), is_dir: true, path: Path::new("/x/docs") },
        DirEntryInfo { name: String::from("lia-src"), is_dir: false, path: Path::new("/x/lia-src") },
        DirEntryInfo { name: String::from("lia-src"), is_dir: true, path: Path::new("/y/lia-src") },
    ];
    match Path::find_root_step(&entries, 0) {
        RootSearchStep::Found(p) => assert_eq!(p.as_str(), "/y/lia-src"),
        _ => panic!("expected the root to be found"),
    }
    let none = vec![DirEntryInfo {
        name: String::from("docs"),
        is_dir: true,
        path: Path::new("/x/docs"),
    }];
    assert!(matches!(Path::find_root_step(&none, 3), RootSearchStep::Ascend));
    assert!(matches!(Path::find_root_step(&none, 10), RootSearchStep::GiveUp));
}

#[test]
fn error_messages_name_their_kind() {
    assert_eq!(
        LiaCoreError::DatabaseError(String::from("boom")).message(),
        "Database error: boom"
    );
    assert_eq!(
        LiaCoreError::CommandNotFoundError(String::from("ls")).message(),
        "Command not found: ls"
    );
    assert_eq!(
        LiaCoreError::DatabaseContainerError(String::from("exit 1")).message(),
        "Failed to start the database container: exit 1"
    );
    assert_eq!(
        LiaCoreError::InvalidInputError(String::from("bad")).message(),
        "Invalid input: bad"
    );
    assert_eq!(
        LiaCoreError::CommandExecutionError(String::from("code 2")).message(),
        "Command execution error: code 2"
    );
    assert_eq!(LiaCoreError::IoError(String::from("eof")).message(), "IO error: eof");
    assert_eq!(
        LiaCoreError::ConfigError(String::from("missing")).message(),
        "Configuration error: missing"
    );
    assert_eq!(
        LiaCoreError::MigrationError(String::from("v2")).message(),
        "Failed to run migrations: v2"
    );
}

#[test]
fn decimal_rendering_matches_the_usual_notation() {
    assert_eq!(lia::u64_string(0), "0");
    assert_eq!(lia::u64_string(7), "7");
    assert_eq!(lia::u64_string(1234567890), "1234567890");
    assert_eq!(lia::i64_string(0), "0");
    assert_eq!(lia::i64_string(-5), "-5");
    assert_eq!(lia::i64_string(i64::MIN), "-9223372036854775808");
    assert_eq!(lia::i64_string(i64::MAX), "9223372036854775807");
    let mut s = String::from("code ");
    lia::push_decimal(&mut s, 42);
    assert_eq!(s, "code 42");
}
