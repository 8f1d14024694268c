use meaningless::level_progress::{
    level_display_name, should_save, LevelField, LevelInfo, LevelProgress, LevelState,
};

fn progress_with(total: usize) -> LevelProgress {
    let mut p = LevelProgress::new();
    p.total_levels = total;
    p
}

#[test]
fn only_first_level_open_at_start() {
    let p = progress_with(5);
    assert!(p.is_unlocked(0));
    assert!(!p.is_unlocked(1));
    assert!(!p.is_unlocked(5));
    assert_eq!(p.level_state(0), LevelState::Unlocked);
    assert_eq!(p.level_state(1), LevelState::Locked);
}

#[test]
fn completing_opens_the_next_level() {
    let mut p = progress_with(5);
    p.complete_level(0);
    assert_eq!(p.selected, 0);
    assert_eq!(p.level_state(0), LevelState::Done);
    assert_eq!(p.level_state(1), LevelState::Unlocked);
    assert_eq!(p.level_state(2), LevelState::Locked);
}

#[test]
fn no_level_open_without_levels() {
    let p = progress_with(0);
    assert!(!p.is_unlocked(0));
    assert_eq!(p.level_state(0), LevelState::Locked);
}

#[test]
fn level_names() {
    let mut p = progress_with(0);
    let levels = vec![
        LevelInfo {
            identifier: "Level_0".to_string(),
            fields: vec![
                LevelField { identifier: "Other".to_string(), text: Some("x".to_string()) },
                LevelField { identifier: "Name".to_string(), text: None },
                LevelField { identifier: "Name".to_string(), text: Some("First".to_string()) },
            ],
        },
        LevelInfo { identifier: "Level_1".to_string(), fields: vec![] },
    ];
    assert_eq!(level_display_name(&levels[0]), "First");
    assert_eq!(level_display_name(&levels[1]), "Level_1");
    p.set_level_list(&levels);
    assert_eq!(p.total_levels, 2);
    assert_eq!(p.get_level_name(0), "First");
    assert_eq!(p.get_level_name(1), "Level_1");
    assert_eq!(p.get_level_name(7), "???");
    // A known list is kept.
    p.set_level_list(&vec![]);
    assert_eq!(p.total_levels, 2);
}

#[test]
fn save_and_load_roundtrip() {
    let mut p = progress_with(10);
    p.complete_level(3);
    p.complete_level(1);
    p.complete_level(3);
    let mut saved = p.saved_levels();
    saved.sort();
    assert_eq!(saved, vec![1, 3]);
    assert_eq!(p.completed.len(), 2);
    let mut q = progress_with(10);
    let count = q.load_saved(&vec![3, 1, 1]);
    assert_eq!(count, 3);
    assert_eq!(q.completed.len(), 2);
    assert!(q.completed.contains(1) && q.completed.contains(3) && !q.completed.contains(2));
}

#[test]
fn reloaded_progress_needs_no_save() {
    let mut p = progress_with(10);
    p.complete_level(0);
    p.complete_level(4);
    p.complete_level(0);
    let saved = p.saved_levels();
    let mut q = progress_with(10);
    let count = q.load_saved(&saved);
    assert_eq!(count, 2);
    assert_eq!(q.completed.len(), count);
    assert!(!should_save(q.completed.len(), count));
    assert_eq!(q.level_state(5), LevelState::Unlocked);
    assert_eq!(q.level_state(4), LevelState::Locked);
}

#[test]
fn saving_only_on_change() {
    assert!(should_save(2, 1));
    assert!(!should_save(2, 2));
    assert!(!should_save(0, 3));
}
