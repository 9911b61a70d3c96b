//! The emoji picker.
use siggy::app::{EmojiPickerSource, EmojiPickerState};
use siggy::emoji_picker::{pick_emojis, EmojiPickerAction, CATEGORIES};
use siggy::keys::KeyCode;

fn opened(source: EmojiPickerSource) -> EmojiPickerState {
    let mut state = EmojiPickerState::default();
    state.open(source, None);
    state
}

#[test]
fn open_populates_filtered_list() {
    let state = opened(EmojiPickerSource::Input);
    assert!(!state.filtered.is_empty());
    assert_eq!(state.selected_index, 0);
    assert_eq!(state.category_index, 0);
}

#[test]
fn filter_narrows_results() {
    let mut state = opened(EmojiPickerSource::Input);
    let all_count = state.filtered.len();

    state.filter = "rocket".to_string();
    state.refresh_filter();
    assert!(state.filtered.len() < all_count);
    assert!(state.filtered.iter().any(|e| e.emoji == "\u{1f680}"));
}

#[test]
fn category_filters_emojis() {
    let mut state = opened(EmojiPickerSource::Input);
    let all_count = state.filtered.len();

    state.category_index = 9;
    state.refresh_filter();
    assert!(state.filtered.len() < all_count);
    for entry in &state.filtered {
        let emoji = emojis::get(&entry.emoji).unwrap();
        assert_eq!(emoji.group(), emojis::Group::Flags);
    }
}

#[test]
fn text_filter_ignores_category() {
    let mut state = opened(EmojiPickerSource::Input);
    state.category_index = 9;
    state.filter = "smile".to_string();
    state.refresh_filter();
    assert!(state.filtered.iter().any(|e| e.name.to_lowercase().contains("smile")));
}

#[test]
fn grid_navigation_down_moves_by_cols() {
    let mut state = opened(EmojiPickerSource::Input);
    state.cols = 8;
    assert_eq!(state.selected_index, 0);

    state.handle_key(KeyCode::Down);
    assert_eq!(state.selected_index, 8);

    state.handle_key(KeyCode::Down);
    assert_eq!(state.selected_index, 16);
}

#[test]
fn grid_navigation_up_moves_by_cols() {
    let mut state = opened(EmojiPickerSource::Input);
    state.cols = 8;
    state.selected_index = 16;

    state.handle_key(KeyCode::Up);
    assert_eq!(state.selected_index, 8);

    state.handle_key(KeyCode::Up);
    assert_eq!(state.selected_index, 0);

    state.handle_key(KeyCode::Up);
    assert_eq!(state.selected_index, 0);
}

#[test]
fn grid_navigation_left_right() {
    let mut state = opened(EmojiPickerSource::Input);
    assert_eq!(state.selected_index, 0);

    state.handle_key(KeyCode::Right);
    assert_eq!(state.selected_index, 1);

    state.handle_key(KeyCode::Left);
    assert_eq!(state.selected_index, 0);

    state.handle_key(KeyCode::Left);
    assert_eq!(state.selected_index, 0);
}

#[test]
fn enter_returns_select() {
    let mut state = opened(EmojiPickerSource::Input);
    let action = state.handle_key(KeyCode::Enter);
    assert!(matches!(action, EmojiPickerAction::Select(_)));
}

#[test]
fn esc_returns_close() {
    let mut state = opened(EmojiPickerSource::Input);
    let action = state.handle_key(KeyCode::Esc);
    assert!(matches!(action, EmojiPickerAction::Close));
}

#[test]
fn tab_cycles_categories() {
    let mut state = opened(EmojiPickerSource::Input);
    assert_eq!(state.category_index, 0);

    state.handle_key(KeyCode::Tab);
    assert_eq!(state.category_index, 1);

    for _ in 0..CATEGORIES.len() - 1 {
        state.handle_key(KeyCode::Tab);
    }
    assert_eq!(state.category_index, 0);
}

#[test]
fn backtab_cycles_categories_reverse() {
    let mut state = opened(EmojiPickerSource::Input);
    assert_eq!(state.category_index, 0);

    state.handle_key(KeyCode::BackTab);
    assert_eq!(state.category_index, CATEGORIES.len() - 1);
}

#[test]
fn close_resets_state() {
    let mut state = opened(EmojiPickerSource::Reaction);
    state.filter = "test".to_string();
    state.selected_index = 5;
    state.category_index = 3;

    state.close();
    assert!(state.filter.is_empty());
    assert_eq!(state.selected_index, 0);
    assert_eq!(state.category_index, 0);
    assert!(state.filtered.is_empty());
}

#[test]
fn selected_emoji_returns_none_when_empty() {
    let mut state = EmojiPickerState {
        filter: "zzzzzznotanemoji".to_string(),
        ..EmojiPickerState::default()
    };
    state.refresh_filter();
    assert!(state.filtered.is_empty());
    assert!(state.selected_emoji().is_none());
}

#[test]
fn typing_char_appends_to_filter() {
    let mut state = opened(EmojiPickerSource::Input);
    state.handle_key(KeyCode::Char('r'));
    assert_eq!(state.filter, "r");

    state.handle_key(KeyCode::Char('o'));
    assert_eq!(state.filter, "ro");
}

#[test]
fn the_first_emoji_is_the_first_of_the_table() {
    let state = opened(EmojiPickerSource::Input);
    let first = emojis::iter().next().unwrap();
    assert_eq!(state.selected_emoji(), Some(first.as_str()));
    assert_eq!(state.filtered[0].name, first.name());
}

#[test]
fn rows_are_picked_by_text_or_category() {
    let rows = vec![
        (("A".to_string(), Some("alpha".to_string()), "First".to_string()), (0, None)),
        (("B".to_string(), None, "Second".to_string()), (1, None)),
        (("C".to_string(), None, "Second, toned".to_string()), (1, Some(3))),
    ];
    let found = pick_emojis(&rows, "ALPHA", 2);
    assert_eq!(found.len(), 1);
    assert_eq!(found[0].emoji, "A");
    let of_category = pick_emojis(&rows, "", 2);
    assert_eq!(of_category.len(), 1);
    assert_eq!(of_category[0].emoji, "B");
}
