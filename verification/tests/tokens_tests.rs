use opencalendar_desktop::tokens::{
    clear_tokens, get_refresh_token, get_token, get_user, set_tokens, AppState, AuthTokens,
    DiskAction,
};
use std::path::PathBuf;

fn some(text: &str) -> Option<String> {
    Some(text.to_string())
}

#[test]
fn empty_tokens_have_no_field() {
    let tokens = AuthTokens::empty();
    assert_eq!(tokens.access_token, None);
    assert_eq!(tokens.refresh_token, None);
    assert_eq!(tokens.user_data, None);
}

#[test]
fn new_state_holds_what_it_was_given() {
    let tokens = AuthTokens { access_token: some("a"), refresh_token: None, user_data: some("u") };
    let state = AppState::new(tokens, Some(PathBuf::from("/data/app/auth.json")));
    assert_eq!(get_token(&state), some("a"));
    assert_eq!(get_refresh_token(&state), None);
    assert_eq!(get_user(&state), some("u"));
    assert_eq!(state.auth_path(), &Some(PathBuf::from("/data/app/auth.json")));
    let copy = state.tokens();
    assert_eq!(copy.access_token, some("a"));
    assert_eq!(copy.refresh_token, None);
    assert_eq!(copy.user_data, some("u"));
}

#[test]
fn set_tokens_then_getters_round_trip() {
    let mut state = AppState::new(AuthTokens::empty(), None);
    set_tokens(&mut state, "a".to_string(), "r".to_string(), "u".to_string());
    assert_eq!(get_token(&state), some("a"));
    assert_eq!(get_refresh_token(&state), some("r"));
    assert_eq!(get_user(&state), some("u"));
}

#[test]
fn clear_tokens_leaves_every_field_absent() {
    let mut state = AppState::new(AuthTokens::empty(), None);
    set_tokens(&mut state, "a".to_string(), "r".to_string(), "u".to_string());
    clear_tokens(&mut state);
    assert_eq!(get_token(&state), None);
    assert_eq!(get_refresh_token(&state), None);
    assert_eq!(get_user(&state), None);
}

#[test]
fn set_tokens_replaces_earlier_tokens() {
    let mut state = AppState::new(AuthTokens::empty(), None);
    set_tokens(&mut state, "a".to_string(), "r".to_string(), "u".to_string());
    set_tokens(&mut state, "a2".to_string(), String::new(), "{\"id\":1}".to_string());
    assert_eq!(get_token(&state), some("a2"));
    assert_eq!(get_refresh_token(&state), some(""));
    assert_eq!(get_user(&state), some("{\"id\":1}"));
}

#[test]
fn set_tokens_without_a_file_asks_for_nothing() {
    let mut state = AppState::new(AuthTokens::empty(), None);
    let action = set_tokens(&mut state, "a".to_string(), "r".to_string(), "u".to_string());
    assert!(matches!(action, DiskAction::Nothing));
    assert!(matches!(clear_tokens(&mut state), DiskAction::Nothing));
}

#[test]
fn set_tokens_with_a_file_asks_for_a_write_of_the_new_tokens() {
    let path = PathBuf::from("/data/app/auth.json");
    let old = AuthTokens { access_token: some("old"), refresh_token: None, user_data: None };
    let mut state = AppState::new(old, Some(path.clone()));
    match set_tokens(&mut state, "a".to_string(), "r".to_string(), "u".to_string()) {
        DiskAction::Write { path: target, tokens } => {
            assert_eq!(target, path);
            assert_eq!(tokens.access_token, some("a"));
            assert_eq!(tokens.refresh_token, some("r"));
            assert_eq!(tokens.user_data, some("u"));
        }
        other => panic!("unexpected action {:?}", other),
    }
    assert_eq!(state.auth_path(), &Some(path));
}

#[test]
fn clear_tokens_with_a_file_asks_for_its_removal() {
    let path = PathBuf::from("relative/auth.json");
    let mut state = AppState::new(AuthTokens::empty(), Some(path.clone()));
    match clear_tokens(&mut state) {
        DiskAction::Remove { path: target } => assert_eq!(target, path),
        other => panic!("unexpected action {:?}", other),
    }
}

#[test]
fn save_to_disk_writes_the_tokens_it_is_given() {
    let state = AppState::new(AuthTokens::empty(), Some(PathBuf::from("auth.json")));
    let tokens = AuthTokens { access_token: None, refresh_token: some("r"), user_data: None };
    match state.save_to_disk(&tokens) {
        DiskAction::Write { path, tokens } => {
            assert_eq!(path, PathBuf::from("auth.json"));
            assert_eq!(tokens.access_token, None);
            assert_eq!(tokens.refresh_token, some("r"));
            assert_eq!(tokens.user_data, None);
        }
        other => panic!("unexpected action {:?}", other),
    }
    assert_eq!(get_refresh_token(&state), None);
    assert!(matches!(
        AppState::new(AuthTokens::empty(), None).save_to_disk(&tokens),
        DiskAction::Nothing
    ));
}

#[test]
fn clear_from_disk_does_not_touch_the_tokens_in_memory() {
    let tokens = AuthTokens { access_token: some("a"), refresh_token: None, user_data: None };
    let state = AppState::new(tokens, Some(PathBuf::from("auth.json")));
    assert!(matches!(state.clear_from_disk(), DiskAction::Remove { .. }));
    assert_eq!(get_token(&state), some("a"));
}

#[test]
fn a_missing_or_unreadable_file_loads_as_empty_tokens() {
    let tokens = AppState::load_from_disk(None);
    assert_eq!(tokens.access_token, None);
    assert_eq!(tokens.refresh_token, None);
    assert_eq!(tokens.user_data, None);
}

#[test]
fn a_parsed_file_loads_as_it_is() {
    let parsed = AuthTokens { access_token: some("a"), refresh_token: None, user_data: some("u") };
    let tokens = AppState::load_from_disk(Some(parsed));
    assert_eq!(tokens.access_token, some("a"));
    assert_eq!(tokens.refresh_token, None);
    assert_eq!(tokens.user_data, some("u"));
}

#[test]
fn a_clone_of_tokens_has_the_same_fields() {
    let tokens = AuthTokens { access_token: some("a"), refresh_token: some("r"), user_data: None };
    let copy = tokens.clone();
    assert_eq!(copy.access_token, tokens.access_token);
    assert_eq!(copy.refresh_token, tokens.refresh_token);
    assert_eq!(copy.user_data, tokens.user_data);
}
