use ccm::keys::{
    handle_confirmation, handle_confirmation_with_enter, is_text_input_mode, key_to_bytes,
    Confirmation, KeyCode, KeyEvent, KeyModifiers,
};
use ccm::state::{default_expanded_git_sections, DirtyFlags, GitSection, InputMode};

fn key(code: KeyCode) -> KeyEvent {
    KeyEvent::new(code, KeyModifiers::empty())
}

#[test]
fn bytes_of_keys() {
    assert_eq!(key_to_bytes(&KeyEvent::new(KeyCode::Char('a'), KeyModifiers::control())), vec![1]);
    assert_eq!(key_to_bytes(&KeyEvent::new(KeyCode::Char('C'), KeyModifiers::control())), vec![3]);
    assert_eq!(key_to_bytes(&KeyEvent::new(KeyCode::Enter, KeyModifiers::shift())), vec![b'\n']);
    assert_eq!(key_to_bytes(&key(KeyCode::Enter)), vec![b'\r']);
    assert_eq!(key_to_bytes(&key(KeyCode::Char('é'))), "é".as_bytes().to_vec());
    assert_eq!(key_to_bytes(&key(KeyCode::Char('世'))), "世".as_bytes().to_vec());
    assert_eq!(key_to_bytes(&key(KeyCode::Char('🦀'))), "🦀".as_bytes().to_vec());
    assert_eq!(key_to_bytes(&key(KeyCode::BackTab)), b"\x1b[Z".to_vec());
    assert_eq!(key_to_bytes(&key(KeyCode::Up)), b"\x1b[A".to_vec());
    assert_eq!(key_to_bytes(&key(KeyCode::Delete)), b"\x1b[3~".to_vec());
    assert_eq!(key_to_bytes(&key(KeyCode::F(1))), b"\x1bOP".to_vec());
    assert_eq!(key_to_bytes(&key(KeyCode::F(11))), b"\x1b[23~".to_vec());
    assert_eq!(key_to_bytes(&key(KeyCode::F(13))), Vec::<u8>::new());
    assert_eq!(key_to_bytes(&key(KeyCode::CapsLock)), Vec::<u8>::new());
}

#[test]
fn confirmations() {
    assert_eq!(handle_confirmation(&key(KeyCode::Char('Y'))), Confirmation::Confirm);
    assert_eq!(handle_confirmation(&key(KeyCode::Esc)), Confirmation::Cancel);
    assert_eq!(handle_confirmation(&key(KeyCode::Enter)), Confirmation::Ignore);
    assert_eq!(handle_confirmation_with_enter(&key(KeyCode::Enter)), Confirmation::Confirm);
    assert_eq!(handle_confirmation_with_enter(&key(KeyCode::Char('n'))), Confirmation::Cancel);
    assert_eq!(handle_confirmation_with_enter(&key(KeyCode::Char('x'))), Confirmation::Ignore);
}

#[test]
fn text_input_modes() {
    assert!(is_text_input_mode(&InputMode::AddTodo { parent_id: None }));
    assert!(is_text_input_mode(&InputMode::NewBranch));
    assert!(!is_text_input_mode(&InputMode::Normal));
    assert!(!is_text_input_mode(&InputMode::TodoPopup));
}

#[test]
fn dirty_flags_and_sections() {
    let mut f = DirtyFlags::default();
    assert!(!f.any());
    f.mark_all();
    assert!(f.any() && f.sidebar && f.terminal && f.status_bar && !f.full_redraw);
    f.clear();
    assert!(!f.any());
    let mut s = default_expanded_git_sections();
    assert!(s.contains(GitSection::Staged) && s.contains(GitSection::Untracked));
    assert!(s.remove(GitSection::Unstaged));
    assert!(!s.contains(GitSection::Unstaged));
    assert!(s.insert(GitSection::Unstaged));
}

#[test]
fn ctrl_s_is_the_prefix_key() {
    assert!(ccm::keys::is_prefix_key(&ccm::keys::KeyEvent::new(ccm::keys::KeyCode::Char('s'), ccm::keys::KeyModifiers::control())));
    assert!(!ccm::keys::is_prefix_key(&ccm::keys::KeyEvent::new(ccm::keys::KeyCode::Char('s'), ccm::keys::KeyModifiers::empty())));
    assert!(!ccm::keys::is_prefix_key(&ccm::keys::KeyEvent::new(ccm::keys::KeyCode::Char('a'), ccm::keys::KeyModifiers::control())));
}
