use std::sync::Arc;

use tauri_shim::manager::AppInner;
use tauri_shim::state::{State, StateManager};

#[test]
fn manager_methods_round_trip() {
    let mut m: StateManager<i64> = StateManager::new();
    assert!(m.manage(1, 7));
    assert_eq!(m.try_get(1), Some(&7));
    assert_eq!(m.try_get(2), None);
    // Re-managing the same type is a no-op.
    assert!(!m.manage(1, 99));
    assert_eq!(m.try_get(1), Some(&7));
}

#[test]
fn manage_a_new_type_after_construction() {
    let mut core: AppInner<i64, ()> = AppInner::new();
    assert!(core.try_state(5).is_none());
    assert!(core.manage(5, 42));
    assert_eq!(core.try_state(5), Some(&42));
}

#[test]
fn unmanage_hands_back_the_value() {
    let mut m: StateManager<String> = StateManager::new();
    m.manage(3, "x".to_string());
    assert_eq!(m.unmanage(3), Some("x".to_string()));
    assert_eq!(m.unmanage(3), None);
    assert!(m.try_get(3).is_none());
    assert!(m.manage(3, "y".to_string()));
}

#[test]
fn state_handle_reads_the_shared_value() {
    let s: State<'_, Vec<u8>> = State::new(Arc::new(vec![1, 2]));
    let t = s.clone();
    assert_eq!(s.inner(), &vec![1, 2]);
    assert_eq!(*t, vec![1, 2]);
    assert_eq!(t.len(), 2);
}
