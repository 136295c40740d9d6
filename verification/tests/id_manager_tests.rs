use pj::id_manager::ConnectionIdManager;

#[test]
fn test_id_manager_no_reset() {
    let mut manager = ConnectionIdManager::new(None, None);
    assert_eq!(manager.next_id(), 0);
    assert_eq!(manager.next_id(), 1);
    assert_eq!(manager.next_id(), 2);
}

#[test]
fn test_id_manager_count_reset() {
    let mut manager = ConnectionIdManager::new(None, Some(3));
    assert_eq!(manager.next_id(), 0);
    assert_eq!(manager.next_id(), 1);
    assert_eq!(manager.next_id(), 2);
    assert_eq!(manager.next_id(), 0); // ID 3 triggers reset, returns 0
    assert_eq!(manager.next_id(), 1);
}

#[test]
fn test_id_manager_time_reset() {
    let mut manager = ConnectionIdManager::new_at(Some(100), None, 0);
    assert_eq!(manager.next_id_at(0).0, 0);
    assert_eq!(manager.next_id_at(0).0, 1);
    // 150ms later the interval has elapsed: reset, then count up again
    assert_eq!(manager.next_id_at(150).0, 0);
    assert_eq!(manager.next_id_at(150).0, 1);
}

#[test]
fn test_id_manager_count_reset_event() {
    let mut manager = ConnectionIdManager::new_at(None, Some(2), 0);
    assert_eq!(manager.next_id_at(0), (0, None));
    assert_eq!(manager.next_id_at(0).0, 1);
    let (id, ev) = manager.next_id_at(40);
    assert_eq!(id, 0);
    let ev = ev.expect("count threshold must record a reset");
    assert_eq!(ev.sequence, 1);
    assert!(ev.by_count);
    assert!(!ev.by_time);
    assert_eq!(ev.last_id, 2);
    assert_eq!(ev.elapsed_millis, 40);
    assert_eq!(
        ev.describe(),
        "Connection ID reset #1: count threshold reached (last_id: 2, elapsed: 0.04s)"
    );
}

#[test]
fn test_id_manager_time_reset_event() {
    let mut manager = ConnectionIdManager::new_at(Some(100), None, 1000);
    assert_eq!(manager.next_id_at(1050).0, 0);
    let (id, ev) = manager.next_id_at(1250);
    assert_eq!(id, 0);
    let ev = ev.expect("an elapsed interval must record a reset");
    assert!(!ev.by_count);
    assert!(ev.by_time);
    assert_eq!(ev.last_id, 1);
    assert_eq!(ev.elapsed_millis, 250);
    assert_eq!(
        ev.describe(),
        "Connection ID reset #1: time interval elapsed (last_id: 1, elapsed: 0.25s)"
    );
}

#[test]
fn test_id_manager_both_triggers() {
    let mut manager = ConnectionIdManager::new_at(Some(100), Some(1), 0);
    assert_eq!(manager.next_id_at(0).0, 0);
    let (id, ev) = manager.next_id_at(500);
    assert_eq!(id, 0);
    let ev = ev.expect("a due threshold must record a reset");
    assert!(ev.by_count);
    assert!(ev.by_time);
    assert_eq!(
        ev.describe(),
        "Connection ID reset #1: both count and time triggered (last_id: 1, elapsed: 0.50s)"
    );
}

#[test]
fn test_id_manager_sequence_numbers_grow() {
    let mut manager = ConnectionIdManager::new_at(None, Some(1), 0);
    assert_eq!(manager.next_id_at(0).0, 0);
    let (_, ev1) = manager.next_id_at(0);
    assert_eq!(ev1.expect("reset").sequence, 1);
    let (_, ev2) = manager.next_id_at(0);
    assert_eq!(ev2.expect("reset").sequence, 2);
}
