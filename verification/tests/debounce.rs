use twitch_controller::debounce::DebounceTracker;
use twitch_controller::input::Input;
use twitch_controller::keyboard::Key;

fn held_key(key: Key) -> Input {
    Input::Keyboard(key)
}

#[test]
fn a_new_tracker_holds_nothing() {
    let tracker = DebounceTracker::new();
    assert!(!tracker.is_held(held_key(Key::Space)));
    assert!(tracker.all_free(&[held_key(Key::Space), held_key(Key::KeyA)]));
    assert!(tracker.all_free(&[]));
}

#[test]
fn acquire_takes_all_inputs_at_once() {
    let mut tracker = DebounceTracker::new();
    assert!(tracker.try_acquire(&[held_key(Key::KeyA), held_key(Key::KeyB)]));
    assert!(tracker.is_held(held_key(Key::KeyA)));
    assert!(tracker.is_held(held_key(Key::KeyB)));
    assert!(!tracker.is_held(held_key(Key::KeyC)));
}

#[test]
fn acquire_fails_while_one_input_is_held_and_changes_nothing() {
    let mut tracker = DebounceTracker::new();
    assert!(tracker.try_acquire(&[held_key(Key::KeyA), held_key(Key::KeyB)]));
    assert!(!tracker.try_acquire(&[held_key(Key::KeyC), held_key(Key::KeyB)]));
    assert!(!tracker.is_held(held_key(Key::KeyC)));
    assert!(!tracker.try_acquire(&[held_key(Key::KeyA)]));
    assert!(!tracker.try_acquire(&[held_key(Key::KeyA), held_key(Key::KeyB)]));
    assert!(tracker.try_acquire(&[held_key(Key::KeyC)]));
    assert!(tracker.is_held(held_key(Key::KeyC)));
}

#[test]
fn acquire_is_refused_until_the_shared_input_is_released() {
    let mut tracker = DebounceTracker::new();
    assert!(tracker.try_acquire(&[held_key(Key::KeyA), held_key(Key::KeyB)]));
    tracker.release(held_key(Key::KeyA));
    assert!(!tracker.try_acquire(&[held_key(Key::KeyB), held_key(Key::KeyC)]));
    assert!(!tracker.is_held(held_key(Key::KeyC)));
    tracker.release(held_key(Key::KeyB));
    assert!(tracker.try_acquire(&[held_key(Key::KeyB), held_key(Key::KeyC)]));
}

#[test]
fn disjoint_acquires_do_not_refuse_each_other() {
    let mut tracker = DebounceTracker::new();
    assert!(tracker.try_acquire(&[held_key(Key::KeyA), held_key(Key::KeyB)]));
    assert!(tracker.try_acquire(&[held_key(Key::KeyC), held_key(Key::KeyD)]));
    tracker.release(held_key(Key::KeyA));
    tracker.release(held_key(Key::KeyB));
    assert!(tracker.is_held(held_key(Key::KeyC)));
    assert!(tracker.is_held(held_key(Key::KeyD)));
    assert!(tracker.try_acquire(&[held_key(Key::KeyA), held_key(Key::KeyB)]));
}

#[test]
fn release_is_idempotent() {
    let mut tracker = DebounceTracker::new();
    tracker.release(held_key(Key::KeyA));
    assert!(!tracker.is_held(held_key(Key::KeyA)));
    assert!(tracker.try_acquire(&[held_key(Key::KeyA)]));
    tracker.release(held_key(Key::KeyA));
    tracker.release(held_key(Key::KeyA));
    assert!(!tracker.is_held(held_key(Key::KeyA)));
    assert!(tracker.try_acquire(&[held_key(Key::KeyA)]));
}

#[test]
fn an_input_asked_for_twice_is_held_once() {
    let mut tracker = DebounceTracker::new();
    assert!(tracker.try_acquire(&[held_key(Key::KeyA), held_key(Key::KeyA)]));
    assert!(tracker.is_held(held_key(Key::KeyA)));
    tracker.release(held_key(Key::KeyA));
    assert!(!tracker.is_held(held_key(Key::KeyA)));
}

#[test]
fn an_empty_acquire_is_granted_and_holds_nothing() {
    let mut tracker = DebounceTracker::new();
    assert!(tracker.try_acquire(&[held_key(Key::KeyA)]));
    assert!(tracker.try_acquire(&[]));
    assert!(tracker.is_held(held_key(Key::KeyA)));
    assert!(!tracker.is_held(held_key(Key::KeyB)));
}

#[test]
fn raw_keys_are_told_apart_by_their_code() {
    let mut tracker = DebounceTracker::new();
    assert!(tracker.try_acquire(&[held_key(Key::Unknown(1))]));
    assert!(tracker.try_acquire(&[held_key(Key::Unknown(2))]));
    assert!(!tracker.try_acquire(&[held_key(Key::Unknown(1))]));
    tracker.release(held_key(Key::Unknown(1)));
    assert!(tracker.is_held(held_key(Key::Unknown(2))));
    assert!(!tracker.is_held(held_key(Key::Unknown(1))));
}

#[test]
fn overlapping_acquires_never_hold_an_input_twice() {
    // A fixed pseudo-random run over the sixteen subsets of four keys.
    let keys = [held_key(Key::KeyA), held_key(Key::KeyB), held_key(Key::KeyC), held_key(Key::KeyD)];
    let mut tracker = DebounceTracker::new();
    let mut held = [false; 4];
    let mut seed: u32 = 12345;
    for _ in 0..2000 {
        seed = seed.wrapping_mul(1103515245).wrapping_add(12345);
        let choice = (seed >> 16) % 20;
        if choice < 16 {
            let wanted: Vec<usize> = (0..4).filter(|i| choice & (1 << i) != 0).collect();
            let inputs: Vec<Input> = wanted.iter().map(|i| keys[*i]).collect();
            let free = wanted.iter().all(|i| !held[*i]);
            assert_eq!(tracker.try_acquire(&inputs), free);
            if free {
                for i in wanted {
                    held[i] = true;
                }
            }
        } else {
            let i = (choice - 16) as usize;
            tracker.release(keys[i]);
            held[i] = false;
        }
        for i in 0..4 {
            assert_eq!(tracker.is_held(keys[i]), held[i]);
        }
    }
}
