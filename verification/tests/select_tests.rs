use volev::select::{
    select_devices, select_for_code, Candidate, SelectError, KEY_VOLUMEDOWN, KEY_VOLUMEUP,
};

fn cand(keys: Vec<usize>) -> Candidate {
    Candidate { keys }
}

#[test]
fn small_device_wins_volume_up() {
    // A generic node with 87 keys and a dedicated node with 5 keys, both
    // exposing volume-up: the 5-key node wins whatever the scan order.
    let mut many: Vec<usize> = (1..=86).collect();
    many.push(KEY_VOLUMEUP);
    assert_eq!(many.len(), 87);
    let few = vec![112, 113, KEY_VOLUMEDOWN, KEY_VOLUMEUP, 116];

    let cands = vec![cand(many.clone()), cand(few.clone())];
    assert_eq!(select_for_code(&cands, KEY_VOLUMEUP), Some(1));

    let cands = vec![cand(few), cand(many)];
    assert_eq!(select_for_code(&cands, KEY_VOLUMEUP), Some(0));
}

#[test]
fn tie_keeps_earliest_candidate() {
    let cands = vec![
        cand(vec![KEY_VOLUMEUP, 1]),
        cand(vec![KEY_VOLUMEUP, 2]),
    ];
    assert_eq!(select_for_code(&cands, KEY_VOLUMEUP), Some(0));
}

#[test]
fn strictly_smaller_wins_over_earlier() {
    let cands = vec![
        cand(vec![KEY_VOLUMEUP, 1, 2]),
        cand(vec![KEY_VOLUMEUP, 1]),
    ];
    assert_eq!(select_for_code(&cands, KEY_VOLUMEUP), Some(1));
}

#[test]
fn no_candidate_supports_code() {
    let cands = vec![cand(vec![1, 2, 3]), cand(vec![])];
    assert_eq!(select_for_code(&cands, KEY_VOLUMEUP), None);
}

#[test]
fn missing_volume_down_fails_selection() {
    // No candidate exposes volume-down: selection fails naming that button.
    let cands = vec![cand(vec![KEY_VOLUMEUP, 1, 2])];
    match select_devices(&cands) {
        Err(SelectError::VolumeDownNotFound) => {}
        other => panic!("expected the volume-down failure, got {:?}", other.is_ok()),
    }
}

#[test]
fn missing_volume_up_fails_selection() {
    let cands = vec![cand(vec![KEY_VOLUMEDOWN, 1, 2])];
    match select_devices(&cands) {
        Err(SelectError::VolumeUpNotFound) => {}
        other => panic!("expected the volume-up failure, got {:?}", other.is_ok()),
    }
}

#[test]
fn both_buttons_selected_independently() {
    // A keyboard node multiplexes both codes; each button still gets its
    // own dedicated node, and one node may win both buttons.
    let mut keyboard: Vec<usize> = (1..=100).collect();
    keyboard.push(KEY_VOLUMEUP);
    keyboard.push(KEY_VOLUMEDOWN);
    let buttons = vec![KEY_VOLUMEDOWN, KEY_VOLUMEUP];
    let cands = vec![cand(keyboard), cand(buttons)];
    let s = select_devices(&cands).unwrap_or_else(|_| panic!("selection must succeed"));
    assert_eq!(s.up, 1);
    assert_eq!(s.down, 1);
}
