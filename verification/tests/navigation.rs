use ss13_status::navigation::{add_idx, step, Keys, Step, UPDATE_INTERVAL_SECS};

const NONE: Keys = Keys { quit: false, right: false, left: false };

#[test]
fn add_idx_moves_within_list() {
    let servers = [1, 2, 3];
    let mut idx = 1usize;
    add_idx(&mut idx, 1, &servers);
    assert_eq!(idx, 2);
    add_idx(&mut idx, 1, &servers);
    assert_eq!(idx, 3);
    add_idx(&mut idx, -1, &servers);
    assert_eq!(idx, 2);
}

#[test]
fn add_idx_wraps_both_ends() {
    let servers = ["a", "b", "c"];
    let mut idx = 3usize;
    add_idx(&mut idx, 1, &servers);
    assert_eq!(idx, 1);
    add_idx(&mut idx, -1, &servers);
    assert_eq!(idx, 3);
}

#[test]
fn add_idx_large_moves() {
    let servers = [0u8; 5];
    let mut idx = 2usize;
    add_idx(&mut idx, 100, &servers);
    assert_eq!(idx, 1);
    let mut idx = 2usize;
    add_idx(&mut idx, -100, &servers);
    assert_eq!(idx, 5);
    let mut idx = 2usize;
    add_idx(&mut idx, 3, &servers);
    assert_eq!(idx, 5);
}

#[test]
fn add_idx_short_lists_keep_index() {
    let one = [7];
    let mut idx = 1usize;
    add_idx(&mut idx, 1, &one);
    assert_eq!(idx, 1);
    add_idx(&mut idx, -1, &one);
    assert_eq!(idx, 1);
    let empty: [u8; 0] = [];
    let mut idx = 4usize;
    add_idx(&mut idx, 1, &empty);
    assert_eq!(idx, 4);
}

#[test]
fn add_idx_index_above_isize_max() {
    let servers = [(); 3];
    let mut idx = usize::MAX;
    add_idx(&mut idx, 1, &servers);
    assert_eq!(idx, 3);
    let mut idx = usize::MAX;
    add_idx(&mut idx, 2, &servers);
    assert_eq!(idx, 1);
    let mut idx = usize::MAX - 1;
    add_idx(&mut idx, 5, &servers);
    assert_eq!(idx, 3);
}

#[test]
fn next_then_previous_returns() {
    let servers = [0; 4];
    for start in 1..=4usize {
        let mut idx = start;
        add_idx(&mut idx, 1, &servers);
        add_idx(&mut idx, -1, &servers);
        assert_eq!(idx, start);
        add_idx(&mut idx, -1, &servers);
        add_idx(&mut idx, 1, &servers);
        assert_eq!(idx, start);
    }
}

#[test]
fn index_stays_valid() {
    let servers = [0; 4];
    for start in 0..=6usize {
        for amt in [-128i8, -5, -1, 0, 1, 5, 127] {
            let mut idx = start;
            add_idx(&mut idx, amt, &servers);
            assert!((1..=4).contains(&idx), "start {start} amt {amt} gave {idx}");
        }
    }
}

#[test]
fn step_quit_takes_precedence() {
    let servers = [0; 3];
    let mut idx = 2;
    let keys = Keys { quit: true, right: true, left: true };
    assert_eq!(step(&mut idx, keys, 100, &servers), Step::Quit);
    assert_eq!(idx, 2);
}

#[test]
fn step_right_before_left() {
    let servers = [0; 3];
    let mut idx = 2;
    let keys = Keys { quit: false, right: true, left: true };
    assert_eq!(step(&mut idx, keys, 0, &servers), Step::Fetch);
    assert_eq!(idx, 3);
    let keys = Keys { quit: false, right: false, left: true };
    assert_eq!(step(&mut idx, keys, 0, &servers), Step::Fetch);
    assert_eq!(idx, 2);
}

#[test]
fn step_timer() {
    let servers = [0; 3];
    let mut idx = 1;
    assert_eq!(UPDATE_INTERVAL_SECS, 10);
    assert_eq!(step(&mut idx, NONE, 9, &servers), Step::Stay);
    assert_eq!(step(&mut idx, NONE, 10, &servers), Step::Fetch);
    assert_eq!(step(&mut idx, NONE, 11, &servers), Step::Fetch);
    assert_eq!(idx, 1);
}
