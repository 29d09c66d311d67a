use slot::rewind::{Rewind, REWIND_BYTES};

fn state(seed: u8, len: usize) -> Vec<u8> {
    (0..len).map(|i| (i as u8).wrapping_mul(31).wrapping_add(seed)).collect()
}

#[test]
fn pops_come_back_newest_first() {
    let mut r = Rewind::new(REWIND_BYTES);
    let a = state(1, 4096);
    let mut b = a.clone();
    b[100] ^= 0x55;
    let mut c = b.clone();
    c[4000] = 7;
    r.push(&a);
    r.push(&b);
    r.push(&c);
    assert_eq!(r.depth(), 3);
    assert!(r.bytes_used() > 0);
    assert_eq!(r.pop(), Some(c));
    assert_eq!(r.pop(), Some(b));
    assert_eq!(r.pop(), Some(a));
    assert_eq!(r.pop(), None);
    assert_eq!(r.depth(), 0);
    assert_eq!(r.bytes_used(), 0);
}

#[test]
fn a_reshaped_state_starts_over() {
    let mut r = Rewind::new(REWIND_BYTES);
    r.push(&state(1, 64));
    r.push(&state(2, 64));
    r.push(&state(3, 32));
    assert_eq!(r.depth(), 1);
    assert_eq!(r.bytes_used(), 0);
    assert_eq!(r.pop(), Some(state(3, 32)));
    assert_eq!(r.pop(), None);
}

#[test]
fn a_budget_with_no_room_keeps_only_the_newest() {
    let mut r = Rewind::new(0);
    r.push(&state(1, 256));
    r.push(&state(2, 256));
    r.push(&state(9, 256));
    assert_eq!(r.depth(), 1);
    assert_eq!(r.bytes_used(), 0);
    assert_eq!(r.fill(), 0);
    assert_eq!(r.pop(), Some(state(9, 256)));
}

#[test]
fn eviction_drops_the_oldest_first() {
    let one = {
        let mut r = Rewind::new(REWIND_BYTES);
        r.push(&state(1, 512));
        r.push(&state(2, 512));
        r.bytes_used()
    };
    let mut r = Rewind::new(one);
    r.push(&state(1, 512));
    r.push(&state(2, 512));
    assert_eq!(r.depth(), 2);
    assert_eq!(r.fill(), 100);
    r.push(&state(3, 512));
    assert!(r.bytes_used() <= one);
    assert_eq!(r.pop(), Some(state(3, 512)));
    let second = r.pop();
    assert!(second == Some(state(2, 512)) || second.is_none());
    assert_eq!(r.pop(), None);
}

#[test]
fn fill_is_the_share_of_the_budget_in_use() {
    let mut r = Rewind::new(REWIND_BYTES);
    assert_eq!(r.fill(), 0);
    r.push(&state(1, 1024));
    r.push(&state(2, 1024));
    let used = r.bytes_used();
    assert_eq!(r.fill() as usize, used * 100 / REWIND_BYTES);
}

#[test]
fn pushes_come_back_newest_first_until_nothing_is_left() {
    let mut r = Rewind::new(200);
    let states: Vec<Vec<u8>> = (0..40u32)
        .map(|i| (0..64u32).map(|j| ((i * 31 + j * 7) % 251) as u8).collect())
        .collect();
    for s in &states {
        r.push(s);
    }
    let d = r.depth();
    assert!(d >= 1 && d <= states.len());
    for k in 0..d {
        assert_eq!(r.pop().as_deref(), Some(&states[states.len() - 1 - k][..]));
    }
    assert_eq!(r.pop(), None);
}

#[test]
fn two_small_states_both_fit_a_megabyte() {
    let mut r = Rewind::new(1 << 20);
    r.push(&[1, 2, 3]);
    r.push(&[1, 2, 4]);
    assert_eq!(r.depth(), 2);
    assert_eq!(r.pop(), Some(vec![1, 2, 4]));
    assert_eq!(r.depth(), 1);
    assert_eq!(r.pop(), Some(vec![1, 2, 3]));
    assert_eq!(r.depth(), 0);
}
