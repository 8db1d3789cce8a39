use faststack::constants::PIECE_TYPE_COUNT;
use faststack::primitives::PieceType;
use faststack::primitives::PieceType::{I, J, S, T};
use faststack::random::{LLRand, Randomizer, RandomizerType};

#[test]
fn test_low_level_randomizer_behaviour_next() {
    let mut r = LLRand::new(0);
    let buffer = (0..10).fold(Vec::new(), |mut a, _| {
        a.push(r.in_range(0, PIECE_TYPE_COUNT as u32));
        a
    });

    assert_eq!(buffer, [5, 1, 1, 5, 5, 4, 4, 1, 0, 4]);
}

#[test]
fn test_low_level_randomizer_behaviour_shuffle() {
    let mut r = LLRand::new(0);
    let mut buffer = (0..10).collect::<Vec<_>>();
    r.shuffle(&mut buffer);

    assert_eq!(buffer, [7, 8, 0, 4, 9, 2, 5, 6, 3, 1]);
}

#[test]
fn test_simple_randomizer_sequence() {
    let mut r = Randomizer::new(LLRand::new(0), RandomizerType::Simple);
    let buffer = (0..10).fold(Vec::new(), |mut a, _| {
        a.push(r.next());
        a
    });

    assert_eq!(buffer, [T, J, J, T, T, S, S, J, I, S]);
}

#[test]
fn test_bag7_randomizer_sequence() {
    for i in 0..100 {
        let mut r = Randomizer::new(LLRand::new(i), RandomizerType::Bag7);
        let sum = (0..PIECE_TYPE_COUNT).fold(0, |a, _| a + r.next() as u8);

        assert_eq!(21, sum);
    }
}

#[test]
fn test_bag7_first_piece_never_s_z_o() {
    for i in 0..100 {
        let mut r = Randomizer::new(LLRand::new(i), RandomizerType::Bag7);
        let first = r.next();
        assert!(first != PieceType::S && first != PieceType::Z && first != PieceType::O);
    }
}

#[test]
fn test_bag7_every_window_of_seven_is_a_bag() {
    let mut r = Randomizer::new(LLRand::new(42), RandomizerType::Bag7);
    for _ in 0..5 {
        let mut seen = [false; 7];
        for _ in 0..7 {
            seen[r.next() as usize] = true;
        }
        assert!(seen.iter().all(|&b| b));
    }
}

#[test]
fn test_in_range_stays_in_range() {
    let mut r = LLRand::new(7);
    for _ in 0..1000 {
        let v = r.in_range(3, 11);
        assert!((3..11).contains(&v));
    }
}

#[test]
fn test_shuffle_preserves_elements() {
    let mut r = LLRand::new(1);
    let mut buffer = (0..50).collect::<Vec<u32>>();
    r.shuffle(&mut buffer);
    let mut sorted = buffer.clone();
    sorted.sort();
    assert_eq!(sorted, (0..50).collect::<Vec<u32>>());
}

#[test]
fn test_llrand_is_deterministic() {
    let mut a = LLRand::new(99);
    let mut b = LLRand::new(99);
    for _ in 0..100 {
        assert_eq!(a.next(), b.next());
    }
}

#[test]
fn test_shuffle_of_single_element_consumes_no_draws() {
    let mut r1 = LLRand::new(5);
    let mut r2 = LLRand::new(5);
    let mut v = vec![42u32];
    r1.shuffle(&mut v);
    assert_eq!(v, vec![42u32]);
    // The pass runs from the last index down to 1, so nothing was drawn and
    // the two generators stay in lock-step.
    assert_eq!(r1.in_range(0, 7), r2.in_range(0, 7));
}
