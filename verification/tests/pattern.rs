use diskwipe::outcome::IoReason;
use diskwipe::pattern::{fill_zero, is_all_zero, Pattern, PatternGenerator};
use rand::rngs::StdRng;
use rand::SeedableRng;
use diskwipe::schedule::{next_span_len, progress_hundredths};

#[test]
fn zero_fill_clears_every_byte() {
    let mut generator = PatternGenerator::new(Pattern::Zero);
    assert!(generator.is_ready());
    assert_eq!(generator.kind(), Pattern::Zero);
    let mut buf = vec![0xffu8; 1000];
    assert_eq!(generator.fill(&mut buf), Ok(()));
    assert_eq!(buf, vec![0u8; 1000]);
    let mut buf = vec![1u8, 2, 3];
    fill_zero(&mut buf);
    assert_eq!(buf, vec![0u8, 0, 0]);
}

#[test]
fn zero_fill_of_an_empty_buffer() {
    let mut generator = PatternGenerator::new(Pattern::Zero);
    let mut buf: Vec<u8> = Vec::new();
    assert_eq!(generator.fill(&mut buf), Ok(()));
    assert!(buf.is_empty());
}

#[test]
fn zero_fill_needs_no_seed() {
    let mut generator = PatternGenerator::with_source(Pattern::Zero, None);
    assert!(generator.is_ready());
    let mut buf = vec![9u8; 16];
    assert_eq!(generator.fill(&mut buf), Ok(()));
    assert_eq!(buf, vec![0u8; 16]);
    let mut generator =
        PatternGenerator::with_source(Pattern::Zero, Some(StdRng::seed_from_u64(1)));
    assert!(generator.is_ready());
    let mut buf = vec![9u8; 16];
    assert_eq!(generator.fill(&mut buf), Ok(()));
    assert_eq!(buf, vec![0u8; 16]);
}

#[test]
fn random_fill_overwrites_in_place() {
    let mut generator = PatternGenerator::new(Pattern::Random);
    assert_eq!(generator.kind(), Pattern::Random);
    assert!(generator.is_ready());
    let mut buf = vec![0u8; 4096];
    assert_eq!(generator.fill(&mut buf), Ok(()));
    assert_eq!(buf.len(), 4096);
    assert!(buf.iter().any(|&b| b != 0));
    let first = buf.clone();
    assert_eq!(generator.fill(&mut buf), Ok(()));
    assert_eq!(buf.len(), 4096);
    assert_ne!(buf, first);
    assert!(generator.is_ready());
}

#[test]
fn random_fill_from_a_given_generator() {
    let mut generator =
        PatternGenerator::with_source(Pattern::Random, Some(StdRng::seed_from_u64(42)));
    assert!(generator.is_ready());
    let mut buf = vec![0u8; 256];
    assert_eq!(generator.fill(&mut buf), Ok(()));
    assert_eq!(buf.len(), 256);
    assert!(buf.iter().any(|&b| b != 0));
    let mut again =
        PatternGenerator::with_source(Pattern::Random, Some(StdRng::seed_from_u64(42)));
    let mut same = vec![0u8; 256];
    assert_eq!(again.fill(&mut same), Ok(()));
    assert_eq!(buf, same);
}

#[test]
fn two_seeded_generators_differ() {
    let mut a = PatternGenerator::new(Pattern::Random);
    let mut b = PatternGenerator::new(Pattern::Random);
    let mut x = vec![0u8; 1024];
    let mut y = vec![0u8; 1024];
    assert_eq!(a.fill(&mut x), Ok(()));
    assert_eq!(b.fill(&mut y), Ok(()));
    assert_ne!(x, y);
}

#[test]
fn random_fill_of_an_empty_buffer() {
    let mut generator = PatternGenerator::new(Pattern::Random);
    let mut buf: Vec<u8> = Vec::new();
    assert_eq!(generator.fill(&mut buf), Ok(()));
    assert!(buf.is_empty());
}

#[test]
fn random_fill_without_a_generator_fails_and_leaves_the_buffer() {
    let mut generator = PatternGenerator::with_source(Pattern::Random, None);
    assert!(!generator.is_ready());
    assert_eq!(generator.kind(), Pattern::Random);
    let mut buf = vec![0x5au8; 64];
    assert_eq!(generator.fill(&mut buf), Err(IoReason::RandomSourceUnavailable));
    assert_eq!(buf, vec![0x5au8; 64]);
    assert!(!generator.is_ready());
}

#[test]
fn all_zero_check() {
    assert!(is_all_zero(&[]));
    assert!(is_all_zero(&[0, 0, 0, 0]));
    assert!(!is_all_zero(&[0, 0, 0, 1]));
    assert!(!is_all_zero(&[0x80, 0, 0, 0]));
    assert!(!is_all_zero(&[0, 7, 0]));
}

#[test]
fn span_lengths() {
    assert_eq!(next_span_len(10, 4, 0), 4);
    assert_eq!(next_span_len(10, 4, 4), 4);
    assert_eq!(next_span_len(10, 4, 8), 2);
    assert_eq!(next_span_len(10, 4, 10), 0);
    assert_eq!(next_span_len(10, 4, 11), 0);
    assert_eq!(next_span_len(0, 4, 0), 0);
    assert_eq!(next_span_len(3, 1048576, 0), 3);
    assert_eq!(next_span_len(u64::MAX, 1048576, u64::MAX - 5), 5);
    assert_eq!(next_span_len(u64::MAX, 1048576, 0), 1048576);
    assert_eq!(next_span_len(10, 0, 3), 0);
}

#[test]
fn progress_in_hundredths_of_a_percent() {
    assert_eq!(progress_hundredths(0, 10), 0);
    assert_eq!(progress_hundredths(1, 10), 1000);
    assert_eq!(progress_hundredths(1, 3), 3333);
    assert_eq!(progress_hundredths(2, 3), 6666);
    assert_eq!(progress_hundredths(10, 10), 10000);
    assert_eq!(progress_hundredths(11, 10), 10000);
    assert_eq!(progress_hundredths(0, 0), 10000);
    assert_eq!(progress_hundredths(1048576, 10485760), 1000);
    assert_eq!(progress_hundredths(u64::MAX - 1, u64::MAX), 9999);
    assert_eq!(progress_hundredths(1, u64::MAX), 0);
}
