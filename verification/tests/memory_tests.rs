use procout::memory::{assemble_bytes, word_count};

fn word_of(bytes: [u8; 8]) -> u64 {
    let mut w: u64 = 0;
    for j in 0..8 {
        w |= (bytes[j] as u64) << (8 * j);
    }
    w
}

#[test]
fn word_count_is_the_ceiling_of_an_eighth() {
    assert_eq!(word_count(0), 0);
    assert_eq!(word_count(1), 1);
    assert_eq!(word_count(7), 1);
    assert_eq!(word_count(8), 1);
    assert_eq!(word_count(9), 2);
    assert_eq!(word_count(20), 3);
    assert_eq!(word_count(24), 3);
}

#[test]
fn twenty_bytes_span_three_words() {
    let all: Vec<u8> = (0u8..24).collect();
    let words = vec![
        word_of([0, 1, 2, 3, 4, 5, 6, 7]),
        word_of([8, 9, 10, 11, 12, 13, 14, 15]),
        word_of([16, 17, 18, 19, 20, 21, 22, 23]),
    ];
    let got = assemble_bytes(&words, 20);
    assert_eq!(got.len(), 20);
    assert_eq!(got.as_slice(), &all[..20]);
}

#[test]
fn an_exact_word_multiple_keeps_every_byte() {
    let words = vec![
        word_of([10, 20, 30, 40, 50, 60, 70, 80]),
        word_of([90, 100, 110, 120, 130, 140, 150, 160]),
    ];
    let got = assemble_bytes(&words, 16);
    assert_eq!(
        got,
        vec![10, 20, 30, 40, 50, 60, 70, 80, 90, 100, 110, 120, 130, 140, 150, 160]
    );
}

#[test]
fn a_trailing_partial_word_is_truncated() {
    let words = vec![word_of([9, 8, 7, 6, 5, 4, 3, 2])];
    assert_eq!(assemble_bytes(&words, 3), vec![9, 8, 7]);
}

#[test]
fn zero_bytes_requested_gives_an_empty_buffer() {
    let words = vec![word_of([1, 2, 3, 4, 5, 6, 7, 8])];
    assert_eq!(assemble_bytes(&words, 0), Vec::<u8>::new());
    assert_eq!(assemble_bytes(&Vec::new(), 0), Vec::<u8>::new());
}

#[test]
fn dropped_words_shorten_the_buffer() {
    let words = vec![word_of([0, 1, 2, 3, 4, 5, 6, 7])];
    let got = assemble_bytes(&words, 20);
    assert_eq!(got, vec![0, 1, 2, 3, 4, 5, 6, 7]);
}
