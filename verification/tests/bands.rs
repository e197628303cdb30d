use audiobars::bands::{chunk_size, partition, span_at, Span};
use audiobars::NUM_BARS;

#[test]
fn chunk_size_rounds_up() {
    assert_eq!(chunk_size(0), 0);
    assert_eq!(chunk_size(1), 1);
    assert_eq!(chunk_size(63), 1);
    assert_eq!(chunk_size(64), 1);
    assert_eq!(chunk_size(65), 2);
    assert_eq!(chunk_size(128), 2);
    assert_eq!(chunk_size(129), 3);
    assert_eq!(chunk_size(1000), 16);
}

#[test]
fn chunk_size_of_the_largest_buffer() {
    assert_eq!(chunk_size(usize::MAX), usize::MAX / 64 + 1);
}

#[test]
fn span_at_full_short_and_empty() {
    assert_eq!(span_at(1000, 0), Span { start: 0, end: 16 });
    assert_eq!(span_at(1000, 1), Span { start: 16, end: 32 });
    assert_eq!(span_at(1000, 61), Span { start: 976, end: 992 });
    assert_eq!(span_at(1000, 62), Span { start: 992, end: 1000 });
    assert_eq!(span_at(1000, 63), Span { start: 1000, end: 1000 });
}

#[test]
fn spans_past_the_last_band_are_empty() {
    assert_eq!(span_at(1000, 64), Span { start: 1000, end: 1000 });
    assert_eq!(span_at(10, usize::MAX), Span { start: 10, end: 10 });
    assert_eq!(span_at(0, 0), Span { start: 0, end: 0 });
    assert_eq!(span_at(usize::MAX, usize::MAX), Span { start: usize::MAX, end: usize::MAX });
}

#[test]
fn span_is_empty_when_nothing_is_in_it() {
    assert!(!span_at(1000, 62).is_empty());
    assert!(span_at(1000, 63).is_empty());
    assert!(Span { start: 5, end: 5 }.is_empty());
    assert!(Span { start: 6, end: 5 }.is_empty());
    assert!(!Span { start: 5, end: 6 }.is_empty());
}

#[test]
fn empty_buffer_has_no_bands() {
    assert_eq!(partition(0), None);
}

#[test]
fn one_sample_per_band() {
    let spans = partition(64).expect("a buffer with samples has bands");
    assert_eq!(spans.len(), NUM_BARS);
    for i in 0..NUM_BARS {
        assert_eq!(spans[i], Span { start: i, end: i + 1 });
    }
}

#[test]
fn short_buffer_leaves_trailing_bands_empty() {
    let spans = partition(10).expect("a buffer with samples has bands");
    for i in 0..10 {
        assert_eq!(spans[i], Span { start: i, end: i + 1 });
    }
    for i in 10..NUM_BARS {
        assert_eq!(spans[i], Span { start: 10, end: 10 });
        assert!(spans[i].is_empty());
    }
}

#[test]
fn single_sample_goes_to_the_first_band() {
    let spans = partition(1).expect("a buffer with samples has bands");
    assert_eq!(spans[0], Span { start: 0, end: 1 });
    for i in 1..NUM_BARS {
        assert!(spans[i].is_empty());
    }
}

#[test]
fn thousand_samples_in_bands_of_sixteen() {
    let spans = partition(1000).expect("a buffer with samples has bands");
    for i in 0..62 {
        assert_eq!(spans[i], Span { start: 16 * i, end: 16 * i + 16 });
    }
    assert_eq!(spans[62], Span { start: 992, end: 1000 });
    assert_eq!(spans[63], Span { start: 1000, end: 1000 });
}

#[test]
fn one_more_than_a_multiple() {
    let spans = partition(65).expect("a buffer with samples has bands");
    for i in 0..32 {
        assert_eq!(spans[i], Span { start: 2 * i, end: 2 * i + 2 });
    }
    assert_eq!(spans[32], Span { start: 64, end: 65 });
    for i in 33..NUM_BARS {
        assert_eq!(spans[i], Span { start: 65, end: 65 });
    }
}

#[test]
fn bands_tile_the_buffer() {
    let lens: [usize; 9] = [1, 2, 63, 64, 65, 127, 1000, 4097, 1_000_003];
    for len in lens {
        let width: usize = chunk_size(len);
        let spans = partition(len).expect("a buffer with samples has bands");
        assert_eq!(spans[0].start, 0);
        assert_eq!(spans[NUM_BARS - 1].end, len);
        for i in 0..NUM_BARS {
            assert!(spans[i].start <= spans[i].end);
            assert!(spans[i].end - spans[i].start <= width);
            if spans[i].end < len {
                assert_eq!(spans[i].end - spans[i].start, width);
            }
            if i + 1 < NUM_BARS {
                assert_eq!(spans[i].end, spans[i + 1].start);
            }
            assert_eq!(spans[i], span_at(len, i));
        }
    }
}

#[test]
fn largest_buffer_is_cut_without_overflow() {
    let len: usize = usize::MAX;
    let width: usize = chunk_size(len);
    let spans = partition(len).expect("a buffer with samples has bands");
    assert_eq!(spans[0], Span { start: 0, end: width });
    assert_eq!(spans[62], Span { start: 62 * width, end: 63 * width });
    assert_eq!(spans[63], Span { start: 63 * width, end: len });
}

#[test]
fn partition_is_repeatable() {
    assert_eq!(partition(777), partition(777));
}
