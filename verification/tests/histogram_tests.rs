use entropy::histogram::ByteHistogram;

/// The entropy formula the surrounding program applies to the verified
/// counters: -sum of p * log2(p) over all 256 buckets, a zero-probability
/// bucket contributing exactly 0, negative zero normalized to 0.
fn shannon_bits(h: &ByteHistogram) -> f64 {
    let total = h.total() as f64;
    let mut sum = 0f64;
    let mut v: u16 = 0;
    while v < 256 {
        let p = h.count(v as u8) as f64 / total;
        let term = p * p.log2();
        if !term.is_nan() {
            sum += term;
        }
        v += 1;
    }
    f64::max(0f64, -sum)
}

fn histogram_of(bytes: &[u8]) -> ByteHistogram {
    let mut h = ByteHistogram::new();
    h.add_chunk(bytes);
    h
}

#[test]
fn fresh_histogram_is_all_zero() {
    let h = ByteHistogram::new();
    assert_eq!(h.total(), 0);
    for v in 0..=255u8 {
        assert_eq!(h.count(v), 0);
    }
}

#[test]
fn empty_stream_yields_zero_total_and_zero_entropy() {
    let mut h = ByteHistogram::new();
    h.add_chunk(&[]);
    assert_eq!(h.total(), 0);
    let e = shannon_bits(&h);
    assert!(!e.is_nan());
    assert_eq!(e, 0.0);
    assert!(e.is_sign_positive());
}

#[test]
fn counts_tally_each_byte_value() {
    let h = histogram_of(b"AAAABBBB");
    assert_eq!(h.total(), 8);
    assert_eq!(h.count(b'A'), 4);
    assert_eq!(h.count(b'B'), 4);
    for v in 0..=255u8 {
        if v != b'A' && v != b'B' {
            assert_eq!(h.count(v), 0);
        }
    }
}

#[test]
fn counts_accumulate_across_chunks() {
    let mut h = ByteHistogram::new();
    h.add_chunk(b"AB");
    h.add_chunk(b"BC");
    h.add_chunk(b"");
    h.add_chunk(b"C");
    assert_eq!(h.total(), 5);
    assert_eq!(h.count(b'A'), 1);
    assert_eq!(h.count(b'B'), 2);
    assert_eq!(h.count(b'C'), 2);
}

#[test]
fn chunking_does_not_change_histogram_or_entropy() {
    let data = b"entropy, measured in bits";

    let whole = histogram_of(data);

    let mut bytewise = ByteHistogram::new();
    for b in data.iter() {
        bytewise.add_chunk(&[*b]);
    }

    let mut split = ByteHistogram::new();
    split.add_chunk(&data[..3]);
    split.add_chunk(&data[3..10]);
    split.add_chunk(&data[10..]);

    assert_eq!(whole.total(), bytewise.total());
    assert_eq!(whole.total(), split.total());
    for v in 0..=255u8 {
        assert_eq!(whole.count(v), bytewise.count(v));
        assert_eq!(whole.count(v), split.count(v));
    }
    assert_eq!(shannon_bits(&whole), shannon_bits(&bytewise));
    assert_eq!(shannon_bits(&whole), shannon_bits(&split));
}

#[test]
fn two_values_in_equal_shares_give_one_bit() {
    let h = histogram_of(b"AAAABBBB");
    assert_eq!(shannon_bits(&h), 1.0);
}

#[test]
fn four_distinct_values_give_two_bits() {
    let h = histogram_of(b"ABCD");
    assert_eq!(shannon_bits(&h), 2.0);
}

#[test]
fn single_repeated_value_gives_zero_bits() {
    let h = histogram_of(b"AAAA");
    assert_eq!(shannon_bits(&h), 0.0);
    assert!(shannon_bits(&h).is_sign_positive());

    let single = histogram_of(&[0u8]);
    assert_eq!(shannon_bits(&single), 0.0);
}

#[test]
fn uniform_histogram_gives_eight_bits() {
    let mut all: Vec<u8> = Vec::new();
    for v in 0..=255u8 {
        all.push(v);
    }
    let once = histogram_of(&all);
    assert_eq!(once.total(), 256);
    assert_eq!(shannon_bits(&once), 8.0);

    let mut thrice = ByteHistogram::new();
    thrice.add_chunk(&all);
    thrice.add_chunk(&all);
    thrice.add_chunk(&all);
    assert_eq!(shannon_bits(&thrice), 8.0);
}

#[test]
fn entropy_stays_between_zero_and_eight_bits() {
    let samples: [&[u8]; 5] = [b"AAAB", b"abcdefgh", b"\x00\xff", b"mississippi", b"x"];
    for bytes in samples.iter() {
        let e = shannon_bits(&histogram_of(bytes));
        assert!(0.0 <= e && e <= 8.0);
    }
}

#[test]
fn entropy_is_zero_exactly_when_one_bucket_holds_all_mass() {
    let concentrated = histogram_of(b"zzzzzz");
    assert_eq!(shannon_bits(&concentrated), 0.0);

    let spread = histogram_of(b"AAAB");
    assert!(shannon_bits(&spread) > 0.0);
}
