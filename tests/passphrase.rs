use passgen::{
    advanced, basic, capitalize, compose, decimal, generate, generate_batch, moderate,
    parse_level, sample, sample_size, symbol, ComplexityLevel, PassphraseError, BATCH_SIZE, SYMBOL_COUNT,
};

const SYMBOLS: [char; 6] = ['!', '@', '#', '$', '&', '/'];

fn corpus(words: &[&str]) -> Vec<String> {
    words.iter().map(|w| w.to_string()).collect()
}

fn lettered_corpus(n: usize) -> Vec<String> {
    (0..n)
        .map(|i| {
            let mut w = String::new();
            let mut k = i;
            for _ in 0..4 {
                w.push((b'a' + (k % 26) as u8) as char);
                k /= 26;
            }
            w
        })
        .collect()
}

/// Splits `w<number>` into the word and the number.
fn split_number(part: &str) -> (&str, u32) {
    let at = part.find(|c: char| c.is_ascii_digit()).expect("a number suffix");
    (&part[..at], part[at..].parse().expect("digits"))
}

fn lower_first(w: &str) -> String {
    let mut cs = w.chars();
    let first = cs.next().expect("non-empty");
    first.to_lowercase().chain(cs).collect()
}

#[test]
fn advanced_concrete_scenario() {
    let c = corpus(&["alpha", "bravo", "charlie", "delta"]);
    let p = compose(&c, ComplexityLevel::Advanced, &vec![0, 1, 2, 3], 42, 0);
    assert_eq!(p, "alpha42-Bravo-charlie!");
}

#[test]
fn compose_basic_and_moderate() {
    let c = corpus(&["alpha", "bravo", "charlie", "delta"]);
    assert_eq!(compose(&c, ComplexityLevel::Basic, &vec![3, 0, 2], 7, 5), "delta-alpha-charlie");
    assert_eq!(compose(&c, ComplexityLevel::Moderate, &vec![2, 3, 1], 100, 0), "charlie100-Delta-bravo");
    assert_eq!(compose(&c, ComplexityLevel::Advanced, &vec![1, 0, 3, 2], 1, 5), "bravo1-Alpha-delta/");
}

#[test]
fn capitalize_lower_and_upper() {
    assert_eq!(capitalize("apple"), "Apple");
    assert_eq!(capitalize("Apple"), "Apple");
    assert_eq!(capitalize("aPPLE"), "APPLE");
    assert_eq!(capitalize(""), "");
    assert_eq!(capitalize("x"), "X");
}

#[test]
fn capitalize_multibyte() {
    assert_eq!(capitalize("éclair"), "Éclair");
    assert_eq!(capitalize("ßen"), "SSen");
    assert_eq!(capitalize("über"), "Über");
    assert_eq!(capitalize("9lives"), "9lives");
}

#[test]
fn decimal_notation() {
    assert_eq!(decimal(0), "0");
    assert_eq!(decimal(1), "1");
    assert_eq!(decimal(42), "42");
    assert_eq!(decimal(100), "100");
    assert_eq!(decimal(4294967295), "4294967295");
}

#[test]
fn symbols_in_order() {
    let all: String = (0..SYMBOL_COUNT).map(symbol).collect();
    assert_eq!(all, "!@#$&/");
}

#[test]
fn parse_known_levels() {
    assert_eq!(parse_level("1"), Ok(ComplexityLevel::Basic));
    assert_eq!(parse_level("2"), Ok(ComplexityLevel::Moderate));
    assert_eq!(parse_level("3"), Ok(ComplexityLevel::Advanced));
}

#[test]
fn parse_unknown_level() {
    assert_eq!(parse_level("9"), Err(PassphraseError::UnknownLevel));
    assert_eq!(parse_level(""), Err(PassphraseError::UnknownLevel));
    assert_eq!(parse_level("12"), Err(PassphraseError::UnknownLevel));
    assert_eq!(parse_level("basic"), Err(PassphraseError::UnknownLevel));
}

#[test]
fn sample_sizes() {
    assert_eq!(sample_size(ComplexityLevel::Basic), 3);
    assert_eq!(sample_size(ComplexityLevel::Moderate), 3);
    assert_eq!(sample_size(ComplexityLevel::Advanced), 4);
}

#[test]
fn small_corpus_is_rejected() {
    let two = corpus(&["alpha", "bravo"]);
    let three = corpus(&["alpha", "bravo", "charlie"]);
    assert_eq!(basic(&two), Err(PassphraseError::InsufficientCorpus));
    assert_eq!(moderate(&two), Err(PassphraseError::InsufficientCorpus));
    assert_eq!(advanced(&three), Err(PassphraseError::InsufficientCorpus));
    assert_eq!(generate(&Vec::new(), ComplexityLevel::Basic), Err(PassphraseError::InsufficientCorpus));
    assert_eq!(
        generate_batch(&three, ComplexityLevel::Advanced, 0),
        Err(PassphraseError::InsufficientCorpus)
    );
}

#[test]
fn exact_corpus_size_is_enough() {
    let three = corpus(&["alpha", "bravo", "charlie"]);
    let four = corpus(&["alpha", "bravo", "charlie", "delta"]);
    assert_eq!(basic(&three).unwrap().len(), BATCH_SIZE);
    assert_eq!(moderate(&three).unwrap().len(), BATCH_SIZE);
    assert_eq!(advanced(&four).unwrap().len(), BATCH_SIZE);
}

#[test]
fn basic_format_and_distinct_words() {
    let c = lettered_corpus(50);
    for _ in 0..200 {
        let p = generate(&c, ComplexityLevel::Basic).unwrap();
        let parts: Vec<&str> = p.split('-').collect();
        assert_eq!(parts.len(), 3);
        for w in &parts {
            assert!(c.iter().any(|x| x == w));
        }
        assert!(parts[0] != parts[1] && parts[0] != parts[2] && parts[1] != parts[2]);
    }
}

#[test]
fn moderate_format_and_number_range() {
    let c = lettered_corpus(50);
    for _ in 0..500 {
        let p = generate(&c, ComplexityLevel::Moderate).unwrap();
        let parts: Vec<&str> = p.split('-').collect();
        assert_eq!(parts.len(), 3);
        let (w0, n) = split_number(parts[0]);
        assert!((1..=100).contains(&n));
        assert!(parts[1].chars().next().unwrap().is_ascii_uppercase());
        let w1 = lower_first(parts[1]);
        for w in [w0, w1.as_str(), parts[2]] {
            assert!(c.iter().any(|x| x == w));
        }
        assert!(w0 != w1 && w0 != parts[2] && w1 != parts[2]);
    }
}

#[test]
fn advanced_format_and_symbol() {
    let c = lettered_corpus(50);
    for _ in 0..500 {
        let p = generate(&c, ComplexityLevel::Advanced).unwrap();
        let parts: Vec<&str> = p.split('-').collect();
        assert_eq!(parts.len(), 3);
        let (w0, n) = split_number(parts[0]);
        assert!((1..=100).contains(&n));
        let w1 = lower_first(parts[1]);
        let last = parts[2].chars().last().unwrap();
        assert!(SYMBOLS.contains(&last));
        let w2 = &parts[2][..parts[2].len() - 1];
        for w in [w0, w1.as_str(), w2] {
            assert!(c.iter().any(|x| x == w));
        }
        assert!(w0 != w1 && w0 != w2 && w1 != w2);
    }
}

#[test]
fn numbers_cover_the_range() {
    let c = lettered_corpus(10);
    let mut seen = [false; 101];
    for _ in 0..20000 {
        let p = generate(&c, ComplexityLevel::Moderate).unwrap();
        let first = p.split('-').next().unwrap();
        let (_, n) = split_number(first);
        assert!((1..=100).contains(&n));
        seen[n as usize] = true;
    }
    assert!(!seen[0]);
    assert!(seen[1..].iter().all(|s| *s));
}

#[test]
fn batch_items_differ() {
    let c = lettered_corpus(1000);
    for level in [ComplexityLevel::Basic, ComplexityLevel::Moderate, ComplexityLevel::Advanced] {
        let batch = generate_batch(&c, level, 3).unwrap();
        assert_eq!(batch.len(), 3);
        assert!(!(batch[0] == batch[1] && batch[1] == batch[2]));
    }
}

#[test]
fn batch_of_other_sizes() {
    let c = lettered_corpus(20);
    assert_eq!(generate_batch(&c, ComplexityLevel::Basic, 5).unwrap().len(), 5);
    assert_eq!(generate_batch(&c, ComplexityLevel::Advanced, 1).unwrap().len(), 1);
    assert!(generate_batch(&c, ComplexityLevel::Moderate, 0).unwrap().is_empty());
}

#[test]
fn small_corpus_uses_every_word() {
    let c = corpus(&["alpha", "bravo", "charlie"]);
    for p in basic(&c).unwrap() {
        let mut parts: Vec<&str> = p.split('-').collect();
        parts.sort();
        assert_eq!(parts, vec!["alpha", "bravo", "charlie"]);
    }
}

#[test]
fn sampler_draws_distinct_positions() {
    let c = lettered_corpus(5);
    for n in 0..=5 {
        let picks = sample(&c, n).unwrap();
        assert_eq!(picks.len(), n);
        let mut sorted = picks.clone();
        sorted.sort();
        sorted.dedup();
        assert_eq!(sorted.len(), n);
        assert!(picks.iter().all(|p| *p < 5));
    }
    assert_eq!(sample(&c, 6), Err(PassphraseError::InsufficientCorpus));
}
