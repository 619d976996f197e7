use coinflip::{classify, decimal, generate, Outcome, TrialDraw, TrialRecord};

#[test]
fn classify_compares_with_threshold() {
    assert_eq!(classify(69, 70), Outcome::Heads);
    assert_eq!(classify(70, 70), Outcome::Tails);
    assert_eq!(classify(0, 0), Outcome::Tails);
    assert_eq!(classify(99, 100), Outcome::Heads);
}

#[test]
fn draws_stay_in_range_and_agree_with_outcome() {
    let mut seen = [false; 100];
    for _ in 0..5000 {
        let d = generate(5000);
        assert!(d.raw_value < 100);
        assert_eq!(d.outcome == Outcome::Heads, d.raw_value < 50);
        seen[d.raw_value as usize] = true;
    }
    assert!(seen.iter().filter(|s| **s).count() > 1);
}

#[test]
fn full_bias_is_always_heads() {
    for _ in 0..2000 {
        assert_eq!(generate(10000).outcome, Outcome::Heads);
    }
}

#[test]
fn zero_bias_is_always_tails() {
    for _ in 0..2000 {
        assert_eq!(generate(0).outcome, Outcome::Tails);
    }
}

#[test]
fn outcome_codes() {
    assert_eq!(Outcome::Heads.code(), "H");
    assert_eq!(Outcome::Tails.code(), "T");
}

#[test]
fn record_line_format() {
    let r = TrialRecord::new(12, TrialDraw { outcome: Outcome::Heads, raw_value: 7 });
    assert_eq!(r.to_line(), b"12,H,7\n".to_vec());
    let t = TrialRecord { index: 18446744073709551615, outcome: Outcome::Tails, raw_value: 99 };
    assert_eq!(t.to_line(), b"18446744073709551615,T,99\n".to_vec());
}

#[test]
fn decimal_digits() {
    assert_eq!(decimal(0), b"0".to_vec());
    assert_eq!(decimal(9), b"9".to_vec());
    assert_eq!(decimal(10), b"10".to_vec());
    assert_eq!(decimal(1234567890123), b"1234567890123".to_vec());
}
