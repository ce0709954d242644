use dev_ticker::fault::{
    admission, admission_from, delay_bucket, fails, make_sloppy, Admission, DelayBucket,
};

#[test]
fn first_draw_below_five_fails() {
    for d in 0..5 {
        assert!(fails(d));
    }
    for d in 5..100 {
        assert!(!fails(d));
    }
    assert!(!fails(u64::MAX));
}

#[test]
fn second_draw_picks_the_bucket() {
    for d in 0..60 {
        assert_eq!(delay_bucket(d), DelayBucket::Short);
    }
    for d in 60..70 {
        assert_eq!(delay_bucket(d), DelayBucket::Long);
    }
    for d in 70..100 {
        assert_eq!(delay_bucket(d), DelayBucket::Spread);
    }
    assert_eq!(delay_bucket(u64::MAX), DelayBucket::Spread);
}

#[test]
fn shares_of_the_hundred_draws() {
    assert_eq!((0..100).filter(|d| fails(*d)).count(), 5);
    assert_eq!((0..100).filter(|d| delay_bucket(*d) == DelayBucket::Short).count(), 60);
    assert_eq!((0..100).filter(|d| delay_bucket(*d) == DelayBucket::Long).count(), 10);
    assert_eq!((0..100).filter(|d| delay_bucket(*d) == DelayBucket::Spread).count(), 30);
}

#[test]
fn admission_from_three_draws() {
    assert_eq!(admission_from(0, 0, 100), Admission::Reject);
    assert_eq!(admission_from(4, 99, 999), Admission::Reject);
    assert_eq!(admission_from(5, 0, 555), Admission::Serve { delay_ms: 100 });
    assert_eq!(admission_from(99, 59, 555), Admission::Serve { delay_ms: 100 });
    assert_eq!(admission_from(5, 60, 555), Admission::Serve { delay_ms: 5000 });
    assert_eq!(admission_from(50, 69, 555), Admission::Serve { delay_ms: 5000 });
    assert_eq!(admission_from(5, 70, 555), Admission::Serve { delay_ms: 555 });
    assert_eq!(admission_from(99, 99, 100), Admission::Serve { delay_ms: 100 });
    assert_eq!(admission_from(99, 99, 999), Admission::Serve { delay_ms: 999 });
}

#[test]
fn without_fault_injection_every_request_is_served_at_once() {
    for _ in 0..10_000 {
        assert_eq!(admission(false), Admission::Serve { delay_ms: 0 });
    }
}

#[test]
fn injected_outcomes_are_the_stated_ones() {
    for _ in 0..10_000 {
        match make_sloppy() {
            Admission::Reject => {}
            Admission::Serve { delay_ms } => {
                assert!(delay_ms == 5000 || (100..1000).contains(&delay_ms), "{}", delay_ms);
            }
        }
    }
}

#[test]
fn injected_rates_match_the_shares() {
    let samples = 10_000;
    let mut rejected = 0;
    let mut short = 0;
    let mut long = 0;
    let mut spread = 0;
    for _ in 0..samples {
        match admission(true) {
            Admission::Reject => rejected += 1,
            Admission::Serve { delay_ms: 100 } => short += 1,
            Admission::Serve { delay_ms: 5000 } => long += 1,
            Admission::Serve { .. } => spread += 1,
        }
    }
    assert_eq!(rejected + short + long + spread, samples);
    // Five in a hundred fail: 500 expected, with a standard deviation of 22.
    assert!((350..=650).contains(&rejected), "{} rejected", rejected);
    // Of the 9500 or so that are served, sixty in a hundred wait the short
    // time (and one in 900 of the random delays is as long), ten in a hundred
    // the long time, and thirty in a hundred a random time.
    let served = samples - rejected;
    assert!((served * 55 / 100..=served * 65 / 100).contains(&short), "{} short", short);
    assert!((served * 7 / 100..=served * 13 / 100).contains(&long), "{} long", long);
    assert!((served * 25 / 100..=served * 35 / 100).contains(&spread), "{} spread", spread);
}

#[test]
fn random_delays_spread_over_their_range() {
    let mut lowest = u64::MAX;
    let mut highest = 0;
    for _ in 0..20_000 {
        if let Admission::Serve { delay_ms } = make_sloppy() {
            if delay_ms != 5000 && delay_ms != 100 {
                lowest = lowest.min(delay_ms);
                highest = highest.max(delay_ms);
            }
        }
    }
    assert!(lowest > 100 && lowest < 150, "{}", lowest);
    assert!(highest > 950 && highest < 1000, "{}", highest);
}
