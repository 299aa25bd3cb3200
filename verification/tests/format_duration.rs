use std::time::Duration;

use mimir_bot::duration::format_seconds;
use mimir_bot::format_duration;
use mimir_bot::replies::{edt_reply, uptime_reply};
use mimir_bot::text::decimal_string;

#[test]
fn test_format_duration() {
    [
        (0, 0, 0, 0, "0 secondes"),
        (0, 0, 0, 1, "1 seconde"),
        (0, 0, 0, 5, "5 secondes"),
        (0, 0, 1, 0, "1 minute"),
        (0, 0, 2, 0, "2 minutes"),
        (0, 0, 55, 12, "55 minutes et 12 secondes"),
        (0, 1, 0, 0, "1 heure"),
        (0, 1, 1, 0, "1 heure et 1 minute"),
        (0, 1, 34, 0, "1 heure et 34 minutes"),
        (0, 2, 1, 1, "2 heures, 1 minute et 1 seconde"),
        (0, 2, 25, 0, "2 heures et 25 minutes"),
        (0, 7, 0, 44, "7 heures et 44 secondes"),
        (0, 19, 0, 0, "19 heures"),
        (1, 0, 0, 0, "1 jour"),
        (1, 0, 19, 0, "1 jour et 19 minutes"),
        (1, 1, 1, 0, "1 jour, 1 heure et 1 minute"),
        (4, 3, 0, 0, "4 jours et 3 heures"),
        (15, 16, 17, 18, "15 jours, 16 heures, 17 minutes et 18 secondes"),
    ].iter().for_each(|(d, h, m, s, st)| {
        assert_eq!(
            format_duration(Duration::from_secs(
                ((d * 24 + h) * 60 + m) * 60 + s
            )), *st
        );
    });
}

#[test]
fn components_are_recovered_from_whole_seconds() {
    // law_spoken_components on concrete values
    let d = 3u64;
    let h = 23u64;
    let m = 59u64;
    let s = 59u64;
    assert_eq!(
        format_seconds(((d * 24 + h) * 60 + m) * 60 + s),
        "3 jours, 23 heures, 59 minutes et 59 secondes"
    );
    assert_eq!(format_seconds(86400 + 59), "1 jour et 59 secondes");
    assert_eq!(format_seconds(3600 * 24 * 2 + 60 * 2), "2 jours et 2 minutes");
}

#[test]
fn fractional_seconds_are_dropped() {
    assert_eq!(
        format_duration(Duration::new(3661, 999_999_999)),
        "1 heure, 1 minute et 1 seconde"
    );
    assert_eq!(format_duration(Duration::from_millis(999)), "0 secondes");
    assert_eq!(format_duration(Duration::from_millis(1000)), "1 seconde");
}

#[test]
fn only_zero_reads_zero_seconds() {
    // law_zero_reading on concrete values
    assert_eq!(format_seconds(0), "0 secondes");
    for t in [1u64, 59, 60, 3600, 86400, 100_000, u64::MAX] {
        assert_ne!(format_seconds(t), "0 secondes");
    }
}

#[test]
fn largest_duration() {
    assert_eq!(
        format_seconds(u64::MAX),
        "213503982334601 jours, 7 heures et 15 secondes"
    );
}

#[test]
fn decimal_notation() {
    assert_eq!(decimal_string(0), "0");
    assert_eq!(decimal_string(7), "7");
    assert_eq!(decimal_string(10), "10");
    assert_eq!(decimal_string(1_234_567_890), "1234567890");
    assert_eq!(decimal_string(u64::MAX), u64::MAX.to_string());
}

#[test]
fn uptime_and_edt_answers() {
    assert_eq!(
        uptime_reply(Duration::from_secs(90)),
        "Le bot est actif depuis 1 minute et 30 secondes."
    );
    assert_eq!(uptime_reply(Duration::from_secs(0)), "Le bot est actif depuis 0 secondes.");
    assert_eq!(edt_reply(), "bientôt™");
}

#[test]
fn spoken_parts_add_back_up() {
    // law_spoken_round_trip on a concrete value: 1*86400 + 2*3600 + 3*60 + 4
    assert_eq!(format_seconds(93784), "1 jour, 2 heures, 3 minutes et 4 secondes");
    assert_eq!(format_seconds(86400 - 1), "23 heures, 59 minutes et 59 secondes");
}
