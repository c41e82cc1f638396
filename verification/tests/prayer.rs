use merzah::prayer::{
    are_valid_times, countdown_parts, countdown_tick, first_mosque, format_iqamah, home_mosque,
    is_valid_time, needs_nearby_lookup,
    next_jamat, next_prayer_card_data, pad2, reminder_labels, remaining_hms, ClockTime,
    CountdownStep, MixedMosqueResponse, MosqueResponse, PrayerTimes,
};

fn hm(h: u32, m: u32) -> ClockTime {
    ClockTime { secs: h * 3600 + m * 60, frac: 0 }
}

fn times() -> PrayerTimes {
    PrayerTimes {
        fajr: hm(5, 30),
        dhuhr: hm(13, 15),
        asr: hm(16, 45),
        maghrib: hm(19, 42),
        isha: hm(21, 0),
        jummah: hm(13, 30),
    }
}

#[test]
fn next_jamat_picks_first_after_now() {
    let info = next_jamat(&times(), hm(10, 0), false);
    assert_eq!(info.name, "Dhuhr");
    assert_eq!(info.time, hm(13, 15));
    assert!(!info.is_tomorrow);
    assert_eq!((info.hours, info.minutes, info.seconds), (3, 15, 0));
}

#[test]
fn next_jamat_uses_jumuah_on_friday() {
    let info = next_jamat(&times(), hm(10, 0), true);
    assert_eq!(info.name, "Jumu'ah");
    assert_eq!(info.time, hm(13, 30));
}

#[test]
fn next_jamat_is_strictly_after_now() {
    let info = next_jamat(&times(), hm(16, 45), false);
    assert_eq!(info.name, "Maghrib");
}

#[test]
fn next_jamat_wraps_to_tomorrow() {
    let info = next_jamat(&times(), hm(22, 0), false);
    assert_eq!(info.name, "Fajr");
    assert!(info.is_tomorrow);
    assert_eq!((info.hours, info.minutes, info.seconds), (7, 30, 0));
}

#[test]
fn next_jamat_orders_by_time_not_listing() {
    let mut t = times();
    t.isha = hm(4, 0);
    let info = next_jamat(&t, hm(3, 0), false);
    assert_eq!(info.name, "Isha");
    assert!(!info.is_tomorrow);
}

#[test]
fn next_jamat_wraps_to_fajr_even_when_another_is_earlier() {
    let mut t = times();
    t.isha = hm(0, 15);
    let info = next_jamat(&t, hm(23, 0), false);
    assert_eq!(info.name, "Fajr");
    assert_eq!(info.time, hm(5, 30));
    assert!(info.is_tomorrow);
    assert_eq!((info.hours, info.minutes, info.seconds), (6, 30, 0));
}

#[test]
fn next_jamat_ties_go_to_first_listed() {
    let mut t = times();
    t.asr = hm(13, 15);
    let info = next_jamat(&t, hm(12, 0), false);
    assert_eq!(info.name, "Dhuhr");
}

#[test]
fn remaining_hms_splits_wait() {
    assert_eq!(remaining_hms(hm(13, 15), hm(10, 0)), (3, 15, 0));
    assert_eq!(remaining_hms(ClockTime { secs: 3661, frac: 0 }, ClockTime { secs: 0, frac: 0 }), (1, 1, 1));
    assert_eq!(remaining_hms(hm(10, 0), hm(10, 0)), (0, 0, 0));
}

#[test]
fn remaining_hms_wraps_past_midnight() {
    assert_eq!(remaining_hms(hm(5, 0), hm(23, 0)), (6, 0, 0));
    let now = ClockTime { secs: 23 * 3600 + 59 * 60 + 59, frac: 500_000_000 };
    assert_eq!(remaining_hms(ClockTime { secs: 0, frac: 0 }, now), (0, 0, 0));
    assert_eq!(remaining_hms(ClockTime { secs: 1, frac: 0 }, now), (0, 0, 1));
}

#[test]
fn remaining_hms_truncates_fractions() {
    let now = ClockTime { secs: 100, frac: 250_000_000 };
    assert_eq!(remaining_hms(ClockTime { secs: 200, frac: 0 }, now), (0, 1, 39));
}

#[test]
fn format_iqamah_uses_twelve_hour_clock() {
    assert_eq!(format_iqamah(hm(19, 42)), "7:42 PM");
    assert_eq!(format_iqamah(hm(0, 5)), "12:05 AM");
    assert_eq!(format_iqamah(hm(12, 0)), "12:00 PM");
    assert_eq!(format_iqamah(hm(9, 7)), "9:07 AM");
}

#[test]
fn pad2_pads_to_two_digits() {
    assert_eq!(pad2(0), "00");
    assert_eq!(pad2(7), "07");
    assert_eq!(pad2(42), "42");
    assert_eq!(pad2(123), "123");
}

#[test]
fn card_data_with_times() {
    let mosque = MosqueResponse {
        id: "mosques:1".to_string(),
        name: Some("Masjid Al-Noor".to_string()),
        street: None,
        city: Some("Leeds".to_string()),
        jamat_times: Some(times()),
    };
    let card = next_prayer_card_data(&mosque, hm(19, 0), false);
    assert_eq!(card.mosque_name, "Masjid Al-Noor");
    assert_eq!(card.location, "Leeds");
    assert_eq!(card.prayer_name, "Maghrib");
    assert_eq!(card.iqamah_time, "7:42 PM");
    assert_eq!((card.hours.as_str(), card.minutes.as_str(), card.seconds.as_str()), ("00", "42", "00"));
    assert_eq!(card.total_seconds, 42 * 60);
    assert!(card.has_times);
}

#[test]
fn card_data_without_times_uses_defaults() {
    let mosque = MosqueResponse { id: "mosques:2".to_string(), name: None, street: None, city: None, jamat_times: None };
    let card = next_prayer_card_data(&mosque, hm(19, 0), false);
    assert_eq!(card.mosque_name, "Nearby mosque");
    assert_eq!(card.location, "Nearby");
    assert!(!card.has_times);
    assert_eq!(card.total_seconds, 0);
    assert_eq!(card.prayer_name, "");
}

#[test]
fn countdown_ticks_then_recomputes() {
    assert_eq!(countdown_tick(5, true), CountdownStep::Tick(4));
    assert_eq!(countdown_tick(1, false), CountdownStep::Tick(0));
    assert_eq!(countdown_tick(0, true), CountdownStep::Recompute);
    assert_eq!(countdown_tick(0, false), CountdownStep::Wait);
}

#[test]
fn countdown_parts_pad_each_component() {
    let (h, m, s) = countdown_parts(3 * 3600 + 5 * 60 + 9);
    assert_eq!((h.as_str(), m.as_str(), s.as_str()), ("03", "05", "09"));
}

fn mosque(id: &str) -> MosqueResponse {
    MosqueResponse { id: id.to_string(), name: None, street: None, city: None, jamat_times: None }
}

#[test]
fn first_mosque_of_a_lookup() {
    assert_eq!(first_mosque(MixedMosqueResponse::SingleMosque(mosque("m:1"))).map(|m| m.id), Some("m:1".to_string()));
    assert_eq!(
        first_mosque(MixedMosqueResponse::MosquesVec(vec![mosque("m:2"), mosque("m:3")])).map(|m| m.id),
        Some("m:2".to_string())
    );
    assert!(first_mosque(MixedMosqueResponse::MosquesVec(Vec::new())).is_none());
}

#[test]
fn home_mosque_prefers_a_single_favorite() {
    let fav = Some(MixedMosqueResponse::SingleMosque(mosque("fav")));
    let near = Some(MixedMosqueResponse::MosquesVec(vec![mosque("near")]));
    assert!(!needs_nearby_lookup(true, &fav));
    assert_eq!(home_mosque(true, fav, near.clone()).map(|m| m.id), Some("fav".to_string()));
    let favs = Some(MixedMosqueResponse::MosquesVec(vec![mosque("fav1")]));
    assert!(needs_nearby_lookup(true, &favs));
    assert_eq!(home_mosque(true, favs.clone(), near.clone()).map(|m| m.id), Some("near".to_string()));
    assert!(!needs_nearby_lookup(false, &favs));
    assert_eq!(home_mosque(false, favs, near).map(|m| m.id), Some("fav1".to_string()));
    assert!(home_mosque(true, None, None).is_none());
    assert!(home_mosque(false, None, Some(MixedMosqueResponse::SingleMosque(mosque("x")))).is_none());
}

#[test]
fn reminder_labels_have_placeholders() {
    let (location, name, prayer, iqamah) = reminder_labels(&None);
    assert_eq!((location.as_str(), name.as_str(), prayer.as_str(), iqamah.as_str()), ("Locating…", "Finding your mosque…", "—", "—"));
    let mut m = mosque("m:1");
    m.name = Some("Masjid Al-Noor".to_string());
    m.jamat_times = Some(times());
    let card = next_prayer_card_data(&m, hm(10, 0), false);
    let (location, name, prayer, iqamah) = reminder_labels(&Some(card));
    assert_eq!(location, "Nearby");
    assert_eq!(name, "Masjid Al-Noor");
    assert_eq!(prayer, "Dhuhr");
    assert_eq!(iqamah, "1:15 PM");
}

#[test]
fn times_chrono_holds() {
    assert!(is_valid_time(hm(23, 59)));
    assert!(!is_valid_time(ClockTime { secs: 86400, frac: 0 }));
    assert!(is_valid_time(ClockTime { secs: 59, frac: 1_500_000_000 }));
    assert!(!is_valid_time(ClockTime { secs: 58, frac: 1_500_000_000 }));
    assert!(!is_valid_time(ClockTime { secs: 59, frac: 2_000_000_000 }));
    assert!(are_valid_times(&times()));
    let mut bad = times();
    bad.isha = ClockTime { secs: 90000, frac: 0 };
    assert!(!are_valid_times(&bad));
}

#[test]
fn pad2_reads_back_without_losing_digits() {
    for v in [0u64, 7, 9, 10, 59, 99, 100, 86400, u64::MAX] {
        let s = pad2(v);
        assert!(s.chars().all(|c| c.is_ascii_digit()));
        assert_eq!(s.parse::<u64>(), Ok(v));
        assert_eq!(s.len(), std::cmp::max(2, v.to_string().len()));
    }
}

#[test]
fn card_without_times_leaves_countdown_empty() {
    let card = next_prayer_card_data(&mosque("m:9"), hm(12, 0), true);
    assert!(!card.has_times);
    assert_eq!(
        (card.prayer_name.as_str(), card.iqamah_time.as_str(), card.hours.as_str(), card.minutes.as_str(), card.seconds.as_str()),
        ("", "", "", "", "")
    );
    assert_eq!(card.total_seconds, 0);
}
