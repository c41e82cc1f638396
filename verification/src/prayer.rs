//! The next congregational prayer (jamat) and the countdown to it.

use chrono::{NaiveTime, Timelike};
use vstd::prelude::*;

use crate::text::{decimal, push_decimal, two_digits};

verus! {

/// A time of day as chrono's `NaiveTime` holds it: whole seconds since midnight
/// and a fraction in nanoseconds, which reaches past one second only during a
/// leap second.
#[derive(Clone, Copy, Debug, PartialEq, Eq, Structural)]
pub struct ClockTime {
    pub secs: u32,
    pub frac: u32,
}

impl ClockTime {
    /// The values chrono accepts for a `NaiveTime`.
    pub open spec fn wf(self) -> bool {
        &&& self.secs < 86400
        &&& self.frac < 2_000_000_000
        &&& self.frac >= 1_000_000_000 ==> self.secs % 60 == 59
    }
}

/// Whether a time of day is one chrono's `NaiveTime` holds (`ClockTime::wf`).
pub fn is_valid_time(time: ClockTime) -> (valid: bool)
    ensures
        valid == time.wf(),
{
    time.secs < 86400 && time.frac < 2_000_000_000 && (time.frac < 1_000_000_000 || time.secs % 60
        == 59)
}

/// `a` comes strictly before `b` in the day (chrono orders times by seconds,
/// then by fraction).
pub open spec fn time_before(a: ClockTime, b: ClockTime) -> bool {
    a.secs < b.secs || (a.secs == b.secs && a.frac < b.frac)
}

/// Whether `a` comes strictly before `b` in the day.
pub fn is_before(a: ClockTime, b: ClockTime) -> (before: bool)
    ensures
        before == time_before(a, b),
{
    a.secs < b.secs || (a.secs == b.secs && a.frac < b.frac)
}

/// Nanoseconds from `now` to `target` as chrono's `NaiveTime::signed_duration_since`
/// counts them: negative when `target` is earlier, with a leap second counted
/// once when the span crosses it.
pub open spec fn nanos_since(target: ClockTime, now: ClockTime) -> int {
    let leap = if target.secs > now.secs && now.frac >= 1_000_000_000 {
        1int
    } else if target.secs < now.secs && target.frac >= 1_000_000_000 {
        -1int
    } else {
        0int
    };
    (target.secs - now.secs + leap) * 1_000_000_000 + target.frac - now.frac
}

/// Whole seconds of waiting from `now` until `target`, wrapping past midnight
/// to the next day.
pub open spec fn wait_seconds(target: ClockTime, now: ClockTime) -> int {
    let delta = nanos_since(target, now);
    let delta = if delta < 0 { delta + 86_400_000_000_000 } else { delta };
    if delta < 0 { 0 } else { delta / 1_000_000_000 }
}

/// The wait split into whole hours, the minutes left over after them, and the
/// seconds left over after those.
pub open spec fn split_wait(total: int) -> (u64, u64, u64) {
    ((total / 3600) as u64, ((total % 3600) / 60) as u64, (total % 60) as u64)
}

/// Nanoseconds from `now` to `target` with chrono's
/// `NaiveTime::signed_duration_since(..).num_nanoseconds()`.
///
/// Trusted: chrono subtracts the seconds and the fractions and counts a leap
/// second once when the span crosses it; the total of two times of day always
/// fits in an `i64`.
#[verifier::external_body]
fn chrono_nanos_since(target: ClockTime, now: ClockTime) -> (nanos: i64)
    requires
        target.wf(),
        now.wf(),
    ensures
        nanos == nanos_since(target, now),
{
    let target = NaiveTime::from_num_seconds_from_midnight_opt(target.secs, target.frac).unwrap();
    let now = NaiveTime::from_num_seconds_from_midnight_opt(now.secs, now.frac).unwrap();
    target.signed_duration_since(now).num_nanoseconds().unwrap()
}

/// Hours, minutes and seconds from `now` until `target`, wrapping past midnight.
///
/// Returns the whole hours of the wait, the leftover whole minutes after those
/// hours, and the leftover seconds after those minutes.
pub fn remaining_hms(target: ClockTime, now: ClockTime) -> (hms: (u64, u64, u64))
    requires
        target.wf(),
        now.wf(),
    ensures
        hms == split_wait(wait_seconds(target, now)),
        0 <= wait_seconds(target, now) < 86402,
{
    let delta = chrono_nanos_since(target, now);
    let delta = if delta < 0 { delta + 86_400_000_000_000 } else { delta };
    let total: u64 = if delta < 0 { 0 } else { (delta / 1_000_000_000) as u64 };
    (total / 3600, (total % 3600) / 60, total % 60)
}

/// The five daily prayers, with Friday's Jumu'ah in place of Dhuhr.
#[derive(Clone, Copy, Debug, PartialEq, Eq, Structural)]
pub enum Prayer {
    Fajr,
    Dhuhr,
    Jumuah,
    Asr,
    Maghrib,
    Isha,
}

impl Prayer {
    pub open spec fn spec_label(self) -> Seq<char> {
        match self {
            Prayer::Fajr => "Fajr"@,
            Prayer::Dhuhr => "Dhuhr"@,
            Prayer::Jumuah => "Jumu'ah"@,
            Prayer::Asr => "Asr"@,
            Prayer::Maghrib => "Maghrib"@,
            Prayer::Isha => "Isha"@,
        }
    }

    /// The prayer's display name.
    pub fn label(&self) -> (label: &'static str)
        ensures
            label@ == self.spec_label(),
    {
        match self {
            Prayer::Fajr => "Fajr",
            Prayer::Dhuhr => "Dhuhr",
            Prayer::Jumuah => "Jumu'ah",
            Prayer::Asr => "Asr",
            Prayer::Maghrib => "Maghrib",
            Prayer::Isha => "Isha",
        }
    }
}

/// A mosque's times for the daily prayers and for Friday's Jumu'ah.
#[derive(Clone, Copy, Debug, PartialEq, Eq, Structural)]
pub struct PrayerTimes {
    pub fajr: ClockTime,
    pub dhuhr: ClockTime,
    pub asr: ClockTime,
    pub maghrib: ClockTime,
    pub isha: ClockTime,
    pub jummah: ClockTime,
}

impl PrayerTimes {
    pub open spec fn wf(self) -> bool {
        &&& self.fajr.wf()
        &&& self.dhuhr.wf()
        &&& self.asr.wf()
        &&& self.maghrib.wf()
        &&& self.isha.wf()
        &&& self.jummah.wf()
    }
}

/// The day's five jamat times in listed order; on Fridays Jumu'ah replaces Dhuhr.
pub open spec fn jamat_order(jamat: PrayerTimes, is_friday: bool) -> Seq<(Prayer, ClockTime)> {
    seq![
        (Prayer::Fajr, jamat.fajr),
        if is_friday { (Prayer::Jumuah, jamat.jummah) } else { (Prayer::Dhuhr, jamat.dhuhr) },
        (Prayer::Asr, jamat.asr),
        (Prayer::Maghrib, jamat.maghrib),
        (Prayer::Isha, jamat.isha),
    ]
}

/// `time` counts as a candidate: strictly after `after` when given, any time otherwise.
pub open spec fn is_candidate(time: ClockTime, after: Option<ClockTime>) -> bool {
    match after {
        Some(now) => time_before(now, time),
        None => true,
    }
}

/// Entry `i` is the earliest candidate among the first `n` entries, the one
/// listed first among equal times (what a stable sort by time and a search for
/// the first candidate pick).
pub open spec fn is_earliest(
    order: Seq<(Prayer, ClockTime)>,
    i: int,
    n: int,
    after: Option<ClockTime>,
) -> bool {
    &&& 0 <= i < n
    &&& is_candidate(order[i].1, after)
    &&& forall|j: int|
        0 <= j < n && is_candidate(#[trigger] order[j].1, after) ==> !time_before(
            order[j].1,
            order[i].1,
        ) && (order[j].1 == order[i].1 ==> i <= j)
}

/// Some jamat of the day comes strictly after `now`.
pub open spec fn has_jamat_after(order: Seq<(Prayer, ClockTime)>, now: ClockTime) -> bool {
    exists|j: int| 0 <= j < order.len() && time_before(now, #[trigger] order[j].1)
}

/// Position, in the day's order, of the jamat the countdown heads for: the
/// earliest one after `now` (the first listed among equal times), or the next
/// day's Fajr (position 0) when none is left today.
pub open spec fn upcoming_index(jamat: PrayerTimes, now: ClockTime, is_friday: bool) -> int {
    if has_jamat_after(jamat_order(jamat, is_friday), now) {
        choose|i: int| is_earliest(jamat_order(jamat, is_friday), i, 5, Some(now))
    } else {
        0
    }
}

/// The jamat the countdown heads for.
pub open spec fn upcoming_jamat(jamat: PrayerTimes, now: ClockTime, is_friday: bool) -> (
    Prayer,
    ClockTime,
) {
    jamat_order(jamat, is_friday)[upcoming_index(jamat, now, is_friday)]
}

/// At most one entry is the earliest candidate.
pub proof fn lemma_earliest_is_unique(
    order: Seq<(Prayer, ClockTime)>,
    i: int,
    k: int,
    n: int,
    after: Option<ClockTime>,
)
    requires
        is_earliest(order, i, n, after),
        is_earliest(order, k, n, after),
    ensures
        i == k,
{
    assert(!time_before(order[k].1, order[i].1));
    assert(!time_before(order[i].1, order[k].1));
    assert(order[i].1 == order[k].1);
}

/// Next iqamah with its countdown components.
#[derive(Clone, Copy, Debug, PartialEq, Eq)]
pub struct NextPrayerInfo {
    pub name: &'static str,
    pub time: ClockTime,
    pub is_tomorrow: bool,
    pub hours: u64,
    pub minutes: u64,
    pub seconds: u64,
}

impl NextPrayerInfo {
    pub fn new(
        name: &'static str,
        time: ClockTime,
        is_tomorrow: bool,
        hours: u64,
        minutes: u64,
        seconds: u64,
    ) -> (info: Self)
        ensures
            info == (NextPrayerInfo { name, time, is_tomorrow, hours, minutes, seconds }),
    {
        NextPrayerInfo { name, time, is_tomorrow, hours, minutes, seconds }
    }
}

/// First jamat strictly after `now`; wraps to tomorrow's Fajr when none is left
/// today.
///
/// On Fridays `jummah` replaces `dhuhr`. Among equal times the one listed first
/// wins.
pub fn next_jamat(jamat: &PrayerTimes, now: ClockTime, is_friday: bool) -> (info: NextPrayerInfo)
    requires
        jamat.wf(),
        now.wf(),
    ensures
        info.is_tomorrow == !has_jamat_after(jamat_order(*jamat, is_friday), now),
        has_jamat_after(jamat_order(*jamat, is_friday), now) ==> is_earliest(
            jamat_order(*jamat, is_friday),
            upcoming_index(*jamat, now, is_friday),
            5,
            Some(now),
        ),
        !has_jamat_after(jamat_order(*jamat, is_friday), now) ==> info.name@ == "Fajr"@
            && info.time == jamat.fajr,
        info.name@ == upcoming_jamat(*jamat, now, is_friday).0.spec_label(),
        info.time == upcoming_jamat(*jamat, now, is_friday).1,
        (info.hours, info.minutes, info.seconds) == split_wait(wait_seconds(info.time, now)),
{
    let ordered: Vec<(Prayer, ClockTime)> = if is_friday {
        vec![
            (Prayer::Fajr, jamat.fajr),
            (Prayer::Jumuah, jamat.jummah),
            (Prayer::Asr, jamat.asr),
            (Prayer::Maghrib, jamat.maghrib),
            (Prayer::Isha, jamat.isha),
        ]
    } else {
        vec![
            (Prayer::Fajr, jamat.fajr),
            (Prayer::Dhuhr, jamat.dhuhr),
            (Prayer::Asr, jamat.asr),
            (Prayer::Maghrib, jamat.maghrib),
            (Prayer::Isha, jamat.isha),
        ]
    };
    let ghost order = jamat_order(*jamat, is_friday);
    assert(ordered@ =~= order);
    let mut next: Option<usize> = None;
    let mut i: usize = 1;
    if is_before(now, ordered[0].1) {
        next = Some(0);
    }
    while i < 5
        invariant
            ordered@ == order,
            order.len() == 5,
            1 <= i <= 5,
            match next {
                Some(k) => is_earliest(order, k as int, i as int, Some(now)),
                None => forall|j: int| 0 <= j < i ==> !time_before(now, #[trigger] order[j].1),
            },
        decreases 5 - i,
    {
        let time = ordered[i].1;
        if is_before(now, time) {
            match next {
                Some(k) => {
                    if is_before(time, ordered[k].1) {
                        next = Some(i);
                    }
                },
                None => {
                    next = Some(i);
                },
            }
        }
        i = i + 1;
    }
    let (pick, is_tomorrow) = match next {
        Some(k) => (k, false),
        None => (0, true),
    };
    proof {
        if is_tomorrow {
            assert(!has_jamat_after(order, now));
        } else {
            assert(time_before(now, order[pick as int].1));
            assert(is_earliest(order, pick as int, 5, Some(now)));
            lemma_earliest_is_unique(
                order,
                pick as int,
                upcoming_index(*jamat, now, is_friday),
                5,
                Some(now),
            );
        }
    }
    let (prayer, time) = ordered[pick];
    let (hours, minutes, seconds) = remaining_hms(time, now);
    NextPrayerInfo::new(prayer.label(), time, is_tomorrow, hours, minutes, seconds)
}

/// The 12-hour reading of a time of day: hour without padding, two-digit
/// minutes, then `AM` before noon and `PM` from noon on (`19:42` reads
/// `7:42 PM`).
pub open spec fn twelve_hour_label(time: ClockTime) -> Seq<char> {
    let hour = time.secs / 3600;
    let minute = (time.secs % 3600) / 60;
    let hour12 = if hour % 12 == 0 { 12 } else { hour % 12 };
    decimal(hour12 as nat) + seq![':'] + two_digits(minute as nat) + if hour < 12 {
        " AM"@
    } else {
        " PM"@
    }
}

/// Formats a time with chrono's `NaiveTime::format("%-I:%M %p")`.
///
/// Trusted: `%-I` writes the hour on the 12-hour clock (12 for hour 0 and hour
/// 12) without padding, `%M` the minutes with two digits, and `%p` writes `AM`
/// before noon and `PM` from noon on.
#[verifier::external_body]
fn chrono_format_12h(time: ClockTime) -> (text: String)
    requires
        time.wf(),
    ensures
        text@ == twelve_hour_label(time),
{
    let time = NaiveTime::from_num_seconds_from_midnight_opt(time.secs, time.frac).unwrap();
    time.format("%-I:%M %p").to_string()
}

/// `"19:42"` -> `"7:42 PM"`.
pub fn format_iqamah(time: ClockTime) -> (text: String)
    requires
        time.wf(),
    ensures
        text@ == twelve_hour_label(time),
{
    chrono_format_12h(time)
}

/// `value` in decimal, padded with a leading zero to two digits.
pub fn pad2(value: u64) -> (text: String)
    ensures
        text@ == two_digits(value as nat),
{
    let mut text = String::new();
    if value < 10 {
        text.append("0");
        proof {
            reveal_strlit("0");
        }
    }
    push_decimal(&mut text, value);
    proof {
        if value < 10 {
            assert(decimal(value as nat) =~= seq![crate::text::digit_char(value as nat)]);
        }
    }
    text
}

/// The countdown parts recombine to the whole wait: minutes and seconds stay
/// below sixty, and the wait is at most a day and a leap second; when neither
/// time falls in a leap second it is less than a day.
pub proof fn law_countdown_recombines(target: ClockTime, now: ClockTime)
    requires
        target.wf(),
        now.wf(),
    ensures
        ({
            let wait = wait_seconds(target, now);
            let (h, m, s) = split_wait(wait);
            &&& h * 3600 + m * 60 + s == wait
            &&& m < 60
            &&& s < 60
            &&& h <= 24
            &&& (target.frac < 1_000_000_000 && now.frac < 1_000_000_000) ==> wait < 86400
        }),
{
    let wait = wait_seconds(target, now);
    assert(0 <= wait < 86402) by {
        let delta = nanos_since(target, now);
        assert(-86402_000_000_000 < delta < 86402_000_000_000);
        let d2 = if delta < 0 { delta + 86_400_000_000_000 } else { delta };
        if d2 >= 0 {
            vstd::arithmetic::div_mod::lemma_div_is_ordered(d2, 86402_000_000_000 - 1, 1_000_000_000);
        }
    }
    vstd::arithmetic::div_mod::lemma_fundamental_div_mod(wait, 3600);
    vstd::arithmetic::div_mod::lemma_fundamental_div_mod(wait % 3600, 60);
    vstd::arithmetic::div_mod::lemma_fundamental_div_mod(wait, 60);
    vstd::arithmetic::div_mod::lemma_mod_mod(wait, 3600, 60);
}

/// Past the day's last jamat the countdown wraps to tomorrow's Fajr, whatever
/// the day's times are.
pub proof fn law_wraps_to_fajr(jamat: PrayerTimes, now: ClockTime, is_friday: bool)
    requires
        !has_jamat_after(jamat_order(jamat, is_friday), now),
    ensures
        upcoming_jamat(jamat, now, is_friday) == (Prayer::Fajr, jamat.fajr),
{
}

/// What the home page's once-a-second countdown does next.
#[derive(Clone, Copy, Debug, PartialEq, Eq, Structural)]
pub enum CountdownStep {
    /// Show this many seconds left.
    Tick(u64),
    /// The prayer time is reached: compute the next prayer.
    Recompute,
    /// Nothing to count down.
    Wait,
}

/// One second of the countdown: count down while time is left; at zero, move on
/// to the next prayer when the mosque has jamat times.
pub fn countdown_tick(remaining: u64, has_times: bool) -> (step: CountdownStep)
    ensures
        remaining > 0 ==> step == CountdownStep::Tick((remaining - 1) as u64),
        remaining == 0 && has_times ==> step == CountdownStep::Recompute,
        remaining == 0 && !has_times ==> step == CountdownStep::Wait,
{
    if remaining > 0 {
        CountdownStep::Tick(remaining - 1)
    } else if has_times {
        CountdownStep::Recompute
    } else {
        CountdownStep::Wait
    }
}

/// The hours, minutes and seconds shown for `left` seconds, each padded to two
/// digits.
pub fn countdown_parts(left: u64) -> (parts: (String, String, String))
    ensures
        parts.0@ == two_digits((left / 3600) as nat),
        parts.1@ == two_digits(((left % 3600) / 60) as nat),
        parts.2@ == two_digits((left % 60) as nat),
{
    (pad2(left / 3600), pad2((left % 3600) / 60), pad2(left % 60))
}

/// Whether every jamat time is one chrono's `NaiveTime` holds.
pub fn are_valid_times(times: &PrayerTimes) -> (valid: bool)
    ensures
        valid == times.wf(),
{
    is_valid_time(times.fajr) && is_valid_time(times.dhuhr) && is_valid_time(times.asr)
        && is_valid_time(times.maghrib) && is_valid_time(times.isha) && is_valid_time(times.jummah)
}

/// A mosque as the prayer countdown reads it.
#[derive(Clone, Debug)]
pub struct MosqueResponse {
    pub id: String,
    pub name: Option<String>,
    pub street: Option<String>,
    pub city: Option<String>,
    pub jamat_times: Option<PrayerTimes>,
}

/// Everything the next-prayer reminder card shows.
#[derive(Clone, Debug)]
pub struct NextPrayerCardData {
    pub mosque_name: String,
    pub location: String,
    pub prayer_name: String,
    pub iqamah_time: String,
    pub hours: String,
    pub minutes: String,
    pub seconds: String,
    pub total_seconds: u64,
    pub has_times: bool,
}

impl NextPrayerCardData {
    pub fn new(
        mosque_name: String,
        location: String,
        prayer_name: String,
        iqamah_time: String,
        hours: String,
        minutes: String,
        seconds: String,
        total_seconds: u64,
        has_times: bool,
    ) -> (card: Self)
        ensures
            card.mosque_name == mosque_name,
            card.location == location,
            card.prayer_name == prayer_name,
            card.iqamah_time == iqamah_time,
            card.hours == hours,
            card.minutes == minutes,
            card.seconds == seconds,
            card.total_seconds == total_seconds,
            card.has_times == has_times,
    {
        NextPrayerCardData {
            mosque_name,
            location,
            prayer_name,
            iqamah_time,
            hours,
            minutes,
            seconds,
            total_seconds,
            has_times,
        }
    }

    /// A card for a mosque without jamat times: no prayer, no countdown.
    pub fn without_times(mosque_name: String, location: String) -> (card: Self)
        ensures
            card.mosque_name == mosque_name,
            card.location == location,
            card.prayer_name@ == Seq::<char>::empty(),
            card.iqamah_time@ == Seq::<char>::empty(),
            card.hours@ == Seq::<char>::empty(),
            card.minutes@ == Seq::<char>::empty(),
            card.seconds@ == Seq::<char>::empty(),
            card.total_seconds == 0,
            !card.has_times,
    {
        NextPrayerCardData {
            mosque_name,
            location,
            prayer_name: String::new(),
            iqamah_time: String::new(),
            hours: String::new(),
            minutes: String::new(),
            seconds: String::new(),
            total_seconds: 0,
            has_times: false,
        }
    }
}

/// The text of an optional string, or `fallback` when there is none.
fn text_or(value: &Option<String>, fallback: &str) -> (text: String)
    ensures
        text@ == (match value {
            Some(v) => v@,
            None => fallback@,
        }),
{
    match value {
        Some(v) => v.clone(),
        None => fallback.to_string(),
    }
}

/// Builds everything `NextPrayerReminderCard` needs from one mosque.
///
/// Missing `jamat_times` yields a `has_times: false` placeholder instead of
/// a countdown, so the page never has to branch on prayer math itself.
pub fn next_prayer_card_data(mosque: &MosqueResponse, now: ClockTime, is_friday: bool) -> (card:
    NextPrayerCardData)
    requires
        now.wf(),
        mosque.jamat_times matches Some(j) ==> j.wf(),
    ensures
        card.mosque_name@ == (match mosque.name {
            Some(n) => n@,
            None => "Nearby mosque"@,
        }),
        card.location@ == (match mosque.city {
            Some(c) => c@,
            None => "Nearby"@,
        }),
        card.has_times == mosque.jamat_times is Some,
        match mosque.jamat_times {
            None => {
                &&& card.prayer_name@ == Seq::<char>::empty()
                &&& card.iqamah_time@ == Seq::<char>::empty()
                &&& card.hours@ == Seq::<char>::empty()
                &&& card.minutes@ == Seq::<char>::empty()
                &&& card.seconds@ == Seq::<char>::empty()
                &&& card.total_seconds == 0
            },
            Some(jamat) => {
                let (prayer, time) = upcoming_jamat(jamat, now, is_friday);
                let (h, m, sec) = split_wait(wait_seconds(time, now));
                &&& card.prayer_name@ == prayer.spec_label()
                &&& card.iqamah_time@ == twelve_hour_label(time)
                &&& card.total_seconds == wait_seconds(time, now)
                &&& card.total_seconds == h * 3600 + m * 60 + sec
                &&& card.hours@ == two_digits(h as nat)
                &&& card.minutes@ == two_digits(m as nat)
                &&& card.seconds@ == two_digits(sec as nat)
            },
        },
{
    let mosque_name = text_or(&mosque.name, "Nearby mosque");
    let location = text_or(&mosque.city, "Nearby");
    match &mosque.jamat_times {
        None => NextPrayerCardData::without_times(mosque_name, location),
        Some(jamat) => {
            let info = next_jamat(jamat, now, is_friday);
            let total_seconds = info.hours * 3600 + info.minutes * 60 + info.seconds;
            NextPrayerCardData::new(
                mosque_name,
                location,
                info.name.to_string(),
                format_iqamah(info.time),
                pad2(info.hours),
                pad2(info.minutes),
                pad2(info.seconds),
                total_seconds,
                true,
            )
        },
    }
}

/// One mosque or a list of them, as the mosque lookups answer.
#[derive(Clone, Debug)]
pub enum MixedMosqueResponse {
    SingleMosque(MosqueResponse),
    MosquesVec(Vec<MosqueResponse>),
}

/// The mosque a lookup answered: the single one, or the first of the list.
pub fn first_mosque(response: MixedMosqueResponse) -> (mosque: Option<MosqueResponse>)
    ensures
        match response {
            MixedMosqueResponse::SingleMosque(m) => mosque == Some(m),
            MixedMosqueResponse::MosquesVec(list) => if list@.len() > 0 {
                mosque == Some(list@[0])
            } else {
                mosque is None
            },
        },
{
    match response {
        MixedMosqueResponse::SingleMosque(m) => Some(m),
        MixedMosqueResponse::MosquesVec(mut list) => {
            if list.len() > 0 {
                Some(list.remove(0))
            } else {
                None
            }
        },
    }
}

/// The mosque the home page counts down for. With the visitor's position: the
/// favorite when the lookup names a single one, else the first mosque near the
/// position (`nearby`). Without a position: the first favorite.
pub fn home_mosque(
    has_position: bool,
    favorite: Option<MixedMosqueResponse>,
    nearby: Option<MixedMosqueResponse>,
) -> (mosque: Option<MosqueResponse>)
    ensures
        has_position ==> match favorite {
            Some(MixedMosqueResponse::SingleMosque(m)) => mosque == Some(m),
            _ => match nearby {
                Some(MixedMosqueResponse::SingleMosque(m)) => mosque == Some(m),
                Some(MixedMosqueResponse::MosquesVec(list)) => if list@.len() > 0 {
                    mosque == Some(list@[0])
                } else {
                    mosque is None
                },
                None => mosque is None,
            },
        },
        !has_position ==> match favorite {
            Some(MixedMosqueResponse::SingleMosque(m)) => mosque == Some(m),
            Some(MixedMosqueResponse::MosquesVec(list)) => if list@.len() > 0 {
                mosque == Some(list@[0])
            } else {
                mosque is None
            },
            None => mosque is None,
        },
{
    if has_position {
        match favorite {
            Some(MixedMosqueResponse::SingleMosque(m)) => Some(m),
            _ => match nearby {
                Some(found) => first_mosque(found),
                None => None,
            },
        }
    } else {
        match favorite {
            Some(found) => first_mosque(found),
            None => None,
        }
    }
}

/// Whether the home page must look up nearby mosques: it has the visitor's
/// position and the favorite lookup did not name a single mosque.
pub fn needs_nearby_lookup(has_position: bool, favorite: &Option<MixedMosqueResponse>) -> (needed:
    bool)
    ensures
        needed == (has_position && !(favorite matches Some(MixedMosqueResponse::SingleMosque(_)))),
{
    match favorite {
        Some(MixedMosqueResponse::SingleMosque(_)) => false,
        _ => has_position,
    }
}

/// The texts of the reminder card header while the card may still be missing:
/// `(location, mosque name, prayer name, iqamah time)`, with placeholders until
/// a card is computed.
pub fn reminder_labels(card: &Option<NextPrayerCardData>) -> (labels: (String, String, String, String))
    ensures
        match card {
            Some(c) => labels.0@ == c.location@ && labels.1@ == c.mosque_name@ && labels.2@
                == c.prayer_name@ && labels.3@ == c.iqamah_time@,
            None => labels.0@ == "Locating…"@ && labels.1@ == "Finding your mosque…"@ && labels.2@
                == "—"@ && labels.3@ == "—"@,
        },
{
    match card {
        Some(c) => (c.location.clone(), c.mosque_name.clone(), c.prayer_name.clone(), c.iqamah_time.clone()),
        None => (
            "Locating…".to_string(),
            "Finding your mosque…".to_string(),
            "—".to_string(),
            "—".to_string(),
        ),
    }
}

} // verus!
