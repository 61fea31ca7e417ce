//! The texts that the viewer shows for tiers, roles, teams, results, durations and
//! ages of games.
use vstd::prelude::*;
use crate::game::{Result, Role};
use crate::summoner::league::{Division, Tier};
use crate::text::{decimal, i64_to_decimal, signed_decimal, u64_to_decimal};
use crate::Team;

verus! {

/// The name of a tier.
pub open spec fn tier_text(tier: Tier) -> Seq<char> {
    match tier {
        Tier::Iron(_) => "Iron"@,
        Tier::Bronze(_) => "Bronze"@,
        Tier::Silver(_) => "Silver"@,
        Tier::Gold(_) => "Gold"@,
        Tier::Platinum(_) => "Platinum"@,
        Tier::Emerald(_) => "Emerald"@,
        Tier::Diamond(_) => "Diamond"@,
        Tier::Master(_) => "Master"@,
        Tier::Grandmaster(_) => "Grandmaster"@,
        Tier::Challenger(_) => "Challenger"@,
    }
}

/// The number of a division.
pub open spec fn division_text(division: Division) -> Seq<char> {
    match division {
        Division::One(_) => "1"@,
        Division::Two(_) => "2"@,
        Division::Three(_) => "3"@,
        Division::Four(_) => "4"@,
    }
}

/// A tier's division number below Master, its league points from Master up.
pub open spec fn division_or_points_text(tier: Tier) -> Seq<char> {
    match tier {
        Tier::Iron(d) | Tier::Bronze(d) | Tier::Silver(d) | Tier::Gold(d) | Tier::Platinum(d)
        | Tier::Emerald(d) | Tier::Diamond(d) => division_text(d),
        Tier::Master(p) | Tier::Grandmaster(p) | Tier::Challenger(p) => decimal(p as nat),
    }
}

pub fn tier(t: Tier) -> (s: String)
    ensures
        s@ == tier_text(t),
{
    let name = match t {
        Tier::Iron(_) => "Iron",
        Tier::Bronze(_) => "Bronze",
        Tier::Silver(_) => "Silver",
        Tier::Gold(_) => "Gold",
        Tier::Platinum(_) => "Platinum",
        Tier::Emerald(_) => "Emerald",
        Tier::Diamond(_) => "Diamond",
        Tier::Master(_) => "Master",
        Tier::Grandmaster(_) => "Grandmaster",
        Tier::Challenger(_) => "Challenger",
    };
    String::from_str(name)
}

pub fn division_or_points(tier: Tier) -> (s: String)
    ensures
        s@ == division_or_points_text(tier),
{
    match tier {
        Tier::Iron(d) | Tier::Bronze(d) | Tier::Silver(d) | Tier::Gold(d) | Tier::Platinum(d)
        | Tier::Emerald(d) | Tier::Diamond(d) => division(d),
        Tier::Master(p) | Tier::Grandmaster(p) | Tier::Challenger(p) => u64_to_decimal(p as u64),
    }
}

pub fn division(d: Division) -> (s: String)
    ensures
        s@ == division_text(d),
{
    let n = match d {
        Division::One(_) => "1",
        Division::Two(_) => "2",
        Division::Three(_) => "3",
        Division::Four(_) => "4",
    };
    String::from_str(n)
}

/// At most the first two characters of `s`, as a `{:.2}` format of a string keeps.
pub open spec fn first_two(s: Seq<char>) -> Seq<char> {
    if s.len() <= 2 {
        s
    } else {
        s.take(2)
    }
}

/// The text of a game length of `seconds` seconds: the whole minutes, then the
/// whole seconds, each cut to its first two characters.
pub open spec fn duration_text(seconds: int) -> Seq<char> {
    first_two(signed_decimal(if seconds >= 0 { seconds / 60 } else { -((-seconds) / 60) }))
        + "m "@ + first_two(signed_decimal(seconds)) + "s"@
}

fn first_two_of(s: String) -> (r: String)
    ensures
        r@ == first_two(s@),
{
    if s.unicode_len() <= 2 {
        s
    } else {
        String::from_str(s.as_str().substring_char(0, 2))
    }
}

/// The text of a game that lasted `seconds` seconds.
pub fn duration(seconds: i64) -> (s: String)
    ensures
        s@ == duration_text(seconds as int),
{
    let minutes = seconds / 60;
    let mut s = first_two_of(i64_to_decimal(minutes));
    s.append("m ");
    let secs = first_two_of(i64_to_decimal(seconds));
    s.append(secs.as_str());
    s.append("s");
    s
}

/// `unit` for one, `unit` with an `s` otherwise.
pub open spec fn units_ago(n: int, unit: Seq<char>) -> Seq<char> {
    decimal(n as nat) + " "@ + unit + (if n == 1 { ""@ } else { "s"@ }) + " ago"@
}

/// How long ago something happened, for an elapsed time of `seconds` whole seconds.
pub open spec fn time_since_text(seconds: int) -> Seq<char> {
    let minutes = seconds / 60;
    let hours = minutes / 60;
    let days = hours / 24;
    let weeks = days / 7;
    let months = days / 30;
    let years = days / 365;
    if seconds < 60 {
        "few seconds ago"@
    } else if minutes < 60 {
        units_ago(minutes, "minute"@)
    } else if hours < 24 {
        units_ago(hours, "hour"@)
    } else if days < 7 {
        if days == 1 { "yesterday"@ } else { decimal(days as nat) + " days ago"@ }
    } else if weeks < 4 {
        if weeks == 1 { "last week"@ } else { decimal(weeks as nat) + " weeks ago"@ }
    } else if months < 12 {
        if months <= 1 { "last month"@ } else { decimal(months as nat) + " months ago"@ }
    } else {
        if years <= 1 { "last year"@ } else { decimal(years as nat) + " years ago"@ }
    }
}

/// Nested whole divisions by 60, 60 and 24 count whole days.
proof fn lemma_whole_days(seconds: int)
    requires
        seconds >= 0,
    ensures
        ((seconds / 60) / 60) / 24 == seconds / 86400,
        (seconds / 60) / 60 == seconds / 3600,
{
    vstd::arithmetic::div_mod::lemma_div_denominator(seconds, 60, 60);
    vstd::arithmetic::div_mod::lemma_div_denominator(seconds, 3600, 24);
}

/// How long ago something happened, by the whole seconds elapsed: under a minute is
/// "few seconds ago"; then whole minutes, hours, days ("yesterday" for one), weeks
/// ("last week" for one, below four), months of 30 days ("last month" for at most one,
/// below twelve) and years of 365 days ("last year" for at most one).
pub proof fn lemma_time_since_ranges(seconds: int)
    ensures
        seconds < 60 ==> time_since_text(seconds) == "few seconds ago"@,
        60 <= seconds < 3600 ==> time_since_text(seconds) == decimal((seconds / 60) as nat) + " minute"@
            + (if seconds / 60 == 1 { ""@ } else { "s"@ }) + " ago"@,
        3600 <= seconds < 86400 ==> time_since_text(seconds) == decimal((seconds / 3600) as nat) + " hour"@
            + (if seconds / 3600 == 1 { ""@ } else { "s"@ }) + " ago"@,
        86400 <= seconds < 172800 ==> time_since_text(seconds) == "yesterday"@,
        172800 <= seconds < 604800 ==> time_since_text(seconds) == decimal((seconds / 86400) as nat)
            + " days ago"@,
        604800 <= seconds < 1209600 ==> time_since_text(seconds) == "last week"@,
        1209600 <= seconds < 2419200 ==> time_since_text(seconds) == decimal((seconds / 604800) as nat)
            + " weeks ago"@,
        2419200 <= seconds < 5184000 ==> time_since_text(seconds) == "last month"@,
        5184000 <= seconds < 31104000 ==> time_since_text(seconds) == decimal((seconds / 2592000) as nat)
            + " months ago"@,
        31104000 <= seconds < 63072000 ==> time_since_text(seconds) == "last year"@,
        63072000 <= seconds ==> time_since_text(seconds) == decimal((seconds / 31536000) as nat)
            + " years ago"@,
{
    if seconds >= 0 {
        lemma_whole_days(seconds);
        vstd::arithmetic::div_mod::lemma_div_denominator(seconds, 86400, 7);
        vstd::arithmetic::div_mod::lemma_div_denominator(seconds, 86400, 30);
        vstd::arithmetic::div_mod::lemma_div_denominator(seconds, 86400, 365);
    }
    reveal_strlit(" ");
    reveal_strlit("minute");
    reveal_strlit(" minute");
    reveal_strlit("hour");
    reveal_strlit(" hour");
    assert(" "@ + "minute"@ =~= " minute"@);
    assert(" "@ + "hour"@ =~= " hour"@);
    if 60 <= seconds < 3600 {
        let n = decimal((seconds / 60) as nat);
        let e = if seconds / 60 == 1 { ""@ } else { "s"@ };
        assert(n + " "@ + "minute"@ + e + " ago"@ =~= n + " minute"@ + e + " ago"@);
    }
    if 3600 <= seconds < 86400 {
        let n = decimal((seconds / 3600) as nat);
        let e = if seconds / 3600 == 1 { ""@ } else { "s"@ };
        assert(n + " "@ + "hour"@ + e + " ago"@ =~= n + " hour"@ + e + " ago"@);
    }
}

/// Something that happened between one and two days ago was "yesterday", and only
/// then; between two and seven days ago it was that many whole days ago.
pub proof fn lemma_time_since_days(seconds: int)
    ensures
        time_since_text(seconds) == "yesterday"@ <==> 86400 <= seconds < 172800,
        172800 <= seconds < 604800 ==> time_since_text(seconds) == decimal((seconds / 86400) as nat)
            + " days ago"@,
{
    reveal_strlit("yesterday");
    reveal_strlit("few seconds ago");
    reveal_strlit(" ago");
    reveal_strlit(" days ago");
    reveal_strlit(" weeks ago");
    reveal_strlit(" months ago");
    reveal_strlit(" years ago");
    reveal_strlit("last week");
    reveal_strlit("last month");
    reveal_strlit("last year");
    let y = "yesterday"@;
    assert(y.len() == 9 && y[8] == 'y');
    if seconds >= 0 {
        lemma_whole_days(seconds);
    }
    let t = time_since_text(seconds);
    if !(86400 <= seconds < 172800) {
        if seconds < 60 {
            let f = "few seconds ago"@;
            assert(f.len() == 15);
        } else {
            let minutes = seconds / 60;
            let hours = minutes / 60;
            let days = hours / 24;
            assert(days == seconds / 86400);
            if minutes < 60 || hours < 24 {
                let a = " ago"@;
                assert(a.len() == 4 && a[3] == 'o');
                assert(t.last() == 'o');
            } else if days < 7 {
                assert(days >= 2);
                let a = " days ago"@;
                assert(a.len() == 9 && a[8] == 'o');
                assert(t.last() == 'o');
            } else if days / 7 < 4 {
                let a = " weeks ago"@;
                let b = "last week"@;
                assert(a.len() == 10 && a[9] == 'o');
                assert(b.len() == 9 && b[8] == 'k');
                assert(t.last() != 'y');
            } else if days / 30 < 12 {
                let a = " months ago"@;
                let b = "last month"@;
                assert(a.len() == 11 && a[10] == 'o');
                assert(b.len() == 10);
                assert(t.last() != 'y' || t.len() != 9);
            } else {
                let a = " years ago"@;
                let b = "last year"@;
                assert(a.len() == 10 && a[9] == 'o');
                assert(b.len() == 9 && b[8] == 'r');
                assert(t.last() != 'y');
            }
        }
        assert(t != y);
    }
}

/// The whole seconds from `since` to `now`, both Unix times in nanoseconds, rounded
/// toward zero.
pub open spec fn elapsed_seconds(now: int, since: int) -> int {
    let d = now - since;
    if d >= 0 { d / 1_000_000_000 } else { -((-d) / 1_000_000_000) }
}

/// The largest magnitude of a Unix time in nanoseconds that a date can have.
pub open spec fn max_unix_nanos() -> int {
    1_000_000_000_000_000_000_000
}

fn units_ago_text(n: i64, unit: &str) -> (s: String)
    requires
        n >= 0,
    ensures
        s@ == units_ago(n as int, unit@),
{
    let mut s = u64_to_decimal(n as u64);
    s.append(" ");
    s.append(unit);
    if n != 1 {
        s.append("s");
    }
    s.append(" ago");
    proof {
        reveal_strlit("");
    }
    assert(s@ =~= units_ago(n as int, unit@));
    s
}

fn count_ago_text(n: i64, rest: &str) -> (s: String)
    requires
        n >= 0,
    ensures
        s@ == decimal(n as nat) + rest@,
{
    let mut s = u64_to_decimal(n as u64);
    s.append(rest);
    s
}

/// How long ago `since` was at `now`, both Unix times in nanoseconds.
pub fn time_since(now: i128, since: i128) -> (s: String)
    requires
        -max_unix_nanos() <= now <= max_unix_nanos(),
        -max_unix_nanos() <= since <= max_unix_nanos(),
    ensures
        s@ == time_since_text(elapsed_seconds(now as int, since as int)),
        s@ == "yesterday"@ <==> 86400 <= elapsed_seconds(now as int, since as int) < 172800,
        172800 <= elapsed_seconds(now as int, since as int) < 604800 ==> s@ == decimal(
            (elapsed_seconds(now as int, since as int) / 86400) as nat,
        ) + " days ago"@,
{
    proof {
        lemma_time_since_days(elapsed_seconds(now as int, since as int));
    }
    let d: i128 = now - since;
    let seconds: i64 = (d / 1_000_000_000) as i64;
    assert(seconds as int == elapsed_seconds(now as int, since as int));
    let minutes = seconds / 60;
    let hours = minutes / 60;
    let days = hours / 24;
    let weeks = days / 7;
    let months = days / 30;
    let years = days / 365;
    if seconds < 60 {
        String::from_str("few seconds ago")
    } else if minutes < 60 {
        units_ago_text(minutes, "minute")
    } else if hours < 24 {
        units_ago_text(hours, "hour")
    } else if days < 7 {
        if days == 1 {
            String::from_str("yesterday")
        } else {
            count_ago_text(days, " days ago")
        }
    } else if weeks < 4 {
        if weeks == 1 {
            String::from_str("last week")
        } else {
            count_ago_text(weeks, " weeks ago")
        }
    } else if months < 12 {
        if months <= 1 {
            String::from_str("last month")
        } else {
            count_ago_text(months, " months ago")
        }
    } else {
        if years <= 1 {
            String::from_str("last year")
        } else {
            count_ago_text(years, " years ago")
        }
    }
}

/// The name of a role.
pub open spec fn role_text(role: Role) -> Seq<char> {
    match role {
        Role::Bottom => "Bottom"@,
        Role::Jungle => "Jungle"@,
        Role::Mid => "Mid"@,
        Role::Support => "Support"@,
        Role::Top => "Top"@,
    }
}

pub fn role(r: Role) -> (s: String)
    ensures
        s@ == role_text(r),
{
    let name = match r {
        Role::Bottom => "Bottom",
        Role::Jungle => "Jungle",
        Role::Mid => "Mid",
        Role::Support => "Support",
        Role::Top => "Top",
    };
    String::from_str(name)
}

/// The name of the blue or the red side.
pub fn team(t: Team) -> (s: String)
    requires
        t == Team(100) || t == Team(200),
    ensures
        t == Team(100) ==> s@ == "Blue team"@,
        t == Team(200) ==> s@ == "Red team"@,
{
    if t.0 == 100 {
        String::from_str("Blue team")
    } else {
        String::from_str("Red team")
    }
}

/// The word for a result: a surrender is a defeat.
pub open spec fn win_text(result: Result) -> Seq<char> {
    match result {
        Result::Remake => "Remake"@,
        Result::Defeat | Result::Surrender => "Defeat"@,
        Result::Victory => "Victory"@,
    }
}

/// A game reads "Victory" exactly when it was won, "Defeat" exactly when it was lost
/// (a surrender counts as lost), and "Remake" otherwise.
pub proof fn lemma_win_text(result: Result)
    ensures
        win_text(result) == "Victory"@ <==> result == Result::Victory,
        win_text(result) == "Defeat"@ <==> (result == Result::Defeat || result == Result::Surrender),
        win_text(result) == "Remake"@ <==> result == Result::Remake,
{
    reveal_strlit("Victory");
    reveal_strlit("Defeat");
    reveal_strlit("Remake");
    assert("Victory"@.len() == 7 && "Defeat"@.len() == 6 && "Remake"@.len() == 6);
    assert("Defeat"@[0] == 'D' && "Remake"@[0] == 'R');
}

pub fn win(result: Result) -> (s: String)
    ensures
        s@ == win_text(result),
{
    let word = match result {
        Result::Remake => "Remake",
        Result::Defeat | Result::Surrender => "Defeat",
        Result::Victory => "Victory",
    };
    String::from_str(word)
}

pub fn vision_score(score: u32) -> (s: String)
    ensures
        s@ == decimal(score as nat) + " vision"@,
{
    let mut s = u64_to_decimal(score as u64);
    s.append(" vision");
    s
}


/// The tier as the ranked overview heads it: the name alone from Master up, the name
/// and the division number below.
pub open spec fn ranked_tier_text(tier: Tier) -> Seq<char> {
    match tier {
        Tier::Master(_) | Tier::Grandmaster(_) | Tier::Challenger(_) => tier_text(tier),
        _ => tier_text(tier) + " "@ + division_or_points_text(tier),
    }
}

pub fn ranked_tier(t: Tier) -> (s: String)
    ensures
        s@ == ranked_tier_text(t),
{
    match t {
        Tier::Master(_) | Tier::Grandmaster(_) | Tier::Challenger(_) => tier(t),
        _ => {
            let mut s = tier(t);
            s.append(" ");
            let d = division_or_points(t);
            s.append(d.as_str());
            proof {
                reveal_strlit(" ");
            }
            s
        },
    }
}

/// The league points as the ranked overview shows them, such as `75 LP`.
pub fn league_points(points: u16) -> (s: String)
    ensures
        s@ == decimal(points as nat) + " LP"@,
{
    let mut s = u64_to_decimal(points as u64);
    s.append(" LP");
    s
}

/// Wins and losses as the ranked overview shows them, such as `30W 20L`.
pub fn record(wins: u16, losses: u16) -> (s: String)
    ensures
        s@ == decimal(wins as nat) + "W "@ + decimal(losses as nat) + "L"@,
{
    let mut s = u64_to_decimal(wins as u64);
    s.append("W ");
    let l = u64_to_decimal(losses as u64);
    s.append(l.as_str());
    s.append("L");
    s
}

} // verus!
