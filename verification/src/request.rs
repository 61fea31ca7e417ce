//! The worker's request paths: how the viewer writes a summoner's Riot ID, region and
//! PUUID into a path, and how the worker reads the Riot ID back.
use vstd::prelude::*;
use crate::Region;
use crate::riot::platform_name;
use crate::text::{i64_to_decimal, signed_decimal};

verus! {

/// `s` with each `from` replaced by `to`.
pub open spec fn replaced(s: Seq<char>, from: char, to: char) -> Seq<char> {
    s.map_values(|c: char| if c == from { to } else { c })
}

/// A copy of `s` with each `from` replaced by `to`.
fn replace_char(s: &str, from: char, to: char, to_text: &str) -> (r: String)
    requires
        to_text@ == seq![to],
    ensures
        r@ == replaced(s@, from, to),
{
    let n = s.unicode_len();
    let mut out = String::new();
    let mut start: usize = 0;
    let mut i: usize = 0;
    while i < n
        invariant
            n == s@.len(),
            to_text@ == seq![to],
            start <= i <= n,
            out@ + s@.subrange(start as int, i as int) == replaced(s@.take(i as int), from, to),
        decreases n - i,
    {
        let c = s.get_char(i);
        assert(s@.take(i + 1) =~= s@.take(i as int).push(c));
        assert(replaced(s@.take(i + 1), from, to) =~= replaced(s@.take(i as int), from, to).push(
            if c == from { to } else { c },
        ));
        if c == from {
            let ghost old_out = out@;
            let part = s.substring_char(start, i);
            out.append(part);
            out.append(to_text);
            assert(out@ =~= old_out + s@.subrange(start as int, i as int) + seq![to]);
            assert(out@ =~= replaced(s@.take(i + 1), from, to));
            start = i + 1;
            assert(s@.subrange(start as int, i + 1) =~= Seq::<char>::empty());
        } else {
            assert(s@.subrange(start as int, i + 1) =~= s@.subrange(start as int, i as int).push(c));
        }
        i = i + 1;
    }
    let part = s.substring_char(start, n);
    out.append(part);
    assert(s@.take(n as int) =~= s@);
    out
}

/// The Riot ID as a path writes it: each `#` becomes a `-`.
pub fn riot_id_to_path(riot_id: &str) -> (r: String)
    ensures
        r@ == replaced(riot_id@, '#', '-'),
{
    let dash = "-";
    proof {
        reveal_strlit("-");
        assert(dash@ =~= seq!['-']);
    }
    replace_char(riot_id, '#', '-', dash)
}

/// The Riot ID that a path holds: each `-` is read as a `#`.
pub fn riot_id_from_path(path: &str) -> (r: String)
    ensures
        r@ == replaced(path@, '-', '#'),
{
    let hash = "#";
    proof {
        reveal_strlit("#");
        assert(hash@ =~= seq!['#']);
    }
    replace_char(path, '-', '#', hash)
}

/// A Riot ID without `-` comes back from its path unchanged.
pub proof fn lemma_path_round_trip(riot_id: Seq<char>)
    requires
        !riot_id.contains('-'),
    ensures
        replaced(replaced(riot_id, '#', '-'), '-', '#') == riot_id,
{
    let there = replaced(riot_id, '#', '-');
    assert forall|k: int| 0 <= k < riot_id.len() implies replaced(there, '-', '#')[k] == riot_id[k] by {
        if riot_id[k] == '-' {
            assert(riot_id.contains('-'));
        }
    }
    assert(replaced(there, '-', '#') =~= riot_id);
}

/// The worker's path for a summoner's data: `{worker}/summoner/{region}/{riot id}`,
/// the Riot ID written with `-` for `#`.
pub open spec fn summoner_path_spec(worker_url: Seq<char>, region: Seq<char>, riot_id: Seq<char>) -> Seq<char> {
    worker_url + "/summoner/"@ + region + "/"@ + replaced(riot_id, '#', '-')
}

pub fn summoner_path(worker_url: &str, region: &Region, riot_id: &str) -> (r: String)
    ensures
        r@ == summoner_path_spec(worker_url@, platform_name(region@), riot_id@),
{
    let mut path = String::from_str(worker_url);
    path.append("/summoner/");
    let name = region.to_string();
    path.append(name.as_str());
    path.append("/");
    let id = riot_id_to_path(riot_id);
    path.append(id.as_str());
    proof {
        reveal_strlit("/summoner/");
        reveal_strlit("/");
    }
    path
}

/// The worker's path for a summoner's games: `{worker}/matches/{puuid}`, followed by
/// `?end_time={time}` where a time is given.
pub open spec fn matches_path_spec(worker_url: Seq<char>, puuid: Seq<char>, end_time: Option<i64>) -> Seq<char> {
    worker_url + "/matches/"@ + puuid + match end_time {
        Some(t) => "?end_time="@ + signed_decimal(t as int),
        None => Seq::empty(),
    }
}

pub fn matches_path(worker_url: &str, puuid: &str, end_time: Option<i64>) -> (r: String)
    ensures
        r@ == matches_path_spec(worker_url@, puuid@, end_time),
{
    let mut path = String::from_str(worker_url);
    path.append("/matches/");
    path.append(puuid);
    proof {
        reveal_strlit("/matches/");
        reveal_strlit("?end_time=");
    }
    match end_time {
        Some(t) => {
            path.append("?end_time=");
            let digits = i64_to_decimal(t);
            path.append(digits.as_str());
        },
        None => {},
    }
    path
}

} // verus!
