//! Riot accounts: the Riot ID (game name and tagline) and the player's PUUID.
use vstd::prelude::*;

verus! {

/// A Riot ID: game name (3 to 16 characters) and tagline (3 to 5 characters),
/// either of which the API may leave out.
#[derive(Debug, Clone)]
pub struct RiotId {
    pub name: Option<String>,
    pub tagline: Option<String>,
}

/// A copy of an optional string.
pub fn copy_text(o: &Option<String>) -> (r: Option<String>)
    ensures
        r == *o,
{
    match o {
        Some(s) => Some(s.clone()),
        None => None,
    }
}

impl RiotId {
    /// A copy of this Riot ID.
    pub fn duplicate(&self) -> (r: RiotId)
        ensures
            r == *self,
    {
        RiotId { name: copy_text(&self.name), tagline: copy_text(&self.tagline) }
    }

    pub fn new(name: &str, tagline: &str) -> (r: RiotId)
        ensures
            r.name.deep_view() == Some(name@),
            r.tagline.deep_view() == Some(tagline@),
    {
        RiotId { name: Some(String::from_str(name)), tagline: Some(String::from_str(tagline)) }
    }
}

/// A player's universally unique id.
#[derive(Debug, Clone)]
pub struct Puuid(pub String);

impl View for Puuid {
    type V = Seq<char>;

    open spec fn view(&self) -> Seq<char> {
        self.0@
    }
}

impl Puuid {
    pub fn as_str(&self) -> (s: &str)
        ensures
            s@ == self@,
    {
        self.0.as_str()
    }
}

/// An account: the PUUID and the Riot ID.
#[derive(Debug, Clone)]
pub struct Account {
    pub puuid: Puuid,
    pub riot_id: RiotId,
}

/// `o`'s text, or `default` where it has none.
pub open spec fn text_or(o: Option<Seq<char>>, default: Seq<char>) -> Seq<char> {
    match o {
        Some(s) => s,
        None => default,
    }
}

impl Account {
    /// The account of a made-up player: its PUUID is `name-tagline`, where a missing
    /// name reads `foo` and a missing tagline `bar`.
    pub fn dummy(riot_id: RiotId) -> (a: Account)
        ensures
            a.riot_id == riot_id,
            a.puuid@ == text_or(riot_id.name.deep_view(), "foo"@) + "-"@ + text_or(
                riot_id.tagline.deep_view(),
                "bar"@,
            ),
    {
        let mut puuid = match &riot_id.name {
            Some(name) => name.clone(),
            None => String::from_str("foo"),
        };
        puuid.append("-");
        match &riot_id.tagline {
            Some(tagline) => puuid.append(tagline.as_str()),
            None => puuid.append("bar"),
        }
        Account { puuid: Puuid(puuid), riot_id }
    }

    /// The account that the API describes by these fields.
    pub fn from_api(puuid: String, game_name: Option<String>, tag_line: Option<String>) -> (a: Account)
        ensures
            a.puuid.0 == puuid,
            a.riot_id.name == game_name,
            a.riot_id.tagline == tag_line,
    {
        Account { puuid: Puuid(puuid), riot_id: RiotId { name: game_name, tagline: tag_line } }
    }
}

/// The length of the text before the first `#` (all of it where there is none).
pub open spec fn segment_len(s: Seq<char>) -> nat
    decreases s.len(),
{
    if s.len() == 0 || s[0] == '#' {
        0
    } else {
        1 + segment_len(s.drop_first())
    }
}

/// A Riot ID written as `name#tag`: the name is the text before the first `#`, the
/// tag the text after it up to the next `#`; `None` where there is no `#`.
pub open spec fn riot_id_parts(s: Seq<char>) -> Option<(Seq<char>, Seq<char>)> {
    let i = segment_len(s) as int;
    if i < s.len() {
        let rest = s.skip(i + 1);
        Some((s.take(i), rest.take(segment_len(rest) as int)))
    } else {
        None
    }
}

proof fn lemma_segment_len(s: Seq<char>, i: int)
    requires
        0 <= i <= s.len(),
        forall|k: int| 0 <= k < i ==> s[k] != '#',
        i == s.len() || s[i] == '#',
    ensures
        segment_len(s) == i,
    decreases i,
{
    if i > 0 {
        assert forall|k: int| 0 <= k < i - 1 implies s.drop_first()[k] != '#' by {
            assert(s.drop_first()[k] == s[k + 1]);
        }
        lemma_segment_len(s.drop_first(), i - 1);
    }
}

/// The index of the first `#` at or after `from`, the length where there is none.
fn next_hash(s: &str, from: usize) -> (i: usize)
    requires
        from <= s@.len(),
    ensures
        from <= i <= s@.len(),
        forall|k: int| from <= k < i ==> s@[k] != '#',
        i == s@.len() || s@[i as int] == '#',
{
    let n = s.unicode_len();
    let mut i = from;
    while i < n
        invariant
            n == s@.len(),
            from <= i <= n,
            forall|k: int| from <= k < i ==> s@[k] != '#',
        decreases n - i,
    {
        if s.get_char(i) == '#' {
            return i;
        }
        i = i + 1;
    }
    i
}

/// The name and tag of a Riot ID written as `name#tag`, `None` where there is no `#`.
pub fn split_riot_id(text: &str) -> (r: Option<(String, String)>)
    ensures
        match r {
            Some((name, tag)) => riot_id_parts(text@) == Some((name@, tag@)),
            None => riot_id_parts(text@) is None,
        },
{
    let n = text.unicode_len();
    let i = next_hash(text, 0);
    proof {
        lemma_segment_len(text@, i as int);
    }
    if i == n {
        return None;
    }
    let j = next_hash(text, i + 1);
    proof {
        let rest = text@.skip(i + 1);
        assert forall|k: int| 0 <= k < j - i - 1 implies rest[k] != '#' by {
            assert(rest[k] == text@[k + i + 1]);
        }
        lemma_segment_len(rest, j - i - 1);
        assert(rest.take(j - i - 1) =~= text@.subrange(i + 1, j as int));
        assert(text@.take(i as int) =~= text@.subrange(0, i as int));
    }
    let name = String::from_str(text.substring_char(0, i));
    let tag = String::from_str(text.substring_char(i + 1, j));
    Some((name, tag))
}

/// A name and a tag without `#`, joined by one `#`, split back into themselves.
pub proof fn lemma_split_joined(name: Seq<char>, tag: Seq<char>)
    requires
        !name.contains('#'),
        !tag.contains('#'),
    ensures
        riot_id_parts(name + "#"@ + tag) == Some((name, tag)),
{
    reveal_strlit("#");
    let s = name + "#"@ + tag;
    assert forall|k: int| 0 <= k < name.len() implies s[k] != '#' by {
        assert(s[k] == name[k]);
        if s[k] == '#' {
            assert(name.contains('#'));
        }
    }
    assert(s[name.len() as int] == '#');
    lemma_segment_len(s, name.len() as int);
    let rest = s.skip(name.len() as int + 1);
    assert(rest =~= tag);
    assert forall|k: int| 0 <= k < tag.len() implies rest[k] != '#' by {
        if rest[k] == '#' {
            assert(tag[k] == '#');
            assert(tag.contains('#'));
        }
    }
    lemma_segment_len(rest, tag.len() as int);
    assert(s.take(name.len() as int) =~= name);
    assert(rest.take(tag.len() as int) =~= tag);
}

} // verus!
