use vstd::prelude::*;
use vstd::string::*;
use crate::text::{parse_i32, parse_i32_spec};

verus! {

/// The pattern of the default strategy: `S`, digits, `E`, digits.
pub const SEASON_EPISODE_PATTERN: &'static str = "S(\\d+)E(\\d+)";

/// The pattern of the dash strategy: a space, a hyphen, a space, digits.
pub const DASH_PATTERN: &'static str = " - (\\d+)";

/// The text of capture group `group` in the leftmost-first match of the regular
/// expression `pattern` in `haystack`, as the regex crate finds it.
pub uninterp spec fn regex_group(pattern: Seq<char>, haystack: Seq<char>, group: nat) -> Option<
    Seq<char>,
>;

/// Relies on `regex::Regex::new`, `regex::Regex::captures`, `regex::Captures::get`
/// and `regex::Match::as_str`: the text of one capture group of the first match;
/// absent when the pattern does not compile, nothing matches or the group takes
/// no part in the match.
#[verifier::external_body]
fn capture_group(pattern: &str, haystack: &str, group: usize) -> (r: Option<String>)
    ensures
        match r {
            Some(t) => regex_group(pattern@, haystack@, group as nat) == Some(t@),
            None => regex_group(pattern@, haystack@, group as nat) is None,
        },
{
    let re = match regex::Regex::new(pattern) {
        Ok(re) => re,
        Err(_) => return None,
    };
    let captures = re.captures(haystack)?;
    let found = captures.get(group)?;
    Some(found.as_str().to_string())
}

/// How a strategy reads season and episode out of a file name.
#[derive(PartialEq, Eq, Structural, Clone, Copy, Debug)]
pub enum Extractor {
    /// `S<digits>E<digits>`: season and episode from the two groups.
    SeasonEpisode,
    /// ` - <digits>`: season 1, episode from the group.
    Dash,
}

/// Season and episode kept only when both are present.
pub open spec fn both_or_neither(season: Option<i32>, episode: Option<i32>) -> (Option<i32>, Option<i32>) {
    if season is Some && episode is Some {
        (season, episode)
    } else {
        (None, None)
    }
}

/// Season and episode read from the two groups of the default pattern: both,
/// or neither when either does not read as an integer.
pub open spec fn from_groups_spec(season: Seq<char>, episode: Seq<char>) -> (Option<i32>, Option<i32>) {
    both_or_neither(parse_i32_spec(season), parse_i32_spec(episode))
}

/// Season and episode read from the group of the dash pattern: season 1 and the
/// episode, or neither when the group does not read as an integer.
pub open spec fn from_dash_group_spec(episode: Seq<char>) -> (Option<i32>, Option<i32>) {
    match parse_i32_spec(episode) {
        Some(v) => (Some(1i32), Some(v)),
        None => (None, None),
    }
}

/// What the default strategy yields for a file name.
pub open spec fn season_episode_spec(filename: Seq<char>) -> (Option<i32>, Option<i32>) {
    match (
        regex_group(SEASON_EPISODE_PATTERN@, filename, 1),
        regex_group(SEASON_EPISODE_PATTERN@, filename, 2),
    ) {
        (Some(s), Some(e)) => from_groups_spec(s, e),
        _ => (None, None),
    }
}

/// What the dash strategy yields for a file name.
pub open spec fn dash_spec(filename: Seq<char>) -> (Option<i32>, Option<i32>) {
    match regex_group(DASH_PATTERN@, filename, 1) {
        Some(e) => from_dash_group_spec(e),
        None => (None, None),
    }
}

/// What a strategy of the given kind yields for a file name.
pub open spec fn extract_spec(kind: Extractor, filename: Seq<char>) -> (Option<i32>, Option<i32>) {
    match kind {
        Extractor::SeasonEpisode => season_episode_spec(filename),
        Extractor::Dash => dash_spec(filename),
    }
}

/// Season and episode from the captured texts of the default pattern.
pub fn season_episode_from_groups(season: &str, episode: &str) -> (r: (Option<i32>, Option<i32>))
    ensures
        r == from_groups_spec(season@, episode@),
{
    let s = parse_i32(season);
    let e = parse_i32(episode);
    if s.is_none() || e.is_none() {
        (None, None)
    } else {
        (s, e)
    }
}

/// Season and episode from the captured text of the dash pattern.
pub fn dash_from_group(episode: &str) -> (r: (Option<i32>, Option<i32>))
    ensures
        r == from_dash_group_spec(episode@),
{
    match parse_i32(episode) {
        Some(v) => (Some(1), Some(v)),
        None => (None, None),
    }
}

/// The default strategy: season and episode from `S<digits>E<digits>`.
pub fn extract_season_episode(filename: &str) -> (r: (Option<i32>, Option<i32>))
    ensures
        r == season_episode_spec(filename@),
{
    let season = capture_group(SEASON_EPISODE_PATTERN, filename, 1);
    let episode = capture_group(SEASON_EPISODE_PATTERN, filename, 2);
    match (season, episode) {
        (Some(s), Some(e)) => season_episode_from_groups(s.as_str(), e.as_str()),
        _ => (None, None),
    }
}

/// The dash strategy: season 1 and the episode from ` - <digits>`.
pub fn extract_season_episode_dash(filename: &str) -> (r: (Option<i32>, Option<i32>))
    ensures
        r == dash_spec(filename@),
{
    match capture_group(DASH_PATTERN, filename, 1) {
        Some(e) => dash_from_group(e.as_str()),
        None => (None, None),
    }
}

/// A named extraction strategy with the pattern label shown in menus.
pub struct Method {
    pub name: String,
    pub pattern: String,
    pub extractor: Extractor,
}

impl Method {
    /// Runs the strategy on a file name.
    pub fn extract(&self, filename: &str) -> (r: (Option<i32>, Option<i32>))
        ensures
            r == extract_spec(self.extractor, filename@),
    {
        match self.extractor {
            Extractor::SeasonEpisode => extract_season_episode(filename),
            Extractor::Dash => extract_season_episode_dash(filename),
        }
    }
}

/// The registry of strategies, in registration order.
pub struct Methods {
    pub data: Vec<Method>,
}

impl Methods {
    /// No two strategies share a name.
    pub open spec fn wf(&self) -> bool {
        forall|i: int, j: int|
            0 <= i < self.data@.len() && 0 <= j < self.data@.len() && i != j
                ==> #[trigger] self.data@[i].name@ != #[trigger] self.data@[j].name@
    }

    /// Some strategy has this name.
    pub open spec fn has_name(&self, name: Seq<char>) -> bool {
        exists|i: int| 0 <= i < self.data@.len() && #[trigger] self.data@[i].name@ == name
    }

    /// The place of the strategy named `name`, if there is one.
    pub fn position(&self, name: &str) -> (r: Option<usize>)
        ensures
            match r {
                Some(i) => i < self.data@.len() && self.data@[i as int].name@ == name@,
                None => !self.has_name(name@),
            },
    {
        let key = name.to_owned();
        let mut i: usize = 0;
        while i < self.data.len()
            invariant
                i <= self.data@.len(),
                key@ == name@,
                forall|k: int| 0 <= k < i ==> #[trigger] self.data@[k].name@ != name@,
            decreases self.data@.len() - i,
        {
            if self.data[i].name == key {
                return Some(i);
            }
            i = i + 1;
        }
        None
    }

    /// The strategy named `name`, if there is one.
    pub fn get(&self, name: &str) -> (r: Option<&Method>)
        ensures
            match r {
                Some(m) => m.name@ == name@ && exists|i: int|
                    0 <= i < self.data@.len() && #[trigger] self.data@[i] == *m,
                None => !self.has_name(name@),
            },
    {
        match self.position(name) {
            Some(i) => Some(&self.data[i]),
            None => None,
        }
    }

    /// The strategy that a run starts each file with: the one named `requested`,
    /// else the one named `default`.
    pub fn default_index(&self, requested: &str) -> (r: Option<usize>)
        ensures
            match r {
                Some(i) => i < self.data@.len() && (self.data@[i as int].name@ == requested@ || (
                !self.has_name(requested@) && self.data@[i as int].name@ == "default"@)),
                None => !self.has_name(requested@) && !self.has_name("default"@),
            },
    {
        match self.position(requested) {
            Some(i) => Some(i),
            None => self.position("default"),
        }
    }
}

/// The two built-in strategies, `dash` then `default`.
pub open spec fn builtin_registry(m: Methods) -> bool {
    &&& m.data@.len() == 2
    &&& m.data@[0].name@ == "dash"@
    &&& m.data@[0].pattern@ == " - {int}"@
    &&& m.data@[0].extractor == Extractor::Dash
    &&& m.data@[1].name@ == "default"@
    &&& m.data@[1].pattern@ == "S{int}E{int}"@
    &&& m.data@[1].extractor == Extractor::SeasonEpisode
}

impl Default for Methods {
    /// The registry with the built-in strategies.
    fn default() -> (r: Methods)
        ensures
            builtin_registry(r),
            r.wf(),
    {
        proof {
            reveal_strlit("dash");
            reveal_strlit("default");
        }
        let dash = Method {
            name: String::from_str("dash"),
            pattern: String::from_str(" - {int}"),
            extractor: Extractor::Dash,
        };
        let default = Method {
            name: String::from_str("default"),
            pattern: String::from_str("S{int}E{int}"),
            extractor: Extractor::SeasonEpisode,
        };
        let data = vec![dash, default];
        assert(data@[0].name@ != data@[1].name@) by {
            assert(data@[0].name@[1] != data@[1].name@[1]);
        }
        Methods { data }
    }
}

} // verus!
