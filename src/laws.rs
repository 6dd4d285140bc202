use vstd::prelude::*;
use crate::resolver::{lemma_offered_bounds, manual_spec, offered_spec, offered_upto, Resolution};
use crate::strategy::{
    builtin_registry,
    extract_spec,
    regex_group,
    Extractor,
    Methods,
    DASH_PATTERN,
    SEASON_EPISODE_PATTERN,
};
use crate::placement::episode_file_spec;
use crate::text::{pad2_spec, padded_number_reads_back, parse_i32_spec, trim_of};

verus! {

/// When the default pattern captures season and episode digits that read as
/// integers, the default strategy yields exactly those two integers, and a file
/// started with it is resolved at once, with no prompt.
pub proof fn default_match_needs_no_prompt(
    methods: Methods,
    default_index: usize,
    filename: Seq<char>,
    season: Seq<char>,
    episode: Seq<char>,
    r: Resolution,
)
    requires
        regex_group(SEASON_EPISODE_PATTERN@, filename, 1) == Some(season),
        regex_group(SEASON_EPISODE_PATTERN@, filename, 2) == Some(episode),
        parse_i32_spec(season) is Some,
        parse_i32_spec(episode) is Some,
        default_index < methods.data@.len(),
        methods.data@[default_index as int].extractor == Extractor::SeasonEpisode,
        r.started(&methods, default_index, filename),
    ensures
        extract_spec(Extractor::SeasonEpisode, filename) == (
            parse_i32_spec(season),
            parse_i32_spec(episode),
        ),
        r.season == parse_i32_spec(season),
        r.episode == parse_i32_spec(episode),
        r.is_done(),
        !r.skipped,
{
}

/// When the dash pattern captures episode digits, the dash strategy yields
/// season 1 and the integer those digits read as; when they read as no `i32`,
/// it yields neither value.
pub proof fn dash_match_gives_season_one(filename: Seq<char>, episode: Seq<char>)
    requires
        regex_group(DASH_PATTERN@, filename, 1) == Some(episode),
    ensures
        parse_i32_spec(episode) is Some ==> extract_spec(Extractor::Dash, filename) == (
            Some(1i32),
            parse_i32_spec(episode),
        ),
        parse_i32_spec(episode) is None ==> extract_spec(Extractor::Dash, filename) == (
            None::<i32>,
            None::<i32>,
        ),
{
}

/// With the built-in registry and `default` as the default strategy, a file name
/// in which the default pattern finds nothing is not resolved at start, and the
/// menu offers exactly the dash strategy.
pub proof fn default_miss_offers_dash(methods: Methods, filename: Seq<char>, r: Resolution)
    requires
        builtin_registry(methods),
        regex_group(SEASON_EPISODE_PATTERN@, filename, 1) is None,
        r.started(&methods, 1, filename),
    ensures
        !r.is_done(),
        offered_spec(r.attempted@) == seq![0usize],
{
    assert(r.attempted@[0] == false);
    assert(r.attempted@[1] == true);
    assert(offered_upto(r.attempted@, 0) =~= Seq::<usize>::empty());
    assert(offered_upto(r.attempted@, 1) =~= seq![0usize]);
    assert(offered_upto(r.attempted@, 2) =~= seq![0usize]);
}

/// A strategy marked as tried is never among those a menu offers.
pub proof fn attempted_never_offered(attempted: Seq<bool>, i: int)
    requires
        0 <= i < attempted.len(),
        attempted[i],
        attempted.len() <= usize::MAX,
    ensures
        !offered_spec(attempted).contains(i as usize),
{
    lemma_offered_bounds(attempted, attempted.len());
}

/// A skipped file is finished: no later answer gives it a season and episode.
pub proof fn skipped_is_done(r: Resolution)
    requires
        r.skipped,
    ensures
        r.is_done(),
{
}

/// Manual entry in which either line is not an integer leaves both values
/// absent, and the file then goes back to its impasse instead of being resolved.
pub proof fn failed_manual_entry_asks_again(season: Seq<char>, episode: Seq<char>, r: Resolution)
    requires
        parse_i32_spec(trim_of(season)) is None || parse_i32_spec(trim_of(episode)) is None,
        (r.season, r.episode) == manual_spec(season, episode),
        !r.skipped,
    ensures
        manual_spec(season, episode) == (None::<i32>, None::<i32>),
        !r.is_done(),
{
}

/// A file already named `Episode S{season:02}E{episode:02}.{ext}`, with
/// non-negative numbers, whose two padded numbers the default pattern captures,
/// resolves with the default strategy to the same season and episode, and so to
/// the same destination.
pub proof fn renamed_file_resolves_to_itself(season: i32, episode: i32, extension: Seq<char>)
    requires
        season >= 0,
        episode >= 0,
        regex_group(
            SEASON_EPISODE_PATTERN@,
            episode_file_spec(season as int, episode as int, extension),
            1,
        ) == Some(pad2_spec(season as int)),
        regex_group(
            SEASON_EPISODE_PATTERN@,
            episode_file_spec(season as int, episode as int, extension),
            2,
        ) == Some(pad2_spec(episode as int)),
    ensures
        extract_spec(
            Extractor::SeasonEpisode,
            episode_file_spec(season as int, episode as int, extension),
        ) == (Some(season), Some(episode)),
{
    padded_number_reads_back(season);
    padded_number_reads_back(episode);
}

/// With the built-in registry, a file whose candidate came from the dash
/// strategy (started with it as the default, or selected from the menu), and
/// whose dash capture reads as an integer, is resolved to season 1 and that
/// episode.
pub proof fn dash_candidate_resolves_to_season_one(
    methods: Methods,
    filename: Seq<char>,
    episode: Seq<char>,
    r: Resolution,
)
    requires
        builtin_registry(methods),
        regex_group(DASH_PATTERN@, filename, 1) == Some(episode),
        parse_i32_spec(episode) is Some,
        (r.season, r.episode) == extract_spec(methods.data@[0].extractor, filename),
        !r.skipped,
    ensures
        r.is_done(),
        r.season == Some(1i32),
        r.episode == parse_i32_spec(episode),
{
}

/// A strategy yields both season and episode or neither, never one alone; the
/// dash strategy's season is always 1.
pub proof fn strategies_never_half_resolve(kind: Extractor, filename: Seq<char>)
    ensures
        extract_spec(kind, filename) == (None::<i32>, None::<i32>) || (extract_spec(
            kind,
            filename,
        ).0 is Some && extract_spec(kind, filename).1 is Some),
        kind == Extractor::Dash ==> extract_spec(kind, filename).0 is None || extract_spec(
            kind,
            filename,
        ).0 == Some(1i32),
{
}

} // verus!
