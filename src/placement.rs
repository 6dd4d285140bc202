use vstd::prelude::*;
use vstd::string::*;
use crate::text::{pad2, pad2_spec};

verus! {

/// `{output}/{show}/Season {season:02}`.
pub open spec fn season_folder_spec(output: Seq<char>, show: Seq<char>, season: int) -> Seq<char> {
    output + seq!['/'] + show + "/Season "@ + pad2_spec(season)
}

/// `Episode S{season:02}E{episode:02}.{extension}`.
pub open spec fn episode_file_spec(season: int, episode: int, extension: Seq<char>) -> Seq<char> {
    "Episode S"@ + pad2_spec(season) + seq!['E'] + pad2_spec(episode) + seq!['.'] + extension
}

/// The folder that a resolved episode is moved into.
pub fn season_folder(output: &str, show: &str, season: i32) -> (r: String)
    ensures
        r@ == season_folder_spec(output@, show@, season as int),
{
    proof {
        reveal_strlit("/");
    }
    let mut s = String::from_str(output);
    s.append("/");
    s.append(show);
    s.append("/Season ");
    s.append(pad2(season).as_str());
    s
}

/// The name that a resolved episode gets.
pub fn episode_file_name(season: i32, episode: i32, extension: &str) -> (r: String)
    ensures
        r@ == episode_file_spec(season as int, episode as int, extension@),
{
    proof {
        reveal_strlit("E");
        reveal_strlit(".");
    }
    let mut s = String::from_str("Episode S");
    s.append(pad2(season).as_str());
    s.append("E");
    s.append(pad2(episode).as_str());
    s.append(".");
    s.append(extension);
    s
}

/// The full path that a resolved episode is moved to.
pub fn destination(output: &str, show: &str, season: i32, episode: i32, extension: &str) -> (r:
    String)
    ensures
        r@ == season_folder_spec(output@, show@, season as int) + seq!['/'] + episode_file_spec(
            season as int,
            episode as int,
            extension@,
        ),
{
    proof {
        reveal_strlit("/");
    }
    let mut s = season_folder(output, show, season);
    s.append("/");
    s.append(episode_file_name(season, episode, extension).as_str());
    s
}

} // verus!
