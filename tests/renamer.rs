use renamer::placement::{destination, episode_file_name, season_folder};
use renamer::resolver::{
    manual_entry, manual_from_trimmed, menu_options, option_text, options_line, strip_newlines,
    Outcome, Prompt, Resolution, Selection,
};
use renamer::strategy::{
    dash_from_group, extract_season_episode, extract_season_episode_dash,
    season_episode_from_groups, Extractor, Methods,
};
use renamer::text::{decimal, extension_of, pad2, parse_i32, parse_usize};

fn registry() -> Methods {
    Methods::default()
}

fn start(name: &str) -> Resolution {
    let methods = registry();
    let index = methods.default_index("default").unwrap();
    Resolution::start(&methods, index, name)
}

fn resolved(r: &Resolution) -> Option<(i32, i32)> {
    match r.next_prompt() {
        Prompt::Finished(Outcome::Resolved(s, e)) => Some((s, e)),
        _ => None,
    }
}

fn menu(r: &Resolution) -> Option<Vec<usize>> {
    match r.next_prompt() {
        Prompt::Menu(v) => Some(v),
        _ => None,
    }
}

#[test]
fn parse_i32_reads_signed_decimals() {
    assert_eq!(parse_i32("42"), Some(42));
    assert_eq!(parse_i32("-7"), Some(-7));
    assert_eq!(parse_i32("+3"), Some(3));
    assert_eq!(parse_i32("007"), Some(7));
    assert_eq!(parse_i32("2147483647"), Some(2147483647));
    assert_eq!(parse_i32("-2147483648"), Some(-2147483648));
}

#[test]
fn parse_i32_rejects_other_text() {
    assert_eq!(parse_i32(""), None);
    assert_eq!(parse_i32("-"), None);
    assert_eq!(parse_i32("+"), None);
    assert_eq!(parse_i32("abc"), None);
    assert_eq!(parse_i32("1 2"), None);
    assert_eq!(parse_i32(" 5"), None);
    assert_eq!(parse_i32("2147483648"), None);
    assert_eq!(parse_i32("-2147483649"), None);
    assert_eq!(parse_i32("\u{0663}"), None);
}

#[test]
fn parse_usize_reads_unsigned_decimals() {
    assert_eq!(parse_usize("0"), Some(0));
    assert_eq!(parse_usize("+5"), Some(5));
    assert_eq!(parse_usize("12"), Some(12));
    assert_eq!(parse_usize("-0"), None);
    assert_eq!(parse_usize(""), None);
    assert_eq!(parse_usize("x"), None);
    assert_eq!(parse_usize("99999999999999999999999"), None);
}

#[test]
fn numbers_are_formatted_with_two_digit_padding() {
    assert_eq!(decimal(0), "0");
    assert_eq!(decimal(1234), "1234");
    assert_eq!(pad2(0), "00");
    assert_eq!(pad2(5), "05");
    assert_eq!(pad2(12), "12");
    assert_eq!(pad2(100), "100");
    assert_eq!(pad2(-3), "-3");
    assert_eq!(pad2(-2147483648), "-2147483648");
}

#[test]
fn extension_follows_the_last_dot() {
    assert_eq!(extension_of("a.mkv"), "mkv");
    assert_eq!(extension_of("My.Show.S02E05.mkv"), "mkv");
    assert_eq!(extension_of("noext"), "");
    assert_eq!(extension_of(".hidden"), "");
    assert_eq!(extension_of(".hidden.avi"), "avi");
    assert_eq!(extension_of("file."), "");
    assert_eq!(extension_of(".."), "");
}

#[test]
fn default_strategy_reads_season_and_episode() {
    assert_eq!(extract_season_episode("My.Show.S02E05.mkv"), (Some(2), Some(5)));
    assert_eq!(extract_season_episode("xS10E123y"), (Some(10), Some(123)));
    assert_eq!(extract_season_episode("s02e05.mkv"), (None, None));
    assert_eq!(extract_season_episode("Episode - 7.avi"), (None, None));
    assert_eq!(extract_season_episode("S99999999999E1"), (None, None));
    assert_eq!(extract_season_episode("S01E99999999999"), (None, None));
}

#[test]
fn dash_strategy_fixes_season_one() {
    assert_eq!(extract_season_episode_dash("Episode - 7.avi"), (Some(1), Some(7)));
    assert_eq!(extract_season_episode_dash("Show - 12 - 3.avi"), (Some(1), Some(12)));
    assert_eq!(extract_season_episode_dash("Show-7.avi"), (None, None));
    assert_eq!(extract_season_episode_dash("Ep - 99999999999.avi"), (None, None));
}

#[test]
fn captured_groups_are_read_as_integers() {
    assert_eq!(season_episode_from_groups("02", "05"), (Some(2), Some(5)));
    assert_eq!(season_episode_from_groups("x", "05"), (None, None));
    assert_eq!(season_episode_from_groups("99999999999", "01"), (None, None));
    assert_eq!(dash_from_group("7"), (Some(1), Some(7)));
    assert_eq!(dash_from_group("99999999999"), (None, None));
}

#[test]
fn registry_lookup_by_name() {
    let methods = registry();
    assert_eq!(methods.data.len(), 2);
    let dash = methods.get("dash").unwrap();
    assert_eq!(dash.pattern, " - {int}");
    assert_eq!(dash.extractor, Extractor::Dash);
    let default = methods.get("default").unwrap();
    assert_eq!(default.pattern, "S{int}E{int}");
    assert!(methods.get("nope").is_none());
    assert_eq!(methods.position("dash"), Some(0));
    assert_eq!(methods.default_index("dash"), Some(0));
    assert_eq!(methods.default_index("bogus"), Some(1));
    assert_eq!(methods.default_index(""), Some(1));
}

#[test]
fn empty_registry_has_no_default() {
    let methods = Methods { data: Vec::new() };
    assert_eq!(methods.default_index("default"), None);
}

#[test]
fn default_match_needs_no_menu() {
    let r = start("My.Show.S02E05.mkv");
    assert_eq!(resolved(&r), Some((2, 5)));
    assert_eq!(r.attempted, vec![false, true]);
}

#[test]
fn end_to_end_season_episode_name() {
    let name = "My.Show.S02E05.mkv";
    let r = start(name);
    let (s, e) = resolved(&r).unwrap();
    let ext = extension_of(name);
    assert_eq!(
        destination("output", "ShowX", s, e, &ext),
        "output/ShowX/Season 02/Episode S02E05.mkv"
    );
}

#[test]
fn end_to_end_dash_name() {
    let methods = registry();
    let name = "Episode - 7.avi";
    let mut r = start(name);
    let offered = menu(&r).unwrap();
    assert_eq!(offered, vec![0]);
    let options = menu_options(&methods, &offered);
    assert_eq!(options, vec!["0:Skip", "1:Custom", "2: - {int}"]);
    assert_eq!(options_line(&options), "Options: 0:Skip, 1:Custom, 2: - {int}");
    assert_eq!(r.select(&methods, name, "2\n"), Selection::Strategy(0));
    let (s, e) = resolved(&r).unwrap();
    assert_eq!((s, e), (1, 7));
    assert_eq!(
        destination("output", "ShowY", s, e, &extension_of(name)),
        "output/ShowY/Season 01/Episode S01E07.avi"
    );
}

#[test]
fn dash_as_default_strategy_needs_no_menu() {
    let methods = registry();
    let index = methods.default_index("dash").unwrap();
    let r = Resolution::start(&methods, index, "Episode - 7.avi");
    assert_eq!(resolved(&r), Some((1, 7)));
}

#[test]
fn tried_strategy_is_not_offered_again() {
    let methods = registry();
    let name = "nothing here.avi";
    let mut r = start(name);
    assert_eq!(menu(&r), Some(vec![0]));
    assert_eq!(r.select(&methods, name, "2"), Selection::Strategy(0));
    assert_eq!(r.offered(), Vec::<usize>::new());
    assert!(matches!(r.next_prompt(), Prompt::Manual));
}

#[test]
fn skip_finishes_the_file() {
    let methods = registry();
    let name = "nothing here.avi";
    let mut r = start(name);
    assert_eq!(r.select(&methods, name, "0\n"), Selection::Skip);
    assert!(matches!(r.next_prompt(), Prompt::Finished(Outcome::Skipped)));
    let sibling = start("My.Show.S01E03.mkv");
    assert_eq!(resolved(&sibling), Some((1, 3)));
}

#[test]
fn failed_custom_entry_returns_to_the_menu() {
    let methods = registry();
    let name = "nothing here.avi";
    let mut r = start(name);
    assert_eq!(r.select(&methods, name, "1\n"), Selection::Custom);
    r.enter_manual("abc\n", "5\n");
    assert_eq!((r.season, r.episode), (None, None));
    assert_eq!(menu(&r), Some(vec![0]));
    assert_eq!(r.select(&methods, name, "1\n"), Selection::Custom);
    r.enter_manual(" 3 \n", "4\n");
    assert_eq!(resolved(&r), Some((3, 4)));
}

#[test]
fn failed_manual_entry_asks_again() {
    let methods = registry();
    let name = "nothing here.avi";
    let mut r = start(name);
    r.select(&methods, name, "2");
    r.enter_manual("2", "x");
    assert!(matches!(r.next_prompt(), Prompt::Manual));
    r.enter_manual("2", "9");
    assert_eq!(resolved(&r), Some((2, 9)));
}

#[test]
fn invalid_menu_answers_show_the_menu_again() {
    let methods = registry();
    let name = "nothing here.avi";
    let mut r = start(name);
    assert_eq!(r.select(&methods, name, "9\n"), Selection::OutOfRange);
    assert_eq!(r.select(&methods, name, "two\n"), Selection::NotANumber);
    assert_eq!(r.select(&methods, name, "\n"), Selection::NotANumber);
    assert_eq!(menu(&r), Some(vec![0]));
}

#[test]
fn manual_entry_needs_both_numbers() {
    assert_eq!(manual_entry("3\n", "4\n"), (Some(3), Some(4)));
    assert_eq!(manual_entry("  0 ", "-1"), (Some(0), Some(-1)));
    assert_eq!(manual_entry("3", ""), (None, None));
    assert_eq!(manual_entry("x", "4"), (None, None));
    assert_eq!(manual_entry("5", "6"), (Some(5), Some(6)));
    assert_eq!(manual_entry("\u{3000}7\t", "8\r\n"), (Some(7), Some(8)));
    assert_eq!(manual_from_trimmed("3", "4"), (Some(3), Some(4)));
    assert_eq!(manual_from_trimmed(" 3", "4"), (None, None));
}

#[test]
fn newlines_are_removed_from_answers() {
    assert_eq!(strip_newlines("12\n"), "12");
    assert_eq!(strip_newlines("1\n2\n"), "12");
    assert_eq!(strip_newlines("3\r\n"), "3\r");
    assert_eq!(strip_newlines(""), "");
}

#[test]
fn menu_entry_text() {
    assert_eq!(option_text(0, "Skip"), "0:Skip");
    assert_eq!(option_text(12, "S{int}E{int}"), "12:S{int}E{int}");
    assert_eq!(options_line(&Vec::new()), "Options: ");
}

#[test]
fn destination_parts() {
    assert_eq!(season_folder("./output", "Show", 0), "./output/Show/Season 00");
    assert_eq!(episode_file_name(1, 123, "mp4"), "Episode S01E123.mp4");
    assert_eq!(episode_file_name(10, 2, ""), "Episode S10E02.");
}

#[test]
fn renamed_output_resolves_to_the_same_place() {
    let first = destination("output", "ShowX", 2, 5, "mkv");
    let name = episode_file_name(2, 5, "mkv");
    let r = start(&name);
    let (s, e) = resolved(&r).unwrap();
    assert_eq!(destination("output", "ShowX", s, e, &extension_of(&name)), first);
}
