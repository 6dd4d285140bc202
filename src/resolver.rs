use vstd::prelude::*;
use vstd::string::*;
use crate::strategy::{both_or_neither, extract_spec, Methods};
use crate::text::{decimal, decimal_spec, parse_i32, parse_i32_spec, parse_usize, parse_usize_spec, trim_of, trimmed};

verus! {

/// How the resolution of one file ended.
#[derive(PartialEq, Eq, Structural, Clone, Copy, Debug)]
pub enum Outcome {
    Resolved(i32, i32),
    Skipped,
}

/// What the operator is asked next, or how the file ended.
pub enum Prompt {
    Finished(Outcome),
    /// Choose from skip, custom, and these untried strategies, by their places in the registry.
    Menu(Vec<usize>),
    /// Type season and episode.
    Manual,
}

/// What a menu answer selected.
#[derive(PartialEq, Eq, Structural, Clone, Copy, Debug)]
pub enum Selection {
    Skip,
    Custom,
    /// The strategy at this place in the registry was run.
    Strategy(usize),
    /// A number that names no option.
    OutOfRange,
    /// No number at all.
    NotANumber,
}

/// The untried strategies among the first `n`, in registration order.
pub open spec fn offered_upto(attempted: Seq<bool>, n: nat) -> Seq<usize>
    decreases n,
{
    if n == 0 {
        Seq::empty()
    } else {
        let p = offered_upto(attempted, (n - 1) as nat);
        if attempted[n - 1] {
            p
        } else {
            p.push((n - 1) as usize)
        }
    }
}

/// The strategies that a menu offers: those not yet tried, in registration order.
pub open spec fn offered_spec(attempted: Seq<bool>) -> Seq<usize> {
    offered_upto(attempted, attempted.len())
}

/// Each offered place is below `n` and untried.
pub proof fn lemma_offered_bounds(attempted: Seq<bool>, n: nat)
    requires
        n <= attempted.len(),
        attempted.len() <= usize::MAX,
    ensures
        forall|j: int|
            0 <= j < offered_upto(attempted, n).len() ==> #[trigger] offered_upto(attempted, n)[j]
                < n && !attempted[offered_upto(attempted, n)[j] as int],
    decreases n,
{
    if n > 0 {
        let p = offered_upto(attempted, (n - 1) as nat);
        lemma_offered_bounds(attempted, (n - 1) as nat);
        assert forall|j: int| 0 <= j < offered_upto(attempted, n).len() implies #[trigger] offered_upto(
            attempted,
            n,
        )[j] < n && !attempted[offered_upto(attempted, n)[j] as int] by {
            if j < p.len() {
                assert(offered_upto(attempted, n)[j] == p[j]);
            }
        }
    }
}

/// The text without its line feeds.
pub open spec fn without_newlines(s: Seq<char>) -> Seq<char>
    decreases s.len(),
{
    if s.len() == 0 {
        s
    } else if s.last() == '\n' {
        without_newlines(s.drop_last())
    } else {
        without_newlines(s.drop_last()).push(s.last())
    }
}

/// What manual entry yields for the two typed lines.
pub open spec fn manual_spec(season: Seq<char>, episode: Seq<char>) -> (Option<i32>, Option<i32>) {
    both_or_neither(parse_i32_spec(trim_of(season)), parse_i32_spec(trim_of(episode)))
}

/// Manual entry from already trimmed texts: both numbers, or neither.
pub fn manual_from_trimmed(season: &str, episode: &str) -> (r: (Option<i32>, Option<i32>))
    ensures
        r == both_or_neither(parse_i32_spec(season@), parse_i32_spec(episode@)),
{
    let s = parse_i32(season);
    let e = parse_i32(episode);
    if s.is_none() || e.is_none() {
        (None, None)
    } else {
        (s, e)
    }
}

/// Manual entry: each typed line is trimmed and read as an integer; if either
/// fails, both are absent.
pub fn manual_entry(season: &str, episode: &str) -> (r: (Option<i32>, Option<i32>))
    ensures
        r == manual_spec(season@, episode@),
{
    manual_from_trimmed(trimmed(season), trimmed(episode))
}

/// Removes every line feed from a typed line.
pub fn strip_newlines(s: &str) -> (r: String)
    ensures
        r@ == without_newlines(s@),
{
    let n = s.unicode_len();
    let mut out = String::new();
    let mut i: usize = 0;
    while i < n
        invariant
            i <= n,
            n == s@.len(),
            out@ == without_newlines(s@.take(i as int)),
        decreases n - i,
    {
        let ghost p = s@.take(i + 1);
        assert(p.drop_last() =~= s@.take(i as int));
        let c = s.get_char(i);
        if c != '\n' {
            let piece = s.substring_char(i, i + 1);
            assert(piece@ =~= seq![c]);
            out.append(piece);
            assert(out@ =~= without_newlines(p));
        }
        i = i + 1;
    }
    assert(s@.take(n as int) =~= s@);
    out
}

/// `n` marks, only the one at `k` set.
pub open spec fn only_marked(n: nat, k: int) -> Seq<bool> {
    Seq::new(n, |i: int| i == k)
}

/// The resolution of one file: which strategies were tried, the current
/// candidate season and episode, and whether the operator skipped the file.
pub struct Resolution {
    pub attempted: Vec<bool>,
    pub season: Option<i32>,
    pub episode: Option<i32>,
    pub skipped: bool,
}

impl Resolution {
    /// One mark per strategy of a registry whose names are unique, so that a
    /// place stands for a name.
    pub open spec fn wf(&self, methods: &Methods) -> bool {
        &&& methods.wf()
        &&& self.attempted@.len() == methods.data@.len()
    }

    /// Skipped, or both season and episode are known.
    pub open spec fn is_done(&self) -> bool {
        self.skipped || (self.season is Some && self.episode is Some)
    }

    /// The state right after a file was started with the strategy at `default_index`:
    /// only that strategy tried, its result the candidate, nothing skipped.
    pub open spec fn started(&self, methods: &Methods, default_index: usize, filename: Seq<char>) -> bool {
        &&& self.wf(methods)
        &&& self.attempted@ == only_marked(methods.data@.len(), default_index as int)
        &&& default_index < methods.data@.len()
        &&& (self.season, self.episode) == extract_spec(
            methods.data@[default_index as int].extractor,
            filename,
        )
        &&& !self.skipped
    }

    /// Starts a file: runs the default strategy and marks it tried.
    pub fn start(methods: &Methods, default_index: usize, filename: &str) -> (r: Resolution)
        requires
            methods.wf(),
            default_index < methods.data@.len(),
        ensures
            r.started(methods, default_index, filename@),
    {
        let (season, episode) = methods.data[default_index].extract(filename);
        let mut attempted: Vec<bool> = Vec::new();
        let mut i: usize = 0;
        while i < methods.data.len()
            invariant
                i <= methods.data@.len(),
                attempted@ == Seq::new(i as nat, |k: int| k == default_index),
            decreases methods.data@.len() - i,
        {
            attempted.push(i == default_index);
            i = i + 1;
        }
        assert(attempted@ =~= only_marked(methods.data@.len(), default_index as int));
        Resolution { attempted, season, episode, skipped: false }
    }

    /// The untried strategies, in registration order.
    pub fn offered(&self) -> (r: Vec<usize>)
        ensures
            r@ == offered_spec(self.attempted@),
    {
        let mut r: Vec<usize> = Vec::new();
        let mut i: usize = 0;
        while i < self.attempted.len()
            invariant
                i <= self.attempted@.len(),
                r@ == offered_upto(self.attempted@, i as nat),
            decreases self.attempted@.len() - i,
        {
            if !self.attempted[i] {
                r.push(i);
            }
            i = i + 1;
        }
        r
    }

    /// What happens next: the file is finished, or the operator gets the menu
    /// of untried strategies, or, with none left, manual entry.
    pub fn next_prompt(&self) -> (r: Prompt)
        ensures
            match r {
                Prompt::Finished(Outcome::Skipped) => self.skipped,
                Prompt::Finished(Outcome::Resolved(s, e)) => !self.skipped && self.season == Some(s)
                    && self.episode == Some(e),
                Prompt::Menu(v) => !self.is_done() && v@ == offered_spec(self.attempted@) && v@.len()
                    > 0,
                Prompt::Manual => !self.is_done() && offered_spec(self.attempted@).len() == 0,
            },
    {
        if self.skipped {
            return Prompt::Finished(Outcome::Skipped);
        }
        match (self.season, self.episode) {
            (Some(s), Some(e)) => Prompt::Finished(Outcome::Resolved(s, e)),
            _ => {
                let v = self.offered();
                if v.len() == 0 {
                    Prompt::Manual
                } else {
                    Prompt::Menu(v)
                }
            },
        }
    }

    /// Applies the operator's menu answer: `0` skips the file, `1` asks for
    /// manual entry, `n >= 2` runs the `(n - 2)`-th untried strategy and marks it
    /// tried; anything else leaves both values absent, so the menu comes again.
    pub fn select(&mut self, methods: &Methods, filename: &str, input: &str) -> (r: Selection)
        requires
            old(self).wf(methods),
        ensures
            final(self).wf(methods),
            ({
                let choice = parse_usize_spec(without_newlines(input@));
                let offered = offered_spec(old(self).attempted@);
                match r {
                    Selection::Skip => choice == Some(0usize) && final(self).skipped
                        && final(self).attempted@ == old(self).attempted@
                        && final(self).season == old(self).season
                        && final(self).episode == old(self).episode,
                    Selection::Custom => choice == Some(1usize) && final(self).season is None
                        && final(self).episode is None
                        && final(self).attempted@ == old(self).attempted@
                        && final(self).skipped == old(self).skipped,
                    Selection::Strategy(k) => choice is Some && choice->0 >= 2 && choice->0 - 2
                        < offered.len() && k == offered[choice->0 - 2]
                        && final(self).attempted@ == old(self).attempted@.update(k as int, true)
                        && (final(self).season, final(self).episode) == extract_spec(
                        methods.data@[k as int].extractor,
                        filename@,
                    ) && final(self).skipped == old(self).skipped,
                    Selection::OutOfRange => choice is Some && choice->0 >= 2 && choice->0 - 2
                        >= offered.len() && final(self).season is None
                        && final(self).episode is None
                        && final(self).attempted@ == old(self).attempted@
                        && final(self).skipped == old(self).skipped,
                    Selection::NotANumber => choice is None && final(self).season is None
                        && final(self).episode is None
                        && final(self).attempted@ == old(self).attempted@
                        && final(self).skipped == old(self).skipped,
                }
            }),
    {
        let line = strip_newlines(input);
        match parse_usize(line.as_str()) {
            None => {
                self.season = None;
                self.episode = None;
                Selection::NotANumber
            },
            Some(n) => {
                if n == 0 {
                    self.skipped = true;
                    Selection::Skip
                } else if n == 1 {
                    self.season = None;
                    self.episode = None;
                    Selection::Custom
                } else {
                    let offered = self.offered();
                    if n - 2 < offered.len() {
                        let k = offered[n - 2];
                        proof {
                            assert(self.attempted@.len() == self.attempted.len());
                            lemma_offered_bounds(self.attempted@, self.attempted@.len());
                        }
                        let (s, e) = methods.data[k].extract(filename);
                        self.attempted.set(k, true);
                        self.season = s;
                        self.episode = e;
                        Selection::Strategy(k)
                    } else {
                        self.season = None;
                        self.episode = None;
                        Selection::OutOfRange
                    }
                }
            },
        }
    }

    /// Takes manual entry's answer as the candidate.
    pub fn enter_manual(&mut self, season: &str, episode: &str)
        ensures
            (final(self).season, final(self).episode) == manual_spec(season@, episode@),
            final(self).attempted@ == old(self).attempted@,
            final(self).skipped == old(self).skipped,
    {
        let (s, e) = manual_entry(season, episode);
        self.season = s;
        self.episode = e;
    }
}

/// A menu entry: its number, a colon, its label.
pub open spec fn option_label(n: nat, label: Seq<char>) -> Seq<char> {
    decimal_spec(n) + seq![':'] + label
}

/// Items joined with a comma and a space between each two.
pub open spec fn joined(items: Seq<Seq<char>>) -> Seq<char>
    decreases items.len(),
{
    if items.len() == 0 {
        Seq::empty()
    } else if items.len() == 1 {
        items[0]
    } else {
        joined(items.drop_last()) + seq![',', ' '] + items.last()
    }
}

/// One menu entry's text.
pub fn option_text(n: usize, label: &str) -> (r: String)
    ensures
        r@ == option_label(n as nat, label@),
{
    proof {
        reveal_strlit(":");
    }
    let mut s = decimal(n as u64);
    s.append(":");
    s.append(label);
    s
}

/// The menu entries: skip, custom, then each offered strategy's pattern label,
/// numbered from 2.
pub fn menu_options(methods: &Methods, offered: &Vec<usize>) -> (r: Vec<String>)
    requires
        forall|j: int| 0 <= j < offered@.len() ==> #[trigger] offered@[j] < methods.data@.len(),
        offered@.len() + 2 <= usize::MAX,
    ensures
        r@.len() == offered@.len() + 2,
        r@[0]@ == option_label(0, "Skip"@),
        r@[1]@ == option_label(1, "Custom"@),
        forall|j: int|
            0 <= j < offered@.len() ==> #[trigger] r@[j + 2]@ == option_label(
                (j + 2) as nat,
                methods.data@[offered@[j] as int].pattern@,
            ),
{
    let mut r: Vec<String> = Vec::new();
    r.push(option_text(0, "Skip"));
    r.push(option_text(1, "Custom"));
    let mut j: usize = 0;
    while j < offered.len()
        invariant
            j <= offered@.len(),
            offered@.len() + 2 <= usize::MAX,
            forall|k: int| 0 <= k < offered@.len() ==> #[trigger] offered@[k] < methods.data@.len(),
            r@.len() == j + 2,
            r@[0]@ == option_label(0, "Skip"@),
            r@[1]@ == option_label(1, "Custom"@),
            forall|k: int|
                0 <= k < j ==> #[trigger] r@[k + 2]@ == option_label(
                    (k + 2) as nat,
                    methods.data@[offered@[k] as int].pattern@,
                ),
        decreases offered@.len() - j,
    {
        let k = offered[j];
        let label = option_text(j + 2, methods.data[k].pattern.as_str());
        r.push(label);
        j = j + 1;
    }
    r
}

/// The menu line: `Options: ` and the entries joined by `, `.
pub fn options_line(items: &Vec<String>) -> (r: String)
    ensures
        r@ == seq!['O', 'p', 't', 'i', 'o', 'n', 's', ':', ' '] + joined(items@.map_values(|s: String| s@)),
{
    proof {
        reveal_strlit("Options: ");
        reveal_strlit(", ");
    }
    let ghost views = items@.map_values(|s: String| s@);
    let mut out = String::from_str("Options: ");
    let mut i: usize = 0;
    while i < items.len()
        invariant
            i <= items@.len(),
            views == items@.map_values(|s: String| s@),
            out@ == seq!['O', 'p', 't', 'i', 'o', 'n', 's', ':', ' '] + joined(views.take(i as int)),
        decreases items@.len() - i,
    {
        let ghost before = out@;
        let ghost next = views.take(i + 1);
        assert(next.drop_last() =~= views.take(i as int));
        assert(next.last() == items@[i as int]@);
        if i > 0 {
            proof {
                reveal_strlit(", ");
            }
            out.append(", ");
            out.append(items[i].as_str());
            assert(out@ == before + seq![',', ' '] + items@[i as int]@);
            assert(joined(next) == joined(views.take(i as int)) + seq![',', ' '] + items@[i as int]@);
            assert(out@ =~= seq!['O', 'p', 't', 'i', 'o', 'n', 's', ':', ' '] + joined(next));
        } else {
            out.append(items[i].as_str());
            assert(joined(next) == items@[0]@);
            assert(joined(views.take(0)) =~= Seq::<char>::empty());
            assert(out@ =~= seq!['O', 'p', 't', 'i', 'o', 'n', 's', ':', ' '] + joined(next));
        }
        i = i + 1;
    }
    assert(views.take(items@.len() as int) =~= views);
    out
}

} // verus!
