//! The top-level dispatch of a batch of requested task names, the
//! ordered listing of the registry, and the text measurements the
//! listing relies on (grapheme-aware lengths and slices, and ANSI
//! colour escapes).

use unicode_segmentation::UnicodeSegmentation;
use vstd::prelude::*;
use vstd::string::StringExecFns;

use crate::config::{
    reg_get_index, registry_contains, registry_map, registry_names, task_count, AlchemistConfig,
};
use crate::error::AlchemistError;
use crate::tasks::{pair_views, string_views, RunnableTask};

verus! {

// ---------------------------------------------------------------------
// Top-level dispatch
// ---------------------------------------------------------------------
/// What the top-level dispatch tells its driver for each requested
/// task name.
pub enum BatchAction {
    /// Resolve and run the named task, then come back with its result.
    RunTask(String),
    /// The name is not in the registry: warn, and go on with the next
    /// requested name.
    SkipMissing(String),
    /// A task has failed; stop and surface this error.
    Abort(AlchemistError),
    /// Every requested name has been handled.
    Finished,
}

/// The contract of [`next_batch_action`]: requested names are handled
/// strictly in the given order; a name absent from the registry is
/// only warned about, while a failure of a task that did run aborts
/// the remaining names with that error unchanged.
pub open spec fn batch_post(
    commands: Seq<String>,
    idx: int,
    prev: Result<(), AlchemistError>,
    cfg: AlchemistConfig,
    r: BatchAction,
) -> bool {
    match prev {
        Err(e) => r matches BatchAction::Abort(e2) && e2 == e,
        Ok(u) => {
            if idx >= commands.len() {
                r is Finished
            } else {
                let name = commands[idx]@;
                if registry_contains(cfg, name) {
                    r matches BatchAction::RunTask(n) && n@ == name
                } else {
                    r matches BatchAction::SkipMissing(n) && n@ == name
                }
            }
        },
    }
}

/// Decides what the top-level dispatch does with the requested name at
/// position `idx`, given the result `prev` of everything before it.
/// The driver starts with `idx = 0` and `prev = Ok(())`, runs each
/// issued task under its own name, and calls back with `idx + 1` and
/// the task's result (or `prev` unchanged after a warning).
pub fn next_batch_action(
    commands: &Vec<String>,
    idx: usize,
    prev: Result<(), AlchemistError>,
    config: &AlchemistConfig,
) -> (r: BatchAction)
    ensures
        batch_post(commands@, idx as int, prev, *config, r),
{
    match prev {
        Err(e) => BatchAction::Abort(e),
        Ok(_) => {
            if idx >= commands.len() {
                BatchAction::Finished
            } else {
                let name = &commands[idx];
                match crate::config::resolve(config, name.as_str()) {
                    Some(_) => BatchAction::RunTask(name.clone()),
                    None => BatchAction::SkipMissing(name.clone()),
                }
            }
        },
    }
}

// ---------------------------------------------------------------------
// Listing
// ---------------------------------------------------------------------
/// The listing of the first `i` registry entries, in registry order:
/// the name and the description of every task that is shown (or of
/// every task, when `include_hidden` is set).
pub open spec fn listing_prefix(cfg: AlchemistConfig, include_hidden: bool, i: int) -> Seq<
    (Seq<char>, Seq<char>),
>
    decreases i,
{
    if i <= 0 {
        Seq::empty()
    } else {
        let name = registry_names(cfg.tasks)[i - 1];
        let task = registry_map(cfg.tasks)[name];
        listing_prefix(cfg, include_hidden, i - 1) + (if task.is_shown_spec() || include_hidden {
            seq![(name, task.describe_spec())]
        } else {
            Seq::empty()
        })
    }
}

/// Lists the registry in its insertion order: each task's name and
/// description, leaving out hidden tasks unless `include_hidden` is
/// set. Pure: the registry is never touched.
pub fn describe_all(config: &AlchemistConfig, include_hidden: bool) -> (r: Vec<(String, String)>)
    ensures
        pair_views(r@) == listing_prefix(
            *config,
            include_hidden,
            registry_names(config.tasks).len() as int,
        ),
{
    let n = task_count(config);
    let mut r: Vec<(String, String)> = Vec::new();
    let mut i: usize = 0;
    while i < n
        invariant
            i <= n,
            n == registry_names(config.tasks).len(),
            pair_views(r@) == listing_prefix(*config, include_hidden, i as int),
        decreases n - i,
    {
        let ghost prev = pair_views(r@);
        match reg_get_index(&config.tasks, i) {
            Some((name, task)) => {
                if task.is_shown() || include_hidden {
                    let d = task.describe();
                    r.push((name.clone(), d));
                    proof {
                        assert(pair_views(r@) =~= prev + seq![
                            (
                                registry_names(config.tasks)[i as int],
                                registry_map(config.tasks)[registry_names(
                                    config.tasks,
                                )[i as int]].describe_spec(),
                            ),
                        ]);
                    }
                } else {
                    proof {
                        assert(pair_views(r@) =~= listing_prefix(
                            *config,
                            include_hidden,
                            i + 1,
                        ));
                    }
                }
            },
            None => {
                proof {
                    assert(false);
                }
            },
        }
        i = i + 1;
    }
    r
}

// ---------------------------------------------------------------------
// Grapheme-aware text measurement
// ---------------------------------------------------------------------
/// The concatenation of `gs[lo .. hi]`.
pub open spec fn concat_range(gs: Seq<Seq<char>>, lo: int, hi: int) -> Seq<char>
    decreases hi - lo,
{
    if lo >= hi {
        Seq::empty()
    } else {
        concat_range(gs, lo, hi - 1) + gs[hi - 1]
    }
}

/// The extended grapheme clusters of a string, in order.
pub uninterp spec fn graphemes_of(s: Seq<char>) -> Seq<Seq<char>>;

/// Relies on `unicode_segmentation`'s `UnicodeSegmentation::graphemes`
/// (with extended grapheme clusters): the segmentation depends on the
/// characters alone, and the clusters are substrings that concatenate
/// back to the input.
#[verifier::external_body]
fn split_graphemes(s: &str) -> (r: Vec<String>)
    ensures
        string_views(r@) == graphemes_of(s@),
        concat_range(string_views(r@), 0, r@.len() as int) == s@,
{
    s.graphemes(true).map(|g| g.to_string()).collect()
}

/// The number of extended grapheme clusters in the string — the length
/// a terminal user perceives, rather than the byte length.
pub fn grapheme_length(s: &str) -> (r: usize)
    ensures
        r == graphemes_of(s@).len(),
{
    let gs = split_graphemes(s);
    proof {
        assert(string_views(gs@).len() == gs@.len());
    }
    gs.len()
}

/// The grapheme clusters of the string from position `start` (default:
/// the beginning) up to position `end` (exclusive; default: the end),
/// concatenated; out-of-range and crossed positions are clamped, so
/// that no input slices a cluster apart or reaches past the string.
pub open spec fn grapheme_range_spec(s: Seq<char>, start: Option<usize>, end: Option<
    usize,
>) -> Seq<char> {
    if start is None && end is None {
        s
    } else {
        let gs = graphemes_of(s);
        let from = (match start {
            Some(v) => v as int,
            None => 0,
        });
        let lo = if from > gs.len() {
            gs.len() as int
        } else {
            from
        };
        let hi = (match end {
            Some(e) => {
                let cnt = if e as int >= from {
                    e - from
                } else {
                    0
                };
                if lo + cnt > gs.len() {
                    gs.len() as int
                } else {
                    lo + cnt
                }
            },
            None => gs.len() as int,
        });
        concat_range(gs, lo, hi)
    }
}

/// Slices the string by grapheme positions rather than byte positions,
/// clamping out-of-range positions: safe on any input, where byte
/// slicing would panic inside a multi-byte character.
pub fn graphemes_in_range_safe(s: &str, start: Option<usize>, end: Option<usize>) -> (r: String)
    ensures
        r@ == grapheme_range_spec(s@, start, end),
{
    if start.is_none() && end.is_none() {
        return String::from_str(s);
    }
    let gs = split_graphemes(s);
    let ghost views = graphemes_of(s@);
    proof {
        assert(string_views(gs@).len() == gs@.len());
    }
    let from: usize = match start {
        Some(v) => v,
        None => 0,
    };
    let lo: usize = if from > gs.len() {
        gs.len()
    } else {
        from
    };
    let hi: usize = match end {
        Some(e) => {
            let cnt: usize = if e >= from {
                e - from
            } else {
                0
            };
            if cnt > gs.len() - lo {
                gs.len()
            } else {
                lo + cnt
            }
        },
        None => gs.len(),
    };
    let mut r = String::new();
    let mut j: usize = lo;
    proof {
        assert(r@ =~= concat_range(views, lo as int, lo as int));
    }
    while j < hi
        invariant
            lo <= j <= hi,
            hi <= gs@.len(),
            views == graphemes_of(s@),
            string_views(gs@) == views,
            r@ == concat_range(views, lo as int, j as int),
        decreases hi - j,
    {
        r.append(gs[j].as_str());
        proof {
            assert(gs@[j as int]@ == views[j as int]);
        }
        j = j + 1;
    }
    proof {
        assert(r@ == grapheme_range_spec(s@, start, end));
    }
    r
}

// ---------------------------------------------------------------------
// ANSI colour escapes
// ---------------------------------------------------------------------
/// One ANSI escape found in a string: the full matched text, the
/// parameter digits, and the final code letter.
pub struct AnsiEscape {
    pub fullmatch: String,
    pub params: String,
    pub code: char,
}

/// The ANSI escapes of a string, in order: for each, its full text,
/// its parameters and its code letter.
pub uninterp spec fn ansi_escapes_of(s: Seq<char>) -> Seq<(Seq<char>, Seq<char>, char)>;

/// The string with every ANSI escape removed.
pub uninterp spec fn ansi_stripped_of(s: Seq<char>) -> Seq<char>;

/// The views of a sequence of found escapes.
pub open spec fn ansi_escape_views(es: Seq<AnsiEscape>) -> Seq<(Seq<char>, Seq<char>, char)> {
    es.map_values(|e: AnsiEscape| (e.fullmatch@, e.params@, e.code))
}

/// Relies on `regex`'s `Regex::captures_iter` with the pattern
/// `\x1B\[(?P<params>[0-9;]+)(?P<code>[A-Za-z])`: the non-overlapping
/// matches depend on the characters alone, and each match captures the
/// parameter digits and the single code letter.
#[verifier::external_body]
fn find_ansi_escapes(s: &str) -> (r: Vec<AnsiEscape>)
    ensures
        ansi_escape_views(r@) == ansi_escapes_of(s@),
{
    let re = regex::Regex::new(r"\x1B\[(?P<params>[0-9;]+)(?P<code>[A-Za-z])").unwrap();
    let mut out = Vec::new();
    for cap in re.captures_iter(s) {
        let code = cap["code"].chars().next().unwrap();
        out.push(AnsiEscape { fullmatch: cap[0].to_string(), params: cap["params"].to_string(), code });
    }
    out
}

/// Relies on `regex`'s `Regex::replace_all` with the same pattern and
/// an empty replacement: every non-overlapping match is removed, and a
/// string without a match is returned unchanged.
#[verifier::external_body]
fn strip_ansi_escapes(s: &str) -> (r: String)
    ensures
        r@ == ansi_stripped_of(s@),
        ansi_escapes_of(s@).len() == 0 ==> r@ == s@,
{
    let re = regex::Regex::new(r"\x1B\[(?P<params>[0-9;]+)(?P<code>[A-Za-z])").unwrap();
    re.replace_all(s, "").into_owned()
}

/// Finds the ANSI escapes of the string, in order.
pub fn extract_ansi_escapes(s: &str) -> (r: Vec<AnsiEscape>)
    ensures
        ansi_escape_views(r@) == ansi_escapes_of(s@),
{
    find_ansi_escapes(s)
}

/// Whether every ANSI escape in the string is a colour escape (code
/// letter `m`).
pub open spec fn only_ansi_colors(s: Seq<char>) -> bool {
    forall|i: int| 0 <= i < ansi_escapes_of(s).len() ==> ansi_escapes_of(s)[i].2 == 'm'
}

/// Checks that every ANSI escape in the string is a colour escape;
/// other escape codes (cursor movement and the like) are not supported
/// by the length measurement below.
pub fn assert_only_ansi_colors(s: &str) -> (r: bool)
    ensures
        r == only_ansi_colors(s@),
{
    let escapes = extract_ansi_escapes(s);
    proof {
        assert(ansi_escape_views(escapes@).len() == escapes@.len());
    }
    let mut i: usize = 0;
    let mut all_colors = true;
    while i < escapes.len()
        invariant
            i <= escapes@.len(),
            ansi_escape_views(escapes@) == ansi_escapes_of(s@),
            escapes@.len() == ansi_escapes_of(s@).len(),
            all_colors <==> (forall|j: int| 0 <= j < i ==> ansi_escapes_of(s@)[j].2 == 'm'),
        decreases escapes@.len() - i,
    {
        proof {
            assert(ansi_escapes_of(s@)[i as int] == (
                escapes@[i as int].fullmatch@,
                escapes@[i as int].params@,
                escapes@[i as int].code,
            ));
        }
        if escapes[i].code != 'm' {
            all_colors = false;
        }
        i = i + 1;
    }
    all_colors
}

/// The perceived length of a possibly colour-coded string: the number
/// of grapheme clusters once the colour escapes are removed. The input
/// must carry no ANSI escape other than colours.
pub fn grapheme_length_colored(s: &str) -> (r: usize)
    requires
        only_ansi_colors(s@),
    ensures
        r == graphemes_of(ansi_stripped_of(s@)).len(),
{
    let stripped = strip_ansi_escapes(s);
    grapheme_length(stripped.as_str())
}

/// The perceived length of a possibly colour-coded string, or nothing
/// when the string carries an ANSI escape other than a colour.
pub fn grapheme_length_colored_checked(s: &str) -> (r: Option<usize>)
    ensures
        r is Some <==> only_ansi_colors(s@),
        r matches Some(n) ==> n == graphemes_of(ansi_stripped_of(s@)).len(),
{
    if assert_only_ansi_colors(s) {
        Some(grapheme_length_colored(s))
    } else {
        None
    }
}

} // verus!

