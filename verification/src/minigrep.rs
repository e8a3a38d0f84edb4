//! Line-oriented text search: which lines of a text contain a query, with or
//! without regard to letter case.

use vstd::prelude::*;

verus! {

/// What to search for, where, and how.
#[derive(Debug)]
pub struct Config {
    pub query: String,
    pub filename: String,
    pub case_sensitive: bool,
}

/// The position of the first line feed in `text`, or the length of `text`
/// where it holds none.
pub open spec fn first_line_feed(text: Seq<char>) -> int
    decreases text.len(),
{
    if text.len() == 0 || text[0] == '\n' {
        0
    } else {
        1 + first_line_feed(text.drop_first())
    }
}

/// The first line feed lies within the text, or at its end where there is
/// none; no line feed stands before it.
pub proof fn lemma_first_line_feed(text: Seq<char>)
    ensures
        0 <= first_line_feed(text) <= text.len(),
        first_line_feed(text) < text.len() ==> text[first_line_feed(text)] == '\n',
        forall|i: int| 0 <= i < first_line_feed(text) ==> text[i] != '\n',
    decreases text.len(),
{
    if text.len() > 0 && text[0] != '\n' {
        let rest = text.drop_first();
        lemma_first_line_feed(rest);
        assert forall|i: int| 0 <= i < first_line_feed(text) implies text[i] != '\n' by {
            if i > 0 {
                assert(text[i] == rest[i - 1]);
            }
        }
    }
}

/// `line` without the carriage return at its end, if it has one.
pub open spec fn without_carriage_return(line: Seq<char>) -> Seq<char> {
    if line.len() > 0 && line.last() == '\r' {
        line.drop_last()
    } else {
        line
    }
}

/// The lines of `text`.
///
/// A line ends with a line feed, or with a carriage return directly followed
/// by a line feed; neither belongs to the line. What follows the last line
/// feed is a line of its own unless it is empty, and is taken as it stands.
pub open spec fn lines_of(text: Seq<char>) -> Seq<Seq<char>>
    decreases text.len(),
{
    if text.len() == 0 {
        Seq::empty()
    } else {
        let end = first_line_feed(text);
        if end >= text.len() {
            seq![text]
        } else {
            proof {
                lemma_first_line_feed(text);
            }
            seq![without_carriage_return(text.take(end))] + lines_of(text.skip(end + 1))
        }
    }
}

/// Whether `needle` occurs in `haystack` as a contiguous run of characters.
pub open spec fn has_substring(haystack: Seq<char>, needle: Seq<char>) -> bool {
    exists|start: int|
        0 <= start <= haystack.len() - needle.len() && #[trigger] haystack.subrange(
            start,
            start + needle.len(),
        ) == needle
}

/// The lowercase form of a text as Unicode defines it.
pub uninterp spec fn lowercase(text: Seq<char>) -> Seq<char>;

/// The text of each string slice of `slices`.
pub open spec fn texts(slices: Seq<&str>) -> Seq<Seq<char>> {
    Seq::new(slices.len(), |i: int| slices[i]@)
}

/// Those of `lines` that contain `query`, in their order.
pub open spec fn matching(lines: Seq<Seq<char>>, query: Seq<char>) -> Seq<Seq<char>>
    decreases lines.len(),
{
    if lines.len() == 0 {
        Seq::empty()
    } else if has_substring(lines.last(), query) {
        matching(lines.drop_last(), query).push(lines.last())
    } else {
        matching(lines.drop_last(), query)
    }
}

/// Those of `lines` whose lowercase form contains `query`, in their order.
pub open spec fn matching_lowercased(lines: Seq<Seq<char>>, query: Seq<char>) -> Seq<Seq<char>>
    decreases lines.len(),
{
    if lines.len() == 0 {
        Seq::empty()
    } else if has_substring(lowercase(lines.last()), query) {
        matching_lowercased(lines.drop_last(), query).push(lines.last())
    } else {
        matching_lowercased(lines.drop_last(), query)
    }
}

/// Calls `str::lines` and collects what it yields.
///
/// Trusted: the slices returned are the lines of `contents` as `lines_of`
/// defines them, which restates the documentation of `str::lines`.
#[verifier::external_body]
fn lines<'a>(contents: &'a str) -> (all: Vec<&'a str>)
    ensures
        texts(all@) == lines_of(contents@),
{
    contents.lines().collect()
}

/// Calls `str::contains` with a string pattern.
///
/// Trusted: the answer is whether `needle` matches a sub-slice of
/// `haystack`.
#[verifier::external_body]
fn contains(haystack: &str, needle: &str) -> (found: bool)
    ensures
        found == has_substring(haystack@, needle@),
{
    haystack.contains(needle)
}

/// Calls `str::to_lowercase`.
///
/// Trusted: the result depends on the text alone; it is given the name
/// `lowercase` and nothing else is claimed of it.
#[verifier::external_body]
fn to_lowercase(text: &str) -> (lowered: String)
    ensures
        lowered@ == lowercase(text@),
{
    text.to_lowercase()
}

impl Config {
    /// Reads a configuration from command-line arguments, of which the first
    /// is the program's own name and is skipped. The second is the query and
    /// the third the file name; further arguments are ignored.
    pub fn new(args: Vec<String>, case_sensitive: bool) -> (result: Result<Config, &'static str>)
        ensures
            match result {
                Ok(config) => {
                    &&& args@.len() > 2
                    &&& config.query == args@[1]
                    &&& config.filename == args@[2]
                    &&& config.case_sensitive == case_sensitive
                },
                Err(message) => if args@.len() < 2 {
                    message@ == "Expected: query string."@
                } else {
                    args@.len() == 2 && message@ == "Expected: filename."@
                },
            },
    {
        let mut args = args;
        if args.len() < 2 {
            return Err("Expected: query string.");
        }
        if args.len() < 3 {
            return Err("Expected: filename.");
        }
        let filename = args.remove(2);
        let query = args.remove(1);
        Ok(Config { query, filename, case_sensitive })
    }
}

/// The lines of `contents` that contain `query`, in their order.
pub fn search<'a>(query: &str, contents: &'a str) -> (found: Vec<&'a str>)
    ensures
        texts(found@) == matching(lines_of(contents@), query@),
{
    let all = lines(contents);
    let mut found: Vec<&'a str> = Vec::new();
    let mut i: usize = 0;
    while i < all.len()
        invariant
            i <= all@.len(),
            texts(found@) == matching(texts(all@).take(i as int), query@),
        decreases all@.len() - i,
    {
        let line = all[i];
        proof {
            assert(texts(all@).take(i as int + 1).drop_last() =~= texts(all@).take(i as int));
            assert(texts(all@).take(i as int + 1).last() == line@);
        }
        if contains(line, query) {
            let ghost before = found@;
            found.push(line);
            assert(texts(found@) =~= texts(before).push(line@));
        }
        i += 1;
    }
    assert(texts(all@).take(all@.len() as int) =~= texts(all@));
    found
}

/// The lines of `contents` that contain `query` when letter case is
/// disregarded, in their order: both the query and each line are compared in
/// their lowercase form.
pub fn isearch<'a>(query: &str, contents: &'a str) -> (found: Vec<&'a str>)
    ensures
        texts(found@) == matching_lowercased(lines_of(contents@), lowercase(query@)),
{
    let query = to_lowercase(query);
    let all = lines(contents);
    let mut found: Vec<&'a str> = Vec::new();
    let mut i: usize = 0;
    while i < all.len()
        invariant
            i <= all@.len(),
            texts(found@) == matching_lowercased(texts(all@).take(i as int), query@),
        decreases all@.len() - i,
    {
        let line = all[i];
        proof {
            assert(texts(all@).take(i as int + 1).drop_last() =~= texts(all@).take(i as int));
            assert(texts(all@).take(i as int + 1).last() == line@);
        }
        let lowered = to_lowercase(line);
        if contains(lowered.as_str(), query.as_str()) {
            let ghost before = found@;
            found.push(line);
            assert(texts(found@) =~= texts(before).push(line@));
        }
        i += 1;
    }
    assert(texts(all@).take(all@.len() as int) =~= texts(all@));
    found
}

/// The lines of `contents` that the configuration asks for: those that
/// contain its query, compared with regard to letter case or without it.
pub fn select<'a>(config: &Config, contents: &'a str) -> (found: Vec<&'a str>)
    ensures
        texts(found@) == if config.case_sensitive {
            matching(lines_of(contents@), config.query@)
        } else {
            matching_lowercased(lines_of(contents@), lowercase(config.query@))
        },
{
    if config.case_sensitive {
        search(config.query.as_str(), contents)
    } else {
        isearch(config.query.as_str(), contents)
    }
}

} // verus!
