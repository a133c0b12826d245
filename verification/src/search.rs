//! File search with ripgrep: the command lines for a content search and for
//! a file listing, and the reading of their output.
//!
//! A content search runs `rg --line-number --no-heading --with-filename
//! [filters] QUERY PATHS...` and prints `path:line:content` lines. A file
//! search runs `rg --files [filters] PATHS...`; the files whose name contains
//! the query, ignoring case, are the hits. Filename hits come before content
//! hits. Running the command is left to the caller.

use vstd::prelude::*;
use crate::text::{
    chars_of, delimits, is_blank, lines_of, line_ranges, spec_to_lowercase, parse_usize,
    spec_is_blank, spec_parse_usize, string_from_chars, to_lowercase,
};
use crate::version::{decimal, decimal_text};

verus! {

/// One search hit.
#[derive(Debug, Clone)]
pub struct SearchResultItem {
    /// Path of the file.
    pub path: String,
    /// Line of the hit; None for a filename hit or an unreadable number.
    pub line_number: Option<usize>,
    /// The matching line, or a note for a filename hit.
    pub content: String,
    /// Lines before the hit (not read from the output).
    pub context_before: Option<Vec<String>>,
    /// Lines after the hit (not read from the output).
    pub context_after: Option<Vec<String>>,
}

/// Restrictions of a search.
#[derive(Debug, Clone)]
pub struct SearchFilters {
    /// ripgrep file types to search (`--type`).
    pub file_types: Option<Vec<String>>,
    /// Globs of paths to leave out (`--glob !…`).
    pub exclude_paths: Option<Vec<String>>,
    /// Maximum number of matching lines per file (`--max-count`).
    pub max_results: Option<usize>,
    /// Lines of context before a hit (`--before-context`).
    pub context_before: Option<usize>,
    /// Lines of context after a hit (`--after-context`).
    pub context_after: Option<usize>,
}

/// Search service implementation using ripgrep.
#[derive(Debug, Clone, Copy)]
pub struct RipgrepSearchService;

// ============================================================================
// Command lines
// ============================================================================

/// The views of a list of strings.
pub open spec fn texts(v: Seq<String>) -> Seq<Seq<char>> {
    v.map_values(|s: String| s@)
}

/// `flag item` for every item, in order.
pub open spec fn flag_pairs(flag: Seq<char>, items: Seq<Seq<char>>) -> Seq<Seq<char>>
    decreases items.len(),
{
    if items.len() == 0 {
        Seq::empty()
    } else {
        flag_pairs(flag, items.drop_last()) + seq![flag, items.last()]
    }
}

/// Every item with a `!` in front (a negated glob).
pub open spec fn negated(items: Seq<Seq<char>>) -> Seq<Seq<char>> {
    items.map_values(|s: Seq<char>| seq!['!'] + s)
}

/// `flag n` when a number is given.
pub open spec fn number_option(flag: Seq<char>, n: Option<usize>) -> Seq<Seq<char>> {
    match n {
        Some(v) => seq![flag, decimal_text(v as nat)],
        None => Seq::empty(),
    }
}

/// The file type and exclusion arguments of the filters.
pub open spec fn selection_args(f: Option<SearchFilters>) -> Seq<Seq<char>> {
    match f {
        None => Seq::empty(),
        Some(f) => {
            (match f.file_types {
                Some(ts) => flag_pairs("--type"@, texts(ts@)),
                None => Seq::empty(),
            }) + (match f.exclude_paths {
                Some(es) => flag_pairs("--glob"@, negated(texts(es@))),
                None => Seq::empty(),
            })
        },
    }
}

/// The count and context arguments of the filters.
pub open spec fn limit_args(f: Option<SearchFilters>) -> Seq<Seq<char>> {
    match f {
        None => Seq::empty(),
        Some(f) => number_option("--max-count"@, f.max_results) + number_option(
            "--before-context"@,
            f.context_before,
        ) + number_option("--after-context"@, f.context_after),
    }
}

/// Arguments of a content search.
pub open spec fn content_args(query: Seq<char>, paths: Seq<String>, f: Option<SearchFilters>) -> Seq<
    Seq<char>,
> {
    seq!["--line-number"@, "--no-heading"@, "--with-filename"@] + selection_args(f) + limit_args(f)
        + seq![query] + texts(paths)
}

/// Arguments of a file listing.
pub open spec fn listing_args(paths: Seq<String>, f: Option<SearchFilters>) -> Seq<Seq<char>> {
    seq!["--files"@] + selection_args(f) + texts(paths)
}

/// Appends `flag item` for every item (with `!` in front when `negate`).
fn push_flag_pairs(args: &mut Vec<String>, flag: &str, items: &Vec<String>, negate: bool)
    ensures
        texts(final(args)@) == texts(old(args)@) + flag_pairs(
            flag@,
            if negate {
                negated(texts(items@))
            } else {
                texts(items@)
            },
        ),
{
    let ghost base = texts(args@);
    let ghost all = if negate {
        negated(texts(items@))
    } else {
        texts(items@)
    };
    let n = items.len();
    let mut i: usize = 0;
    while i < n
        invariant
            n == items@.len(),
            i <= n,
            all == (if negate {
                negated(texts(items@))
            } else {
                texts(items@)
            }),
            all.len() == n,
            texts(args@) == base + flag_pairs(flag@, all.take(i as int)),
        decreases n - i,
    {
        let ghost before = args@;
        let f = String::from_str(flag);
        args.push(f);
        let item = if negate {
            let mut g = String::from_str("!");
            g.append(items[i].as_str());
            proof {
                reveal_strlit("!");
            }
            g
        } else {
            items[i].clone()
        };
        let ghost item_view = item@;
        args.push(item);
        proof {
            assert(all.take(i + 1).drop_last() =~= all.take(i as int));
            assert(all[i as int] == item_view);
            assert(texts(args@) =~= texts(before) + seq![flag@, item_view]);
            assert(flag_pairs(flag@, all.take(i + 1)) == flag_pairs(flag@, all.take(i as int))
                + seq![flag@, all[i as int]]);
            assert(texts(args@) =~= base + flag_pairs(flag@, all.take(i + 1)));
        }
        i = i + 1;
    }
    proof {
        assert(all.take(n as int) =~= all);
    }
}

/// Appends `flag n` when a number is given.
fn push_number_option(args: &mut Vec<String>, flag: &str, n: Option<usize>)
    ensures
        texts(final(args)@) == texts(old(args)@) + number_option(flag@, n),
{
    match n {
        Some(v) => {
            let ghost base = texts(args@);
            args.push(String::from_str(flag));
            args.push(decimal(v as u64));
            proof {
                assert(texts(args@) =~= base + number_option(flag@, n));
            }
        },
        None => {
            proof {
                assert(texts(args@) =~= texts(args@) + number_option(flag@, n));
            }
        },
    }
}

/// Appends the file type and exclusion arguments of the filters.
fn push_selection_args(args: &mut Vec<String>, filters: &Option<SearchFilters>)
    ensures
        texts(final(args)@) == texts(old(args)@) + selection_args(*filters),
{
    let ghost base = texts(args@);
    proof {
        reveal_strlit("--type");
        reveal_strlit("--glob");
    }
    match filters {
        None => {
            assert(texts(args@) =~= base + selection_args(*filters));
        },
        Some(f) => {
            match &f.file_types {
                Some(ts) => push_flag_pairs(args, "--type", ts, false),
                None => {},
            }
            let ghost mid = texts(args@);
            match &f.exclude_paths {
                Some(es) => push_flag_pairs(args, "--glob", es, true),
                None => {},
            }
            proof {
                assert(texts(args@) =~= base + selection_args(*filters));
            }
        },
    }
}

/// Appends every string of `items`.
fn push_all(args: &mut Vec<String>, items: &Vec<String>)
    ensures
        texts(final(args)@) == texts(old(args)@) + texts(items@),
{
    let ghost base = texts(args@);
    let n = items.len();
    let mut i: usize = 0;
    while i < n
        invariant
            n == items@.len(),
            i <= n,
            texts(args@) == base + texts(items@).take(i as int),
        decreases n - i,
    {
        let ghost before = args@;
        args.push(items[i].clone());
        proof {
            assert(texts(args@) =~= texts(before).push(items@[i as int]@));
            assert(texts(items@).take(i + 1) =~= texts(items@).take(i as int).push(items@[i as int]@));
            assert(texts(args@) =~= base + texts(items@).take(i + 1));
        }
        i = i + 1;
    }
    proof {
        assert(texts(items@).take(n as int) =~= texts(items@));
    }
}

// ============================================================================
// Reading the output
// ============================================================================

/// The first two `:` of a line are at `i` and `j`.
pub open spec fn first_two_colons(l: Seq<char>, i: int, j: int) -> bool {
    &&& 0 <= i < j < l.len()
    &&& l[i] == ':'
    &&& l[j] == ':'
    &&& forall|k: int| 0 <= k < j && k != i ==> #[trigger] l[k] != ':'
}

/// `path:line:content` split at the first two colons, when there are two.
pub open spec fn colon_fields(l: Seq<char>) -> Option<(Seq<char>, Seq<char>, Seq<char>)> {
    if exists|i: int, j: int| first_two_colons(l, i, j) {
        let (i, j) = choose|i: int, j: int| first_two_colons(l, i, j);
        Some((l.subrange(0, i), l.subrange(i + 1, j), l.subrange(j + 1, l.len() as int)))
    } else {
        None
    }
}

/// What a line of content-search output gives: nothing for a blank line or
/// one with fewer than two colons; else path, line number (when the middle
/// field reads as a number) and content.
pub open spec fn hit_of_line(l: Seq<char>) -> Option<(Seq<char>, Option<usize>, Seq<char>)> {
    if spec_is_blank(l) {
        None
    } else {
        match colon_fields(l) {
            Some((p, m, c)) => Some((p, spec_parse_usize(m), c)),
            None => None,
        }
    }
}

/// The hits of some lines, in order.
pub open spec fn hits_of_lines(ls: Seq<Seq<char>>) -> Seq<(Seq<char>, Option<usize>, Seq<char>)>
    decreases ls.len(),
{
    if ls.len() == 0 {
        Seq::empty()
    } else {
        match hit_of_line(ls.last()) {
            Some(h) => hits_of_lines(ls.drop_last()).push(h),
            None => hits_of_lines(ls.drop_last()),
        }
    }
}

/// The (path, line number, content) values of hits.
pub open spec fn hit_views(v: Seq<SearchResultItem>) -> Seq<(Seq<char>, Option<usize>, Seq<char>)> {
    v.map_values(|it: SearchResultItem| (it.path@, it.line_number, it.content@))
}

/// No hit carries context lines.
pub open spec fn without_context(v: Seq<SearchResultItem>) -> bool {
    forall|k: int| 0 <= k < v.len() ==> (#[trigger] v[k]).context_before is None && v[k].context_after is None
}

/// The index of the first `:` in `chars[from..to]`, if any.
fn find_colon(chars: &Vec<char>, from: usize, to: usize) -> (r: Option<usize>)
    requires
        from <= to <= chars@.len(),
    ensures
        match r {
            Some(i) => from <= i < to && chars@[i as int] == ':' && forall|k: int|
                from <= k < i ==> #[trigger] chars@[k] != ':',
            None => forall|k: int| from <= k < to ==> #[trigger] chars@[k] != ':',
        },
{
    let mut i = from;
    while i < to
        invariant
            from <= i <= to <= chars@.len(),
            forall|k: int| from <= k < i ==> #[trigger] chars@[k] != ':',
        decreases to - i,
    {
        if chars[i] == ':' {
            return Some(i);
        }
        i = i + 1;
    }
    None
}

/// The hit of the line `chars[from..to]`.
fn hit_of_range(chars: &Vec<char>, from: usize, to: usize) -> (r: Option<SearchResultItem>)
    requires
        from <= to <= chars@.len(),
    ensures
        match r {
            Some(it) => hit_of_line(chars@.subrange(from as int, to as int)) == Some(
                (it.path@, it.line_number, it.content@),
            ) && it.context_before is None && it.context_after is None,
            None => hit_of_line(chars@.subrange(from as int, to as int)) is None,
        },
{
    let ghost l = chars@.subrange(from as int, to as int);
    let line = string_from_chars(chars, from, to);
    if is_blank(line.as_str()) {
        return None;
    }
    match find_colon(chars, from, to) {
        None => {
            proof {
                assert forall|i: int, j: int| !first_two_colons(l, i, j) by {
                    if 0 <= i < l.len() {
                        assert(l[i] == chars@[from + i]);
                    }
                }
            }
            None
        },
        Some(i) => match find_colon(chars, i + 1, to) {
            None => {
                proof {
                    assert forall|a: int, b: int| !first_two_colons(l, a, b) by {
                        if first_two_colons(l, a, b) {
                            assert(l[b] == chars@[from + b]);
                            assert(l[a] == chars@[from + a]);
                            if a < i - from {
                                assert(chars@[from + a] != ':');
                            } else if a > i - from {
                                assert(l[i - from] == chars@[i as int]);
                            }
                        }
                    }
                }
                None
            },
            Some(j) => {
                proof {
                    let (li, lj) = (i - from, j - from);
                    assert(first_two_colons(l, li, lj)) by {
                        assert forall|k: int| 0 <= k < lj && k != li implies #[trigger] l[k] != ':' by {
                            assert(l[k] == chars@[from + k]);
                        }
                    }
                    let (ci, cj) = choose|a: int, b: int| first_two_colons(l, a, b);
                    assert(ci == li && cj == lj) by {
                        if ci < li {
                            assert(l[ci] != ':');
                        } else if ci > li {
                            assert(l[li] != ':');
                        }
                        if cj < lj {
                            assert(l[cj] != ':');
                        } else if cj > lj {
                            assert(l[lj] != ':');
                        }
                    }
                    assert(l.subrange(0, li) =~= chars@.subrange(from as int, i as int));
                    assert(l.subrange(li + 1, lj) =~= chars@.subrange(i + 1, j as int));
                    assert(l.subrange(lj + 1, l.len() as int) =~= chars@.subrange(j + 1, to as int));
                }
                let path = string_from_chars(chars, from, i);
                let line_number = parse_usize(chars, i + 1, j);
                let content = string_from_chars(chars, j + 1, to);
                Some(SearchResultItem { path, line_number, content, context_before: None, context_after: None })
            },
        },
    }
}

// ============================================================================
// Filename hits
// ============================================================================

/// What `std::path::Path::file_name` gives for a path (as lossless text:
/// the path is a `&str`): its final component, or None when there is none
/// (the root, an empty path) or it is `..`.
pub uninterp spec fn file_name_of(path: Seq<char>) -> Option<Seq<char>>;

/// `Path::new(path).file_name()`, as a string.
///
/// Claimed: the result depends on the text alone (named `file_name_of`);
/// the rules of path components are not restated.
#[verifier::external_body]
fn path_file_name(path: &str) -> (r: Option<String>)
    ensures
        match r {
            Some(f) => file_name_of(path@) == Some(f@),
            None => file_name_of(path@) is None,
        },
{
    std::path::Path::new(path).file_name().map(|f| f.to_string_lossy().into_owned())
}

/// `needle` occurs in `hay`.
pub open spec fn contains_seq(hay: Seq<char>, needle: Seq<char>) -> bool {
    exists|i: int|
        0 <= i && i + needle.len() <= hay.len() && #[trigger] hay.subrange(i, i + needle.len())
            == needle
}

/// Whether `needle` occurs in `hay`.
fn contains_chars(hay: &Vec<char>, needle: &Vec<char>) -> (r: bool)
    ensures
        r == contains_seq(hay@, needle@),
{
    let n = hay.len();
    let m = needle.len();
    if m > n {
        proof {
            assert forall|i: int| !(0 <= i && i + m <= n && #[trigger] hay@.subrange(i, i + m) == needle@) by {}
        }
        return false;
    }
    let mut i: usize = 0;
    while i <= n - m
        invariant
            n == hay@.len(),
            m == needle@.len(),
            m <= n,
            i <= n - m + 1,
            forall|a: int| 0 <= a < i ==> #[trigger] hay@.subrange(a, a + m) != needle@,
        decreases n - m + 1 - i,
    {
        let mut j: usize = 0;
        let mut same = true;
        while j < m
            invariant
                n == hay@.len(),
                m == needle@.len(),
                i + m <= n,
                j <= m,
                same == (forall|b: int| 0 <= b < j ==> hay@[i + b] == needle@[b]),
            decreases m - j,
        {
            if hay[i + j] != needle[j] {
                same = false;
            }
            j = j + 1;
        }
        if same {
            proof {
                assert(hay@.subrange(i as int, i + m) =~= needle@);
            }
            return true;
        }
        proof {
            assert(hay@.subrange(i as int, i + m) != needle@) by {
                let b = choose|b: int| 0 <= b < m && hay@[i + b] != needle@[b];
                assert(hay@.subrange(i as int, i + m)[b] == hay@[i + b]);
            }
        }
        i = i + 1;
    }
    false
}

/// The text shown for a filename hit.
pub open spec fn filename_note(name: Seq<char>) -> Seq<char> {
    "[Filename match: "@ + name + "]"@
}

/// What a line of a file listing gives: nothing for a blank line or a path
/// without a file name; else, when the file name contains the lowercased
/// query after lowercasing, the path and its note.
pub open spec fn filename_hit(l: Seq<char>, query_lower: Seq<char>) -> Option<(Seq<char>, Seq<char>)> {
    if spec_is_blank(l) {
        None
    } else {
        match file_name_of(l) {
            Some(f) => if contains_seq(spec_to_lowercase(f), query_lower) {
                Some((l, filename_note(f)))
            } else {
                None
            },
            None => None,
        }
    }
}

/// The filename hits of some lines, in order.
pub open spec fn filename_hits(ls: Seq<Seq<char>>, query_lower: Seq<char>) -> Seq<(Seq<char>, Seq<char>)>
    decreases ls.len(),
{
    if ls.len() == 0 {
        Seq::empty()
    } else {
        match filename_hit(ls.last(), query_lower) {
            Some(h) => filename_hits(ls.drop_last(), query_lower).push(h),
            None => filename_hits(ls.drop_last(), query_lower),
        }
    }
}

/// The (path, content) values of hits.
pub open spec fn note_views(v: Seq<SearchResultItem>) -> Seq<(Seq<char>, Seq<char>)> {
    v.map_values(|it: SearchResultItem| (it.path@, it.content@))
}

/// The filename hit of the line `chars[from..to]`.
fn filename_hit_of_range(chars: &Vec<char>, from: usize, to: usize, query_lower: &Vec<char>) -> (r: Option<SearchResultItem>)
    requires
        from <= to <= chars@.len(),
    ensures
        match r {
            Some(it) => filename_hit(chars@.subrange(from as int, to as int), query_lower@) == Some(
                (it.path@, it.content@),
            ) && it.line_number is None && it.context_before is None && it.context_after is None,
            None => filename_hit(chars@.subrange(from as int, to as int), query_lower@) is None,
        },
{
    let line = string_from_chars(chars, from, to);
    if is_blank(line.as_str()) {
        return None;
    }
    match path_file_name(line.as_str()) {
        None => None,
        Some(name) => {
            let lower = to_lowercase(name.as_str());
            let lower_chars = chars_of(lower.as_str());
            if contains_chars(&lower_chars, query_lower) {
                let mut content = String::from_str("[Filename match: ");
                content.append(name.as_str());
                content.append("]");
                proof {
                    reveal_strlit("[Filename match: ");
                    reveal_strlit("]");
                }
                Some(SearchResultItem { path: line, line_number: None, content, context_before: None, context_after: None })
            } else {
                None
            }
        },
    }
}

impl RipgrepSearchService {
    /// The files of a listing (one path per line) whose name contains the
    /// query, ignoring case, in listing order.
    pub fn filename_matches(&self, listing: &str, query: &str) -> (r: Vec<SearchResultItem>)
        ensures
            note_views(r@) == filename_hits(lines_of(listing@), spec_to_lowercase(query@)),
            forall|k: int| 0 <= k < r@.len() ==> (#[trigger] r@[k]).line_number is None,
            without_context(r@),
    {
        let query_lower = chars_of(to_lowercase(query).as_str());
        let chars = chars_of(listing);
        let ranges = line_ranges(&chars);
        let ghost ls = lines_of(chars@);
        let n = ranges.len();
        let mut items: Vec<SearchResultItem> = Vec::new();
        let mut k: usize = 0;
        while k < n
            invariant
                n == ranges@.len(),
                n == ls.len(),
                k <= n,
                ls == lines_of(chars@),
                query_lower@ == spec_to_lowercase(query@),
                forall|q: int| 0 <= q < ranges@.len() ==> delimits(chars@, #[trigger] ranges@[q], ls[q]),
                note_views(items@) == filename_hits(ls.take(k as int), query_lower@),
                forall|q: int| 0 <= q < items@.len() ==> (#[trigger] items@[q]).line_number is None,
                without_context(items@),
            decreases n - k,
        {
            let (from, to) = ranges[k];
            proof {
                assert(delimits(chars@, ranges@[k as int], ls[k as int]));
                assert(ls.take(k + 1).drop_last() =~= ls.take(k as int));
                assert(ls.take(k + 1).last() == ls[k as int]);
            }
            match filename_hit_of_range(&chars, from, to, &query_lower) {
                Some(it) => {
                    items.push(it);
                    proof {
                        assert(note_views(items@) =~= filename_hits(ls.take(k as int), query_lower@).push(
                            (it.path@, it.content@),
                        ));
                    }
                },
                None => {},
            }
            k = k + 1;
        }
        proof {
            assert(ls.take(n as int) =~= ls);
            assert(chars@ == listing@);
        }
        items
    }

    /// All hits of a search: the filename hits first, then the content hits.
    pub fn merge_results(filename_items: Vec<SearchResultItem>, content_items: Vec<SearchResultItem>) -> (r: Vec<SearchResultItem>)
        ensures
            r@ == filename_items@ + content_items@,
    {
        let mut all = filename_items;
        let mut rest = content_items;
        all.append(&mut rest);
        all
    }
}

impl RipgrepSearchService {
    /// The search service.
    pub fn new() -> (r: Self) {
        RipgrepSearchService
    }

    /// Arguments of `rg` for a search of file contents.
    pub fn content_search_args(
        &self,
        query: &str,
        search_paths: &Vec<String>,
        filters: &Option<SearchFilters>,
    ) -> (r: Vec<String>)
        ensures
            texts(r@) == content_args(query@, search_paths@, *filters),
    {
        let mut args: Vec<String> = Vec::new();
        args.push(String::from_str("--line-number"));
        args.push(String::from_str("--no-heading"));
        args.push(String::from_str("--with-filename"));
        let ghost start = texts(args@);
        push_selection_args(&mut args, filters);
        let ghost after_selection = texts(args@);
        match filters {
            Some(f) => {
                push_number_option(&mut args, "--max-count", f.max_results);
                push_number_option(&mut args, "--before-context", f.context_before);
                push_number_option(&mut args, "--after-context", f.context_after);
            },
            None => {},
        }
        let ghost before_query = texts(args@);
        proof {
            assert(before_query =~= after_selection + limit_args(*filters));
        }
        args.push(String::from_str(query));
        let ghost with_query = texts(args@);
        proof {
            assert(with_query =~= before_query + seq![query@]);
        }
        push_all(&mut args, search_paths);
        proof {
            reveal_strlit("--line-number");
            reveal_strlit("--no-heading");
            reveal_strlit("--with-filename");
            reveal_strlit("--max-count");
            reveal_strlit("--before-context");
            reveal_strlit("--after-context");
            assert(start =~= seq!["--line-number"@, "--no-heading"@, "--with-filename"@]);
            assert(texts(args@) =~= content_args(query@, search_paths@, *filters));
        }
        args
    }

    /// Arguments of `rg` for a listing of the files searched.
    pub fn filename_search_args(&self, search_paths: &Vec<String>, filters: &Option<SearchFilters>) -> (r: Vec<String>)
        ensures
            texts(r@) == listing_args(search_paths@, *filters),
    {
        let mut args: Vec<String> = Vec::new();
        args.push(String::from_str("--files"));
        push_selection_args(&mut args, filters);
        push_all(&mut args, search_paths);
        proof {
            reveal_strlit("--files");
            assert(texts(args@) =~= listing_args(search_paths@, *filters));
        }
        args
    }

    /// Reads the `path:line:content` lines of a content search, skipping
    /// blank lines and lines with fewer than two colons.
    pub fn parse_ripgrep_output(&self, output: &str) -> (r: Result<Vec<SearchResultItem>, String>)
        ensures
            r matches Ok(items) && hit_views(items@) == hits_of_lines(lines_of(output@))
                && without_context(items@),
    {
        let chars = chars_of(output);
        let ranges = line_ranges(&chars);
        let ghost ls = lines_of(chars@);
        let n = ranges.len();
        let mut items: Vec<SearchResultItem> = Vec::new();
        let mut k: usize = 0;
        while k < n
            invariant
                n == ranges@.len(),
                n == ls.len(),
                k <= n,
                ls == lines_of(chars@),
                forall|q: int| 0 <= q < ranges@.len() ==> delimits(chars@, #[trigger] ranges@[q], ls[q]),
                hit_views(items@) == hits_of_lines(ls.take(k as int)),
                without_context(items@),
            decreases n - k,
        {
            let (from, to) = ranges[k];
            proof {
                assert(delimits(chars@, ranges@[k as int], ls[k as int]));
                assert(ls.take(k + 1).drop_last() =~= ls.take(k as int));
                assert(ls.take(k + 1).last() == ls[k as int]);
            }
            match hit_of_range(&chars, from, to) {
                Some(it) => {
                    items.push(it);
                    proof {
                        assert(hit_views(items@) =~= hits_of_lines(ls.take(k as int)).push(
                            (it.path@, it.line_number, it.content@),
                        ));
                    }
                },
                None => {},
            }
            k = k + 1;
        }
        proof {
            assert(ls.take(n as int) =~= ls);
            assert(chars@ == output@);
        }
        Ok(items)
    }
}

impl Default for RipgrepSearchService {
    fn default() -> (r: Self) {
        RipgrepSearchService::new()
    }
}

} // verus!
