//! The regular expressions that find dates and times in file names, and the
//! calls into `regex` that compile and run them.

use vstd::prelude::*;
use vstd::string::StringSliceAdditionalSpecFns;
use vstd::utf8::is_char_boundary;

verus! {

/// `YYYYMMDD`.
pub const DATE_YMD: &'static str = r"(?<year>\d{4})(?<month>\d{2})(?<day>\d{2})";

/// `YYYY-MM-DD`, with any ASCII punctuation as the separator.
pub const DATE_Y_M_D: &'static str = r"(?<year>\d{4})[[:punct:]]{1}(?<month>\d{1,2})[[:punct:]]{1}(?<day>\d{1,2})";

/// `DDMMYYYY`.
pub const DATE_DMY: &'static str = r"(?<day>\d{2})(?<month>\d{2})(?<year>\d{4})";

/// `DD-MM-YYYY`, with any ASCII punctuation as the separator.
pub const DATE_D_M_Y: &'static str = r"(?<day>\d{1,2})[[:punct:]]{1}(?<month>\d{1,2})[[:punct:]]{1}(?<year>\d{4})";

/// `YYYYDDMM`.
pub const DATE_YDM: &'static str = r"(?<year>\d{4})(?<day>\d{2})(?<month>\d{2})";

/// `YYYY-DD-MM`, with any ASCII punctuation as the separator.
pub const DATE_Y_D_M: &'static str = r"(?<year>\d{4})[[:punct:]]{1}(?<day>\d{1,2})[[:punct:]]{1}(?<month>\d{1,2})";

/// `MMDDYYYY`.
pub const DATE_MDY: &'static str = r"(?<month>\d{1,2})(?<day>\d{1,2})(?<year>\d{4})";

/// `MM-DD-YYYY`, with any ASCII punctuation as the separator.
pub const DATE_M_D_Y: &'static str = r"(?<month>\d{2})[[:punct:]]{1}(?<day>\d{2})[[:punct:]]{1}(?<year>\d{4})";

/// `HHMMSS`.
pub const TIME_HMS: &'static str = r"(?<hour>\d{2})(?<minute>\d{2})(?<second>\d{2})";

/// `HH-MM-SS`, with any ASCII punctuation as the separator.
pub const TIME_H_M_S: &'static str = r"(?<hour>\d{2})[[:punct:]]{1}(?<minute>\d{2})[[:punct:]]{1}(?<second>\d{2})";

/// The number of date patterns, tried in the order of [`date_source`].
pub const DATE_PATTERNS: usize = 8;

/// The number of time patterns, tried in the order of [`time_source`].
pub const TIME_PATTERNS: usize = 2;

/// The date patterns, in the order in which they are tried.
pub open spec fn date_source(i: int) -> Seq<char> {
    if i == 0 {
        DATE_YMD@
    } else if i == 1 {
        DATE_Y_M_D@
    } else if i == 2 {
        DATE_DMY@
    } else if i == 3 {
        DATE_D_M_Y@
    } else if i == 4 {
        DATE_YDM@
    } else if i == 5 {
        DATE_Y_D_M@
    } else if i == 6 {
        DATE_MDY@
    } else {
        DATE_M_D_Y@
    }
}

/// The time patterns, in the order in which they are tried.
pub open spec fn time_source(i: int) -> Seq<char> {
    if i == 0 {
        TIME_HMS@
    } else {
        TIME_H_M_S@
    }
}

fn date_pattern_text(i: usize) -> (s: &'static str)
    ensures
        s@ == date_source(i as int),
{
    if i == 0 {
        DATE_YMD
    } else if i == 1 {
        DATE_Y_M_D
    } else if i == 2 {
        DATE_DMY
    } else if i == 3 {
        DATE_D_M_Y
    } else if i == 4 {
        DATE_YDM
    } else if i == 5 {
        DATE_Y_D_M
    } else if i == 6 {
        DATE_MDY
    } else {
        DATE_M_D_Y
    }
}

fn time_pattern_text(i: usize) -> (s: &'static str)
    ensures
        s@ == time_source(i as int),
{
    if i == 0 {
        TIME_HMS
    } else {
        TIME_H_M_S
    }
}

#[verifier::external_type_specification]
#[verifier::external_body]
pub struct ExRegex(regex::Regex);

/// Whether `regex::Regex::new` accepts `pattern`.
pub uninterp spec fn regex_compiles(pattern: Seq<char>) -> bool;

/// What `regex::Regex::captures` reports for `pattern` on `haystack`: `None`
/// when nothing matches, else the byte range of each capture group in the
/// leftmost-first match (group 0 is the whole match), `None` for a group that
/// took no part in it.
pub uninterp spec fn regex_captures(pattern: Seq<char>, haystack: Seq<char>) -> Option<
    Seq<Option<(usize, usize)>>,
>;

/// A compiled regular expression together with its source text.
pub struct Pattern {
    source: String,
    compiled: regex::Regex,
}

impl View for Pattern {
    type V = Seq<char>;

    closed spec fn view(&self) -> Seq<char> {
        self.source@
    }
}

/// Calls `regex::Regex::new` on `source`; `Some` exactly when the pattern
/// compiles, and the pattern keeps `source` as its text.
#[verifier::external_body]
fn compile_pattern(source: &str) -> (res: Option<Pattern>)
    ensures
        res is Some <==> regex_compiles(source@),
        res matches Some(p) ==> p@ == source@,
{
    match regex::Regex::new(source) {
        Ok(compiled) => Some(Pattern { source: source.to_string(), compiled }),
        Err(_) => None,
    }
}

/// Calls `regex::Regex::captures` and hands back the byte range of every
/// capture group. As `regex` documents, each range starts no later than it
/// ends and both ends fall on UTF-8 character boundaries of the haystack.
#[verifier::external_body]
pub(crate) fn captures(pattern: &Pattern, haystack: &str) -> (res: Option<Vec<Option<(usize, usize)>>>)
    ensures
        match res {
            Some(groups) => regex_captures(pattern@, haystack@) == Some(groups@),
            None => regex_captures(pattern@, haystack@) is None,
        },
        res matches Some(groups) ==> forall|k: int|
            #![trigger groups@[k]]
            0 <= k < groups@.len() && groups@[k] is Some ==> {
                let (start, end) = groups@[k]->Some_0;
                &&& start <= end
                &&& is_char_boundary(haystack.spec_bytes(), start as int)
                &&& is_char_boundary(haystack.spec_bytes(), end as int)
            },
{
    pattern.compiled.captures(haystack).map(
        |caps| caps.iter().map(|m| m.map(|m| (m.start(), m.end()))).collect(),
    )
}

/// The compiled date and time patterns; a pattern that does not compile is
/// kept as `None` and never matches.
pub struct Patterns {
    date: Vec<Option<Pattern>>,
    time: Vec<Option<Pattern>>,
}

impl Patterns {
    /// Every entry is the compiled form of its source, and present exactly when
    /// that source compiles.
    pub closed spec fn wf(&self) -> bool {
        &&& self.date@.len() == DATE_PATTERNS
        &&& self.time@.len() == TIME_PATTERNS
        &&& forall|i: int|
            #![trigger self.date@[i]]
            0 <= i < DATE_PATTERNS ==> {
                &&& (self.date@[i] is Some <==> regex_compiles(date_source(i)))
                &&& (self.date@[i] matches Some(p) ==> p@ == date_source(i))
            }
        &&& forall|i: int|
            #![trigger self.time@[i]]
            0 <= i < TIME_PATTERNS ==> {
                &&& (self.time@[i] is Some <==> regex_compiles(time_source(i)))
                &&& (self.time@[i] matches Some(p) ==> p@ == time_source(i))
            }
    }

    /// Compiles all date and time patterns.
    pub fn compile() -> (res: Patterns)
        ensures
            res.wf(),
    {
        let mut date: Vec<Option<Pattern>> = Vec::new();
        for i in 0..DATE_PATTERNS
            invariant
                date@.len() == i,
                forall|j: int|
                    #![trigger date@[j]]
                    0 <= j < i ==> {
                        &&& (date@[j] is Some <==> regex_compiles(date_source(j)))
                        &&& (date@[j] matches Some(p) ==> p@ == date_source(j))
                    },
        {
            date.push(compile_pattern(date_pattern_text(i)));
        }
        let mut time: Vec<Option<Pattern>> = Vec::new();
        for i in 0..TIME_PATTERNS
            invariant
                time@.len() == i,
                forall|j: int|
                    #![trigger time@[j]]
                    0 <= j < i ==> {
                        &&& (time@[j] is Some <==> regex_compiles(time_source(j)))
                        &&& (time@[j] matches Some(p) ==> p@ == time_source(j))
                    },
        {
            time.push(compile_pattern(time_pattern_text(i)));
        }
        Patterns { date, time }
    }

    /// Runs date pattern `i` on `haystack`: `None` when the pattern did not
    /// compile or does not match.
    pub fn date_captures(&self, i: usize, haystack: &str) -> (res: Option<
        Vec<Option<(usize, usize)>>,
    >)
        requires
            self.wf(),
            i < DATE_PATTERNS,
        ensures
            match res {
                Some(groups) => regex_compiles(date_source(i as int)) && regex_captures(
                    date_source(i as int),
                    haystack@,
                ) == Some(groups@),
                None => !regex_compiles(date_source(i as int)) || regex_captures(
                    date_source(i as int),
                    haystack@,
                ) is None,
            },
            res matches Some(groups) ==> spans_on_boundaries(groups@, haystack.spec_bytes()),
    {
        match &self.date[i] {
            Some(p) => captures(p, haystack),
            None => None,
        }
    }

    /// Runs time pattern `i` on `haystack`: `None` when the pattern did not
    /// compile or does not match.
    pub fn time_captures(&self, i: usize, haystack: &str) -> (res: Option<
        Vec<Option<(usize, usize)>>,
    >)
        requires
            self.wf(),
            i < TIME_PATTERNS,
        ensures
            match res {
                Some(groups) => regex_compiles(time_source(i as int)) && regex_captures(
                    time_source(i as int),
                    haystack@,
                ) == Some(groups@),
                None => !regex_compiles(time_source(i as int)) || regex_captures(
                    time_source(i as int),
                    haystack@,
                ) is None,
            },
            res matches Some(groups) ==> spans_on_boundaries(groups@, haystack.spec_bytes()),
    {
        match &self.time[i] {
            Some(p) => captures(p, haystack),
            None => None,
        }
    }
}

/// Every group's byte range is ordered and ends on character boundaries of
/// `bytes`.
pub open spec fn spans_on_boundaries(groups: Seq<Option<(usize, usize)>>, bytes: Seq<u8>) -> bool {
    forall|k: int|
        #![trigger groups[k]]
        0 <= k < groups.len() && groups[k] is Some ==> {
            let (start, end) = groups[k]->Some_0;
            &&& start <= end
            &&& is_char_boundary(bytes, start as int)
            &&& is_char_boundary(bytes, end as int)
        }
}

/// The name of a capture group, as a pattern writes it.
pub open spec fn year_name() -> Seq<char> {
    seq!['y', 'e', 'a', 'r']
}

/// The name of a capture group, as a pattern writes it.
pub open spec fn month_name() -> Seq<char> {
    seq!['m', 'o', 'n', 't', 'h']
}

/// The name of a capture group, as a pattern writes it.
pub open spec fn day_name() -> Seq<char> {
    seq!['d', 'a', 'y']
}

/// The name of a capture group, as a pattern writes it.
pub open spec fn hour_name() -> Seq<char> {
    seq!['h', 'o', 'u', 'r']
}

/// The name of a capture group, as a pattern writes it.
pub open spec fn minute_name() -> Seq<char> {
    seq!['m', 'i', 'n', 'u', 't', 'e']
}

/// The name of a capture group, as a pattern writes it.
pub open spec fn second_name() -> Seq<char> {
    seq!['s', 'e', 'c', 'o', 'n', 'd']
}

/// The text that opens the capture group `name`: `(?<name>`.
pub open spec fn group_opening(name: Seq<char>) -> Seq<char> {
    seq!['(', '?', '<'] + name + seq!['>']
}

/// The parenthesis at `q` of the pattern `s` opens a capture group: it is not
/// escaped, and it is not a `(?` group other than a named one `(?<` or
/// `(?P<`. (Character classes of the patterns here hold no parenthesis.)
pub open spec fn opens_group(s: Seq<char>, q: int) -> bool {
    &&& 0 <= q < s.len()
    &&& s[q] == '('
    &&& (q == 0 || s[q - 1] != '\\')
    &&& (q + 1 >= s.len() || s[q + 1] != '?' || (q + 2 < s.len() && (s[q + 2] == '<' || s[q
        + 2] == 'P')))
}

/// How many capture groups the pattern `s` opens before position `p`: the
/// group opened at `p` is group number `opened_before(s, p) + 1`, as `regex`
/// numbers groups by their opening parenthesis.
pub open spec fn opened_before(s: Seq<char>, p: int) -> int
    decreases p,
{
    if p <= 0 {
        0
    } else {
        opened_before(s, p - 1) + if opens_group(s, p - 1) {
            1int
        } else {
            0int
        }
    }
}

/// Capture group number `k` of the pattern `s` is the group named `name`.
pub open spec fn names_group(s: Seq<char>, k: int, name: Seq<char>) -> bool {
    exists|p: int|
        #![trigger opened_before(s, p)]
        opens_group(s, p) && opened_before(s, p) == k - 1 && p + name.len() + 4 <= s.len()
            && s.subrange(p, p + name.len() + 4) == group_opening(name)
}

proof fn lemma_opened_before_grows(s: Seq<char>, a: int, b: int)
    requires
        a <= b,
    ensures
        opened_before(s, a) <= opened_before(s, b),
        0 <= opened_before(s, a),
    decreases b - a,
{
    if a < b {
        lemma_opened_before_grows(s, a, b - 1);
    } else {
        lemma_opened_before_nonnegative(s, a);
    }
}

proof fn lemma_opened_before_nonnegative(s: Seq<char>, p: int)
    ensures
        0 <= opened_before(s, p),
    decreases p,
{
    if p > 0 {
        lemma_opened_before_nonnegative(s, p - 1);
    }
}

/// In a pattern that opens three capture groups, numbered `k1`, `k2` and `k3`
/// and named `n1`, `n2` and `n3` with three different first letters, a group
/// named `name`, which starts like `n1`, is group `k1`.
pub proof fn lemma_group_number_unique(
    s: Seq<char>,
    k: int,
    name: Seq<char>,
    k1: int,
    n1: Seq<char>,
    k2: int,
    n2: Seq<char>,
    k3: int,
    n3: Seq<char>,
)
    requires
        opened_before(s, s.len() as int) == 3,
        names_group(s, k, name),
        names_group(s, k1, n1),
        names_group(s, k2, n2),
        names_group(s, k3, n3),
        1 <= k1 <= 3 && 1 <= k2 <= 3 && 1 <= k3 <= 3,
        k1 != k2 && k1 != k3 && k2 != k3,
        name.len() > 0 && n1.len() > 0 && n2.len() > 0 && n3.len() > 0,
        name[0] == n1[0],
        name[0] != n2[0] && name[0] != n3[0],
    ensures
        k == k1,
{
    let p = choose|p: int|
        #![trigger opened_before(s, p)]
        opens_group(s, p) && opened_before(s, p) == k - 1 && p + name.len() + 4 <= s.len()
            && s.subrange(p, p + name.len() + 4) == group_opening(name);
    assert(s[p + 3] == name[0]) by {
        assert(s.subrange(p, p + name.len() + 4)[3] == group_opening(name)[3]);
    }
    lemma_same_number_same_place(s, p, k1, n1);
    lemma_same_number_same_place(s, p, k2, n2);
    lemma_same_number_same_place(s, p, k3, n3);
    lemma_opened_before_grows(s, p + 1, s.len() as int);
    lemma_opened_before_grows(s, 0, p);
    assert(opened_before(s, p + 1) == opened_before(s, p) + 1);
}

/// The capture group that opens at `p` and the one numbered `k` and named
/// `n` are the same one when their numbers agree.
proof fn lemma_same_number_same_place(s: Seq<char>, p: int, k: int, n: Seq<char>)
    requires
        opens_group(s, p),
        names_group(s, k, n),
        n.len() > 0,
    ensures
        opened_before(s, p) == k - 1 ==> s[p + 3] == n[0],
{
    let q = choose|q: int|
        #![trigger opened_before(s, q)]
        opens_group(s, q) && opened_before(s, q) == k - 1 && q + n.len() + 4 <= s.len()
            && s.subrange(q, q + n.len() + 4) == group_opening(n);
    assert(s[q + 3] == n[0]) by {
        assert(s.subrange(q, q + n.len() + 4)[3] == group_opening(n)[3]);
    }
    if opened_before(s, p) == k - 1 && p != q {
        if p < q {
            lemma_opened_before_grows(s, p + 1, q);
        } else {
            lemma_opened_before_grows(s, q + 1, p);
        }
    }
}

proof fn lemma_groups_of_date_ymd()
    ensures
        opened_before(DATE_YMD@, DATE_YMD@.len() as int) == 3,
        names_group(DATE_YMD@, 1, year_name()),
        names_group(DATE_YMD@, 2, month_name()),
        names_group(DATE_YMD@, 3, day_name()),
{
    reveal_with_fuel(opened_before, 44);
    reveal_strlit(r"(?<year>\d{4})(?<month>\d{2})(?<day>\d{2})");
    let s = DATE_YMD@;
    assert(s.len() == 42);
    assert(s.subrange(0, 8) =~= group_opening(year_name()));
    assert(opened_before(s, 0) == 0);
    assert(s.subrange(14, 23) =~= group_opening(month_name()));
    assert(opened_before(s, 14) == 1);
    assert(s.subrange(29, 36) =~= group_opening(day_name()));
    assert(opened_before(s, 29) == 2);
    assert(opened_before(s, 42) == 3);
}

proof fn lemma_groups_of_date_y_m_d()
    ensures
        opened_before(DATE_Y_M_D@, DATE_Y_M_D@.len() as int) == 3,
        names_group(DATE_Y_M_D@, 1, year_name()),
        names_group(DATE_Y_M_D@, 2, month_name()),
        names_group(DATE_Y_M_D@, 3, day_name()),
{
    reveal_with_fuel(opened_before, 76);
    reveal_strlit(r"(?<year>\d{4})[[:punct:]]{1}(?<month>\d{1,2})[[:punct:]]{1}(?<day>\d{1,2})");
    let s = DATE_Y_M_D@;
    assert(s.len() == 74);
    assert(s.subrange(0, 8) =~= group_opening(year_name()));
    assert(opened_before(s, 0) == 0);
    assert(s.subrange(28, 37) =~= group_opening(month_name()));
    assert(opened_before(s, 28) == 1);
    assert(s.subrange(59, 66) =~= group_opening(day_name()));
    assert(opened_before(s, 59) == 2);
    assert(opened_before(s, 74) == 3);
}

proof fn lemma_groups_of_date_dmy()
    ensures
        opened_before(DATE_DMY@, DATE_DMY@.len() as int) == 3,
        names_group(DATE_DMY@, 1, day_name()),
        names_group(DATE_DMY@, 2, month_name()),
        names_group(DATE_DMY@, 3, year_name()),
{
    reveal_with_fuel(opened_before, 44);
    reveal_strlit(r"(?<day>\d{2})(?<month>\d{2})(?<year>\d{4})");
    let s = DATE_DMY@;
    assert(s.len() == 42);
    assert(s.subrange(0, 7) =~= group_opening(day_name()));
    assert(opened_before(s, 0) == 0);
    assert(s.subrange(13, 22) =~= group_opening(month_name()));
    assert(opened_before(s, 13) == 1);
    assert(s.subrange(28, 36) =~= group_opening(year_name()));
    assert(opened_before(s, 28) == 2);
    assert(opened_before(s, 42) == 3);
}

proof fn lemma_groups_of_date_d_m_y()
    ensures
        opened_before(DATE_D_M_Y@, DATE_D_M_Y@.len() as int) == 3,
        names_group(DATE_D_M_Y@, 1, day_name()),
        names_group(DATE_D_M_Y@, 2, month_name()),
        names_group(DATE_D_M_Y@, 3, year_name()),
{
    reveal_with_fuel(opened_before, 76);
    reveal_strlit(r"(?<day>\d{1,2})[[:punct:]]{1}(?<month>\d{1,2})[[:punct:]]{1}(?<year>\d{4})");
    let s = DATE_D_M_Y@;
    assert(s.len() == 74);
    assert(s.subrange(0, 7) =~= group_opening(day_name()));
    assert(opened_before(s, 0) == 0);
    assert(s.subrange(29, 38) =~= group_opening(month_name()));
    assert(opened_before(s, 29) == 1);
    assert(s.subrange(60, 68) =~= group_opening(year_name()));
    assert(opened_before(s, 60) == 2);
    assert(opened_before(s, 74) == 3);
}

proof fn lemma_groups_of_date_ydm()
    ensures
        opened_before(DATE_YDM@, DATE_YDM@.len() as int) == 3,
        names_group(DATE_YDM@, 1, year_name()),
        names_group(DATE_YDM@, 2, day_name()),
        names_group(DATE_YDM@, 3, month_name()),
{
    reveal_with_fuel(opened_before, 44);
    reveal_strlit(r"(?<year>\d{4})(?<day>\d{2})(?<month>\d{2})");
    let s = DATE_YDM@;
    assert(s.len() == 42);
    assert(s.subrange(0, 8) =~= group_opening(year_name()));
    assert(opened_before(s, 0) == 0);
    assert(s.subrange(14, 21) =~= group_opening(day_name()));
    assert(opened_before(s, 14) == 1);
    assert(s.subrange(27, 36) =~= group_opening(month_name()));
    assert(opened_before(s, 27) == 2);
    assert(opened_before(s, 42) == 3);
}

proof fn lemma_groups_of_date_y_d_m()
    ensures
        opened_before(DATE_Y_D_M@, DATE_Y_D_M@.len() as int) == 3,
        names_group(DATE_Y_D_M@, 1, year_name()),
        names_group(DATE_Y_D_M@, 2, day_name()),
        names_group(DATE_Y_D_M@, 3, month_name()),
{
    reveal_with_fuel(opened_before, 76);
    reveal_strlit(r"(?<year>\d{4})[[:punct:]]{1}(?<day>\d{1,2})[[:punct:]]{1}(?<month>\d{1,2})");
    let s = DATE_Y_D_M@;
    assert(s.len() == 74);
    assert(s.subrange(0, 8) =~= group_opening(year_name()));
    assert(opened_before(s, 0) == 0);
    assert(s.subrange(28, 35) =~= group_opening(day_name()));
    assert(opened_before(s, 28) == 1);
    assert(s.subrange(57, 66) =~= group_opening(month_name()));
    assert(opened_before(s, 57) == 2);
    assert(opened_before(s, 74) == 3);
}

proof fn lemma_groups_of_date_mdy()
    ensures
        opened_before(DATE_MDY@, DATE_MDY@.len() as int) == 3,
        names_group(DATE_MDY@, 1, month_name()),
        names_group(DATE_MDY@, 2, day_name()),
        names_group(DATE_MDY@, 3, year_name()),
{
    reveal_with_fuel(opened_before, 48);
    reveal_strlit(r"(?<month>\d{1,2})(?<day>\d{1,2})(?<year>\d{4})");
    let s = DATE_MDY@;
    assert(s.len() == 46);
    assert(s.subrange(0, 9) =~= group_opening(month_name()));
    assert(opened_before(s, 0) == 0);
    assert(s.subrange(17, 24) =~= group_opening(day_name()));
    assert(opened_before(s, 17) == 1);
    assert(s.subrange(32, 40) =~= group_opening(year_name()));
    assert(opened_before(s, 32) == 2);
    assert(opened_before(s, 46) == 3);
}

proof fn lemma_groups_of_date_m_d_y()
    ensures
        opened_before(DATE_M_D_Y@, DATE_M_D_Y@.len() as int) == 3,
        names_group(DATE_M_D_Y@, 1, month_name()),
        names_group(DATE_M_D_Y@, 2, day_name()),
        names_group(DATE_M_D_Y@, 3, year_name()),
{
    reveal_with_fuel(opened_before, 72);
    reveal_strlit(r"(?<month>\d{2})[[:punct:]]{1}(?<day>\d{2})[[:punct:]]{1}(?<year>\d{4})");
    let s = DATE_M_D_Y@;
    assert(s.len() == 70);
    assert(s.subrange(0, 9) =~= group_opening(month_name()));
    assert(opened_before(s, 0) == 0);
    assert(s.subrange(29, 36) =~= group_opening(day_name()));
    assert(opened_before(s, 29) == 1);
    assert(s.subrange(56, 64) =~= group_opening(year_name()));
    assert(opened_before(s, 56) == 2);
    assert(opened_before(s, 70) == 3);
}

proof fn lemma_groups_of_time_hms()
    ensures
        opened_before(TIME_HMS@, TIME_HMS@.len() as int) == 3,
        names_group(TIME_HMS@, 1, hour_name()),
        names_group(TIME_HMS@, 2, minute_name()),
        names_group(TIME_HMS@, 3, second_name()),
{
    reveal_with_fuel(opened_before, 48);
    reveal_strlit(r"(?<hour>\d{2})(?<minute>\d{2})(?<second>\d{2})");
    let s = TIME_HMS@;
    assert(s.len() == 46);
    assert(s.subrange(0, 8) =~= group_opening(hour_name()));
    assert(opened_before(s, 0) == 0);
    assert(s.subrange(14, 24) =~= group_opening(minute_name()));
    assert(opened_before(s, 14) == 1);
    assert(s.subrange(30, 40) =~= group_opening(second_name()));
    assert(opened_before(s, 30) == 2);
    assert(opened_before(s, 46) == 3);
}

proof fn lemma_groups_of_time_h_m_s()
    ensures
        opened_before(TIME_H_M_S@, TIME_H_M_S@.len() as int) == 3,
        names_group(TIME_H_M_S@, 1, hour_name()),
        names_group(TIME_H_M_S@, 2, minute_name()),
        names_group(TIME_H_M_S@, 3, second_name()),
{
    reveal_with_fuel(opened_before, 76);
    reveal_strlit(r"(?<hour>\d{2})[[:punct:]]{1}(?<minute>\d{2})[[:punct:]]{1}(?<second>\d{2})");
    let s = TIME_H_M_S@;
    assert(s.len() == 74);
    assert(s.subrange(0, 8) =~= group_opening(hour_name()));
    assert(opened_before(s, 0) == 0);
    assert(s.subrange(28, 38) =~= group_opening(minute_name()));
    assert(opened_before(s, 28) == 1);
    assert(s.subrange(58, 68) =~= group_opening(second_name()));
    assert(opened_before(s, 58) == 2);
    assert(opened_before(s, 74) == 3);
}

/// Each date pattern opens three capture groups, named `year`, `month` and
/// `day` in the order its text writes them.
pub proof fn lemma_date_source_groups(i: int)
    requires
        0 <= i < DATE_PATTERNS,
    ensures
        opened_before(date_source(i), date_source(i).len() as int) == 3,
        i == 0 ==> names_group(date_source(i), 1, year_name()) && names_group(date_source(i), 2, month_name())
            && names_group(date_source(i), 3, day_name()),
        i == 1 ==> names_group(date_source(i), 1, year_name()) && names_group(date_source(i), 2, month_name())
            && names_group(date_source(i), 3, day_name()),
        i == 2 ==> names_group(date_source(i), 1, day_name()) && names_group(date_source(i), 2, month_name())
            && names_group(date_source(i), 3, year_name()),
        i == 3 ==> names_group(date_source(i), 1, day_name()) && names_group(date_source(i), 2, month_name())
            && names_group(date_source(i), 3, year_name()),
        i == 4 ==> names_group(date_source(i), 1, year_name()) && names_group(date_source(i), 2, day_name())
            && names_group(date_source(i), 3, month_name()),
        i == 5 ==> names_group(date_source(i), 1, year_name()) && names_group(date_source(i), 2, day_name())
            && names_group(date_source(i), 3, month_name()),
        i == 6 ==> names_group(date_source(i), 1, month_name()) && names_group(date_source(i), 2, day_name())
            && names_group(date_source(i), 3, year_name()),
        i == 7 ==> names_group(date_source(i), 1, month_name()) && names_group(date_source(i), 2, day_name())
            && names_group(date_source(i), 3, year_name()),
{
    if i == 0 {
        lemma_groups_of_date_ymd();
    } else if i == 1 {
        lemma_groups_of_date_y_m_d();
    } else if i == 2 {
        lemma_groups_of_date_dmy();
    } else if i == 3 {
        lemma_groups_of_date_d_m_y();
    } else if i == 4 {
        lemma_groups_of_date_ydm();
    } else if i == 5 {
        lemma_groups_of_date_y_d_m();
    } else if i == 6 {
        lemma_groups_of_date_mdy();
    } else {
        lemma_groups_of_date_m_d_y();
    }
}

/// Each time pattern opens three capture groups, named `hour`, `minute` and
/// `second` in this order.
pub proof fn lemma_time_source_groups(i: int)
    requires
        0 <= i < TIME_PATTERNS,
    ensures
        opened_before(time_source(i), time_source(i).len() as int) == 3,
        names_group(time_source(i), 1, hour_name()),
        names_group(time_source(i), 2, minute_name()),
        names_group(time_source(i), 3, second_name()),
{
    if i == 0 {
        lemma_groups_of_time_hms();
    } else {
        lemma_groups_of_time_h_m_s();
    }
}

} // verus!
