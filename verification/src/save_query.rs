//! The server's answer to `save query`: which files a backup holds.
use vstd::prelude::*;

use crate::text::{chars_of, contains_chars, contains_seq};

verus! {

/// The chars that `regex::escape` escapes.
pub open spec fn is_regex_meta(c: char) -> bool {
    c == '\\' || c == '.' || c == '+' || c == '*' || c == '?' || c == '(' || c == ')' || c == '|'
        || c == '[' || c == ']' || c == '{' || c == '}' || c == '^' || c == '$' || c == '#' || c
        == '&' || c == '-' || c == '~'
}

/// `s` with a backslash before each meta char.
pub open spec fn regex_escaped(s: Seq<char>) -> Seq<char>
    decreases s.len(),
{
    if s.len() == 0 {
        s
    } else {
        regex_escaped(s.drop_last()) + if is_regex_meta(s.last()) {
            seq!['\\', s.last()]
        } else {
            seq![s.last()]
        }
    }
}

/// `regex::escape`: it copies its argument, with a backslash before each
/// regex meta char (`regex_syntax::escape_into` and `is_meta_character`).
#[verifier::external_body]
fn regex_escape(text: &str) -> (r: String)
    ensures
        r@ == regex_escaped(text@),
{
    regex::escape(text)
}

/// The pattern that finds the files of a backup in a `save query` answer:
/// `<level>/<path>:<size>` pairs separated by commas, the level name escaped.
/// `multi_line` puts the `(?m)` flag in front.
pub open spec fn query_pattern(level_name: Seq<char>, multi_line: bool) -> Seq<char> {
    (if multi_line {
        "(?m)"@
    } else {
        Seq::empty()
    }) + "(?P<path>"@ + regex_escaped(level_name) + r#"/[^\s:,]+):(?P<size>\d+)\s*,?\s*"#@
}

/// Some level's query pattern.
pub open spec fn is_query_pattern(p: Seq<char>) -> bool {
    exists|l: Seq<char>, m: bool| p == query_pattern(l, m)
}

/// The query pattern for a level name.
pub fn build_query_pattern(level_name: &str, multi_line: bool) -> (r: String)
    ensures
        r@ == query_pattern(level_name@, multi_line),
{
    let mut r = if multi_line {
        "(?m)".to_owned()
    } else {
        String::new()
    };
    r.append("(?P<path>");
    let escaped = regex_escape(level_name);
    r.append(escaped.as_str());
    r.append(r#"/[^\s:,]+):(?P<size>\d+)\s*,?\s*"#);
    r
}

/// Whether `regex::Regex::new` accepts a pattern.
pub uninterp spec fn regex_valid(pattern: Seq<char>) -> bool;

/// `regex::Regex::new(pattern).is_ok()`: named, as a function of the pattern
/// alone.
#[verifier::external_body]
fn regex_compiles(pattern: &str) -> (b: bool)
    ensures
        b == regex_valid(pattern@),
{
    regex::Regex::new(pattern).is_ok()
}

/// The `(path, size)` groups of each match of a query pattern in a text, in
/// order, as `regex::Regex::captures_iter` finds them.
pub uninterp spec fn regex_captures(pattern: Seq<char>, haystack: Seq<char>) -> Seq<(Seq<char>, Seq<char>)>;

pub open spec fn pair_view() -> spec_fn((String, String)) -> (Seq<char>, Seq<char>) {
    |p: (String, String)| (p.0@, p.1@)
}

/// `regex::Regex::captures_iter` with a query pattern, each match read with
/// `Captures::extract` into its two groups: named, as a function of the
/// pattern and the text. A query pattern has exactly two groups, both of
/// which take part in every match, so `extract` does not panic; the pattern
/// compiles (`requires`), so the `unwrap` does not either.
#[verifier::external_body]
fn capture_pairs(pattern: &str, haystack: &str) -> (r: Vec<(String, String)>)
    requires
        regex_valid(pattern@),
        is_query_pattern(pattern@),
    ensures
        r@.map_values(pair_view()) == regex_captures(pattern@, haystack@),
{
    let re = regex::Regex::new(pattern).unwrap();
    re.captures_iter(haystack).map(|c| {
        let (_, [path, size]) = c.extract();
        (path.to_string(), size.to_string())
    }).collect()
}

/// A file that goes into a backup: its path and its size in bytes.
pub struct BackupOutput {
    pub path: String,
    pub size: usize,
}

/// The value of a decimal numeral.
pub open spec fn decimal_value(s: Seq<char>) -> int
    decreases s.len(),
{
    if s.len() == 0 {
        0
    } else {
        10 * decimal_value(s.drop_last()) + (s.last() as int - '0' as int)
    }
}

/// `s` is a decimal numeral (ASCII digits, at least one) whose value fits in
/// a `usize`.
pub open spec fn is_usize_numeral(s: Seq<char>) -> bool {
    &&& s.len() > 0
    &&& forall|i: int| 0 <= i < s.len() ==> '0' <= #[trigger] s[i] && s[i] <= '9'
    &&& decimal_value(s) <= usize::MAX
}

proof fn lemma_decimal_value_nonneg(s: Seq<char>)
    requires
        forall|i: int| 0 <= i < s.len() ==> '0' <= #[trigger] s[i] && s[i] <= '9',
    ensures
        decimal_value(s) >= 0,
        forall|k: int| 0 <= k <= s.len() ==> decimal_value(#[trigger] s.take(k)) <= decimal_value(s),
    decreases s.len(),
{
    if s.len() > 0 {
        let d = s.drop_last();
        assert forall|i: int| 0 <= i < d.len() implies '0' <= #[trigger] d[i] && d[i] <= '9' by {
            assert(d[i] == s[i]);
        }
        lemma_decimal_value_nonneg(d);
        assert forall|k: int| 0 <= k <= s.len() implies decimal_value(#[trigger] s.take(k)) <= decimal_value(s) by {
            if k < s.len() {
                assert(s.take(k) =~= d.take(k));
            } else {
                assert(s.take(k) =~= s);
            }
        }
    }
}

/// Reads a decimal numeral: `Some` of its value where `s` is one that fits in
/// a `usize`, else `None`.
pub fn parse_decimal(s: &str) -> (r: Option<usize>)
    ensures
        r matches Some(v) ==> is_usize_numeral(s@) && v == decimal_value(s@),
        r is None ==> !is_usize_numeral(s@),
{
    let cs = chars_of(s);
    if cs.len() == 0 {
        return None;
    }
    let mut v: usize = 0;
    let mut i: usize = 0;
    while i < cs.len()
        invariant
            i <= cs@.len(),
            cs@ == s@,
            v == decimal_value(cs@.take(i as int)),
            forall|k: int| 0 <= k < i ==> '0' <= #[trigger] cs@[k] && cs@[k] <= '9',
        decreases cs.len() - i,
    {
        let c = cs[i];
        proof {
            assert(cs@.take(i + 1).drop_last() =~= cs@.take(i as int));
        }
        if c < '0' || c > '9' {
            return None;
        }
        let d = (c as u32 - '0' as u32) as usize;
        if v > (usize::MAX - d) / 10 {
            proof {
                assert(decimal_value(cs@.take(i + 1)) == 10 * v + d);
                assert(10 * v + d > usize::MAX) by (nonlinear_arith)
                    requires
                        v > (usize::MAX - d) / 10,
                        d <= 9,
                ;
                lemma_digits_take(cs@, i as int + 1);
            }
            return None;
        }
        v = 10 * v + d;
        i = i + 1;
    }
    proof {
        assert(cs@.take(i as int) =~= cs@);
    }
    Some(v)
}

proof fn lemma_digits_take(s: Seq<char>, k: int)
    requires
        0 <= k <= s.len(),
        forall|i: int| 0 <= i < k ==> '0' <= #[trigger] s[i] && s[i] <= '9',
        decimal_value(s.take(k)) > usize::MAX,
    ensures
        !is_usize_numeral(s),
{
    if is_usize_numeral(s) {
        lemma_decimal_value_nonneg(s);
    }
}

/// `"./worlds/"`.
pub open spec fn worlds_prefix() -> Seq<char> {
    "./worlds/"@
}

/// Every captured size is a numeral that fits in a `usize`.
pub open spec fn sizes_ok(caps: Seq<(Seq<char>, Seq<char>)>) -> bool {
    forall|i: int| 0 <= i < caps.len() ==> is_usize_numeral(#[trigger] caps[i].1)
}

/// The backup file that a captured `(path, size)` pair names: the path under
/// `./worlds/`, the size read as a decimal number.
pub open spec fn output_matches(o: BackupOutput, cap: (Seq<char>, Seq<char>)) -> bool {
    o.path@ == worlds_prefix() + cap.0 && o.size == decimal_value(cap.1)
}

/// The backup files named by captured pairs, in order.
pub fn outputs_from_captures(caps: &Vec<(String, String)>) -> (r: Vec<BackupOutput>)
    requires
        sizes_ok(caps@.map_values(pair_view())),
    ensures
        r@.len() == caps@.len(),
        forall|i: int| 0 <= i < r@.len() ==> output_matches(#[trigger] r@[i], pair_view()(caps@[i])),
{
    let mut r: Vec<BackupOutput> = Vec::new();
    let mut i: usize = 0;
    while i < caps.len()
        invariant
            i <= caps@.len(),
            sizes_ok(caps@.map_values(pair_view())),
            r@.len() == i,
            forall|k: int| 0 <= k < i ==> output_matches(#[trigger] r@[k], pair_view()(caps@[k])),
        decreases caps.len() - i,
    {
        let mut path = "./worlds/".to_owned();
        path.append(caps[i].0.as_str());
        assert(caps@.map_values(pair_view())[i as int] == pair_view()(caps@[i as int]));
        assert(caps@.map_values(pair_view())[i as int].1 == caps@[i as int].1@);
        assert(is_usize_numeral(caps@.map_values(pair_view())[i as int].1));
        let size = parse_decimal(caps[i].1.as_str()).unwrap();
        r.push(BackupOutput { path, size });
        i = i + 1;
    }
    r
}

/// What one line of console output means while a backup waits for the
/// answer to `save query`.
pub enum QueryLine {
    /// The list of files to back up.
    Files(Vec<BackupOutput>),
    /// The list of files, with a size that is no `usize` numeral.
    BadSize,
    /// The server has not finished saving: ask again.
    NotCompleted,
    /// Any other line.
    Other,
}

/// The answer to `save query` that says the save is still running.
pub open spec fn not_completed_marker() -> Seq<char> {
    "A previous save has not been completed"@
}

/// What a console line means, given the query pattern's matches in it: the
/// files where there is a match, else whether the line says the save has
/// not completed.
pub open spec fn query_line_matches(
    r: QueryLine,
    caps: Seq<(Seq<char>, Seq<char>)>,
    line: Seq<char>,
) -> bool {
    if caps.len() > 0 {
        if sizes_ok(caps) {
            r matches QueryLine::Files(files) && files@.len() == caps.len() && forall|i: int|
                0 <= i < caps.len() ==> output_matches(#[trigger] files@[i], caps[i])
        } else {
            r is BadSize
        }
    } else if contains_seq(line, not_completed_marker()) {
        r is NotCompleted
    } else {
        r is Other
    }
}

/// Classifies a console line from the query pattern's matches in it.
pub fn classify_query_line(caps: Vec<(String, String)>, line: &str) -> (r: QueryLine)
    ensures
        query_line_matches(r, caps@.map_values(pair_view()), line@),
{
    let ghost cv = caps@.map_values(pair_view());
    if caps.len() > 0 {
        let mut ok = true;
        let mut i: usize = 0;
        while i < caps.len()
            invariant
                i <= caps@.len(),
                cv == caps@.map_values(pair_view()),
                ok == (forall|k: int| 0 <= k < i ==> is_usize_numeral(#[trigger] cv[k].1)),
            decreases caps.len() - i,
        {
            let v = parse_decimal(caps[i].1.as_str());
            assert(cv[i as int] == pair_view()(caps@[i as int]));
            assert(cv[i as int].1 == caps@[i as int].1@);
            if v.is_none() {
                ok = false;
            }
            i = i + 1;
        }
        if ok {
            let files = outputs_from_captures(&caps);
            QueryLine::Files(files)
        } else {
            QueryLine::BadSize
        }
    } else {
        let hay = chars_of(line);
        let marker = chars_of("A previous save has not been completed");
        if contains_chars(&hay, &marker) {
            QueryLine::NotCompleted
        } else {
            QueryLine::Other
        }
    }
}

/// Reads the backup file list out of the server's console output.
pub struct SaveQueryParser {
    pattern: String,
}

impl Clone for SaveQueryParser {
    fn clone(&self) -> (r: Self)
        ensures
            r.pattern_of() == self.pattern_of(),
    {
        proof {
            use_type_invariant(self);
        }
        SaveQueryParser { pattern: self.pattern.clone() }
    }
}

impl SaveQueryParser {
    #[verifier::type_invariant]
    closed spec fn wf(&self) -> bool {
        regex_valid(self.pattern@) && is_query_pattern(self.pattern@)
    }

    /// The pattern this parser matches with.
    pub closed spec fn pattern_of(&self) -> Seq<char> {
        self.pattern@
    }

    /// A parser for a world's level name; `None` where the regex engine
    /// refuses the pattern.
    pub fn new(level_name: &str, multi_line: bool) -> (r: Option<Self>)
        ensures
            r matches Some(p) ==> p.pattern_of() == query_pattern(level_name@, multi_line),
            r is None <==> !regex_valid(query_pattern(level_name@, multi_line)),
    {
        let pattern = build_query_pattern(level_name, multi_line);
        if regex_compiles(pattern.as_str()) {
            Some(SaveQueryParser { pattern })
        } else {
            None
        }
    }

    /// What a console line means while a backup waits for its file list.
    pub fn classify(&self, line: &str) -> (r: QueryLine)
        ensures
            query_line_matches(r, regex_captures(self.pattern_of(), line@), line@),
    {
        proof {
            use_type_invariant(self);
        }
        let caps = capture_pairs(self.pattern.as_str(), line);
        classify_query_line(caps, line)
    }
}

} // verus!
