//! A line search over a text, with or without regard to case, and the
//! command line that configures it.
use vstd::prelude::*;
use vstd::string::StrSliceExecFns;

use crate::text::{chars_of, decimal, decimal_of, same_text};

verus! {

/// The pieces of `s` between newline characters, as `split('\n')` gives
/// them: always at least one, possibly empty.
pub open spec fn pieces(s: Seq<char>) -> Seq<Seq<char>>
    decreases s.len(),
{
    if s.len() == 0 {
        seq![Seq::empty()]
    } else if s.last() == '\n' {
        pieces(s.drop_last()).push(Seq::empty())
    } else {
        let p = pieces(s.drop_last());
        p.update(p.len() - 1, p.last().push(s.last()))
    }
}

/// A line without the carriage return of a `\r\n` ending.
pub open spec fn strip_cr(l: Seq<char>) -> Seq<char> {
    if l.len() > 0 && l.last() == '\r' {
        l.drop_last()
    } else {
        l
    }
}

/// The lines of `s`: the pieces between newlines, each ended by `\n` or
/// `\r\n` but the last, which needs no ending; a final empty piece, after a
/// trailing newline or in an empty text, is no line.
pub open spec fn lines_of(s: Seq<char>) -> Seq<Seq<char>> {
    let p = pieces(s);
    let n = if p.last().len() == 0 {
        p.len() - 1
    } else {
        p.len() as int
    };
    Seq::new(n as nat, |i: int| if i < p.len() - 1 { strip_cr(p[i]) } else { p[i] })
}

/// `q` occurs in `l` as a run of consecutive characters.
pub open spec fn is_infix(q: Seq<char>, l: Seq<char>) -> bool {
    exists|i: int| 0 <= i && i + q.len() <= l.len() && #[trigger] l.subrange(i, i + q.len()) == q
}

/// Whether line `l` matches query `q`: `q` occurs in it, in lowercase form
/// on both sides when case is ignored.
pub open spec fn line_matches(q: Seq<char>, l: Seq<char>, ignore_case: bool) -> bool {
    if ignore_case {
        is_infix(lower_of(q), lower_of(l))
    } else {
        is_infix(q, l)
    }
}

/// The lines of `lines` that match `q`, in order.
pub open spec fn matching(lines: Seq<Seq<char>>, q: Seq<char>, ignore_case: bool) -> Seq<Seq<char>>
    decreases lines.len(),
{
    if lines.len() == 0 {
        Seq::empty()
    } else {
        let r = matching(lines.drop_last(), q, ignore_case);
        if line_matches(q, lines.last(), ignore_case) {
            r.push(lines.last())
        } else {
            r
        }
    }
}

/// The text of each string.
pub open spec fn views_of(v: Seq<&str>) -> Seq<Seq<char>> {
    v.map_values(|l: &str| l@)
}

/// The lowercase form of a text, as `str::to_lowercase` gives it.
pub uninterp spec fn lower_of(s: Seq<char>) -> Seq<char>;

/// Relies on `str::to_lowercase`: the Unicode lowercase mapping of each
/// character; the result depends on the characters alone.
#[verifier::external_body]
fn lowercase(s: &str) -> (r: String)
    ensures
        r@ == lower_of(s@),
{
    s.to_lowercase()
}

proof fn lemma_pieces_nonempty(s: Seq<char>)
    ensures
        pieces(s).len() >= 1,
    decreases s.len(),
{
    if s.len() > 0 {
        lemma_pieces_nonempty(s.drop_last());
    }
}

/// Splits `contents` into its lines.
pub fn lines<'a>(contents: &'a str) -> (r: Vec<&'a str>)
    ensures
        views_of(r@) == lines_of(contents@),
{
    let chars = chars_of(contents);
    let n = chars.len();
    let mut out: Vec<&'a str> = Vec::new();
    let mut start: usize = 0;
    let mut i: usize = 0;
    proof {
        assert(chars@.take(0) =~= Seq::<char>::empty());
    }
    while i < n
        invariant
            n == chars@.len(),
            chars@ == contents@,
            start <= i <= n,
            pieces(chars@.take(i as int)).len() == out@.len() + 1,
            pieces(chars@.take(i as int)).last() == chars@.subrange(start as int, i as int),
            forall|k: int|
                0 <= k < out@.len() ==> (#[trigger] out@[k])@ == strip_cr(
                    pieces(chars@.take(i as int))[k],
                ),
        decreases n - i,
    {
        let ghost p = pieces(chars@.take(i as int));
        assert(chars@.take(i + 1).drop_last() =~= chars@.take(i as int));
        assert(chars@.take(i + 1).last() == chars@[i as int]);
        if chars[i] == '\n' {
            let mut end = i;
            if end > start && chars[end - 1] == '\r' {
                end = end - 1;
            }
            let line = contents.substring_char(start, end);
            assert(line@ =~= strip_cr(chars@.subrange(start as int, i as int)));
            out.push(line);
            start = i + 1;
            proof {
                let q = pieces(chars@.take(i + 1));
                assert(q == p.push(Seq::empty()));
                assert forall|k: int| 0 <= k < out@.len() implies (#[trigger] out@[k])@
                    == strip_cr(q[k]) by {
                    if k < out@.len() - 1 {
                        assert(q[k] == p[k]);
                    }
                }
                assert(chars@.subrange(start as int, i + 1) =~= Seq::<char>::empty());
            }
        } else {
            proof {
                let q = pieces(chars@.take(i + 1));
                assert(q == p.update(p.len() - 1, p.last().push(chars@[i as int])));
                assert forall|k: int| 0 <= k < out@.len() implies (#[trigger] out@[k])@
                    == strip_cr(q[k]) by {
                    assert(q[k] == p[k]);
                }
                assert(chars@.subrange(start as int, i + 1) =~= chars@.subrange(
                    start as int,
                    i as int,
                ).push(chars@[i as int]));
            }
        }
        i += 1;
    }
    assert(chars@.take(n as int) =~= chars@);
    let ghost p = pieces(chars@);
    if start < n {
        let line = contents.substring_char(start, n);
        out.push(line);
    }
    proof {
        let target = lines_of(contents@);
        let got = views_of(out@);
        assert(got.len() == target.len());
        assert forall|k: int| 0 <= k < got.len() implies got[k] == target[k] by {}
        assert(got =~= target);
    }
    out
}

/// Whether `q` occurs in `l` starting at position `i`.
fn occurs_at(l: &Vec<char>, q: &Vec<char>, i: usize) -> (r: bool)
    requires
        i + q@.len() <= l.len(),
    ensures
        r == (l@.subrange(i as int, i + q@.len()) == q@),
{
    let mut k: usize = 0;
    while k < q.len()
        invariant
            i + q@.len() <= l.len(),
            k <= q@.len(),
            forall|j: int| 0 <= j < k ==> l@[i + j] == q@[j],
        decreases q@.len() - k,
    {
        if l[i + k] != q[k] {
            assert(l@.subrange(i as int, i + q@.len())[k as int] != q@[k as int]);
            return false;
        }
        k += 1;
    }
    assert(l@.subrange(i as int, i + q@.len()) =~= q@);
    true
}

/// Whether `query` occurs in `line`.
pub fn contains(line: &str, query: &str) -> (r: bool)
    ensures
        r == is_infix(query@, line@),
{
    let l = chars_of(line);
    let q = chars_of(query);
    if q.len() > l.len() {
        return false;
    }
    let last = l.len() - q.len();
    let mut i: usize = 0;
    loop
        invariant
            l@ == line@,
            q@ == query@,
            last == l@.len() - q@.len(),
            i <= last,
            forall|j: int| 0 <= j < i ==> #[trigger] l@.subrange(j, j + q@.len()) != q@,
        decreases last - i,
    {
        if occurs_at(&l, &q, i) {
            return true;
        }
        if i == last {
            assert forall|j: int| 0 <= j && j + q@.len() <= l@.len() implies #[trigger] l@.subrange(
                j,
                j + q@.len(),
            ) != q@ by {
                assert(j <= last);
            }
            return false;
        }
        i += 1;
    }
}

/// The lines of `contents` in which `query` occurs, in order.
pub fn search<'a>(query: &str, contents: &'a str) -> (r: Vec<&'a str>)
    ensures
        views_of(r@) == matching(lines_of(contents@), query@, false),
{
    let all = lines(contents);
    let ghost views = views_of(all@);
    let mut out: Vec<&'a str> = Vec::new();
    let mut k: usize = 0;
    while k < all.len()
        invariant
            k <= all@.len(),
            views == views_of(all@),
            views_of(out@) == matching(views.take(k as int), query@, false),
        decreases all@.len() - k,
    {
        assert(views.take(k + 1).drop_last() =~= views.take(k as int));
        let line = all[k];
        assert(views.take(k + 1).last() == line@);
        assert(matching(views.take(k + 1), query@, false) == if line_matches(query@, line@, false) {
            matching(views.take(k as int), query@, false).push(line@)
        } else {
            matching(views.take(k as int), query@, false)
        });
        if contains(line, query) {
            let ghost prev = out@;
            out.push(line);
            assert(views_of(out@) =~= views_of(prev).push(line@));
        }
        assert(views_of(out@) =~= matching(views.take(k + 1), query@, false));
        k += 1;
    }
    assert(views.take(k as int) =~= views);
    out
}

/// The lines of `contents` in which `query` occurs when both are
/// lowercased, in order.
pub fn search_insensitive<'a>(query: &str, contents: &'a str) -> (r: Vec<&'a str>)
    ensures
        views_of(r@) == matching(lines_of(contents@), query@, true),
{
    let query_lower = lowercase(query);
    let all = lines(contents);
    let ghost views = views_of(all@);
    let mut out: Vec<&'a str> = Vec::new();
    let mut k: usize = 0;
    while k < all.len()
        invariant
            k <= all@.len(),
            query_lower@ == lower_of(query@),
            views == views_of(all@),
            views_of(out@) == matching(views.take(k as int), query@, true),
        decreases all@.len() - k,
    {
        assert(views.take(k + 1).drop_last() =~= views.take(k as int));
        let line = all[k];
        assert(views.take(k + 1).last() == line@);
        assert(matching(views.take(k + 1), query@, true) == if line_matches(query@, line@, true) {
            matching(views.take(k as int), query@, true).push(line@)
        } else {
            matching(views.take(k as int), query@, true)
        });
        let line_lower = lowercase(line);
        if contains(line_lower.as_str(), query_lower.as_str()) {
            let ghost prev = out@;
            out.push(line);
            assert(views_of(out@) =~= views_of(prev).push(line@));
        }
        assert(views_of(out@) =~= matching(views.take(k + 1), query@, true));
        k += 1;
    }
    assert(views.take(k as int) =~= views);
    out
}

/// What the search is asked to do.
pub struct CommandConfig {
    pub query: String,
    pub file_path: String,
    pub ignore_case: bool,
}

/// The word that, among the arguments, asks for case to be ignored.
pub open spec fn ignore_case_word() -> Seq<char> {
    "IGNORE_CASE"@
}

/// Some argument from position `from` on is the word `IGNORE_CASE`.
pub open spec fn asks_ignore_case(args: Seq<String>, from: int) -> bool {
    exists|i: int| from <= i < args.len() && (#[trigger] args[i])@ == ignore_case_word()
}

impl CommandConfig {
    /// Reads a configuration from the program's arguments, `args[0]` being
    /// the program itself: the query, then the file path. Case is ignored
    /// when the environment asks for it (`ignore_case_env`) or when
    /// `IGNORE_CASE` stands among the arguments from the file path on.
    pub fn build(args: &[String], ignore_case_env: bool) -> (r: Result<CommandConfig, &'static str>)
        ensures
            r is Err <==> args@.len() < 3,
            r matches Err(e) ==> e@ == "need more arguments"@,
            r matches Ok(c) ==> {
                &&& c.query@ == args@[1]@
                &&& c.file_path@ == args@[2]@
                &&& c.ignore_case == (ignore_case_env || asks_ignore_case(args@, 2))
            },
    {
        if args.len() < 3 {
            return Err("need more arguments");
        }
        let query = args[1].clone();
        let file_path = args[2].clone();
        let ignore_case = Self::parse_ignore_case(args, 2, ignore_case_env);
        Ok(CommandConfig { query, file_path, ignore_case })
    }

    fn parse_ignore_case(args: &[String], from: usize, ignore_case_env: bool) -> (b: bool)
        ensures
            b == (ignore_case_env || asks_ignore_case(args@, from as int)),
    {
        if ignore_case_env {
            return true;
        }
        let mut i = from;
        while i < args.len()
            invariant
                from <= i,
                forall|k: int| from <= k < i && k < args@.len() ==> (#[trigger] args@[k])@ != ignore_case_word(),
            decreases args@.len() - i,
        {
            if same_text(args[i].as_str(), "IGNORE_CASE") {
                return true;
            }
            i += 1;
        }
        false
    }

    /// The lines of `contents` that match the configured query.
    pub fn search_in<'a>(&self, contents: &'a str) -> (r: Vec<&'a str>)
        ensures
            views_of(r@) == matching(lines_of(contents@), self.query@, self.ignore_case),
    {
        if self.ignore_case {
            search_insensitive(self.query.as_str(), contents)
        } else {
            search(self.query.as_str(), contents)
        }
    }
}

/// The line that shows result number `k`.
pub open spec fn numbered_line(k: nat, line: Seq<char>) -> Seq<char> {
    seq!['['] + decimal_of(k) + "]: "@ + line
}

/// Numbers the results for display, from zero: `[k]: line`.
pub fn numbered(results: &Vec<&str>) -> (r: Vec<String>)
    ensures
        r@.len() == results@.len(),
        forall|k: int| 0 <= k < r@.len() ==> (#[trigger] r@[k])@ == numbered_line(k as nat, results@[k]@),
{
    let mut out: Vec<String> = Vec::new();
    let mut k: usize = 0;
    while k < results.len()
        invariant
            k <= results@.len(),
            out@.len() == k,
            forall|j: int| 0 <= j < k ==> (#[trigger] out@[j])@ == numbered_line(j as nat, results@[j]@),
        decreases results@.len() - k,
    {
        let mut line = String::from_str("[");
        let number = decimal(k as u64);
        line.append(number.as_str());
        line.append("]: ");
        line.append(results[k]);
        proof {
            reveal_strlit("[");
            assert(line@ =~= numbered_line(k as nat, results@[k as int]@));
        }
        out.push(line);
        k += 1;
    }
    out
}

} // verus!
