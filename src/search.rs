//! Line search: the lines of a text that contain a query, matched exactly or
//! without regard to case.
use vstd::prelude::*;

verus! {

/// `needle` occurs in `hay` starting at position `i`.
pub open spec fn occurs_at(hay: Seq<char>, needle: Seq<char>, i: int) -> bool {
    &&& 0 <= i
    &&& i + needle.len() <= hay.len()
    &&& hay.subrange(i, i + needle.len()) == needle
}

/// `needle` occurs somewhere in `hay`; the empty needle occurs everywhere.
pub open spec fn contains_spec(hay: Seq<char>, needle: Seq<char>) -> bool {
    exists|i: int| occurs_at(hay, needle, i)
}

/// The characters of `s`, in order.
pub fn chars_of(s: &str) -> (r: Vec<char>)
    ensures
        r@ == s@,
{
    let n = s.unicode_len();
    let mut r: Vec<char> = Vec::with_capacity(n);
    let mut i: usize = 0;
    while i < n
        invariant
            n == s@.len(),
            i <= n,
            r@ == s@.subrange(0, i as int),
        decreases n - i,
    {
        r.push(s.get_char(i));
        i = i + 1;
        assert(r@ =~= s@.subrange(0, i as int));
    }
    assert(r@ =~= s@);
    r
}

fn occurs_at_chars(hay: &Vec<char>, needle: &Vec<char>, i: usize) -> (r: bool)
    requires
        i + needle@.len() <= hay@.len(),
    ensures
        r == occurs_at(hay@, needle@, i as int),
{
    let hl = hay.len();
    let mut j: usize = 0;
    while j < needle.len()
        invariant
            hl == hay@.len(),
            i + needle@.len() <= hay@.len(),
            j <= needle@.len(),
            forall|k: int| 0 <= k < j ==> hay@[i + k] == needle@[k],
        decreases needle@.len() - j,
    {
        if hay[i + j] != needle[j] {
            assert(hay@.subrange(i as int, i + needle@.len())[j as int] != needle@[j as int]);
            return false;
        }
        j = j + 1;
    }
    assert(hay@.subrange(i as int, i + needle@.len()) =~= needle@);
    true
}

/// Whether `needle` occurs in `hay`.
pub fn contains_chars(hay: &Vec<char>, needle: &Vec<char>) -> (r: bool)
    ensures
        r == contains_spec(hay@, needle@),
{
    if needle.len() > hay.len() {
        assert forall|i: int| !occurs_at(hay@, needle@, i) by {}
        return false;
    }
    let last = hay.len() - needle.len();
    let mut i: usize = 0;
    loop
        invariant
            last == hay@.len() - needle@.len(),
            i <= last,
            forall|k: int| 0 <= k < i ==> !occurs_at(hay@, needle@, k),
        ensures
            forall|k: int| 0 <= k <= last ==> !occurs_at(hay@, needle@, k),
        decreases last - i,
    {
        if occurs_at_chars(hay, needle, i) {
            return true;
        }
        if i == last {
            break;
        }
        i = i + 1;
    }
    assert forall|k: int| !occurs_at(hay@, needle@, k) by {
        if 0 <= k <= last {
        }
    }
    false
}

/// Whether `needle` occurs in `hay`.
pub fn contains(hay: &str, needle: &str) -> (r: bool)
    ensures
        r == contains_spec(hay@, needle@),
{
    let h = chars_of(hay);
    let n = chars_of(needle);
    contains_chars(&h, &n)
}

/// The lines of `s` from the one that begins at `start`, scanning from `i`.
/// A line ends at `'\n'`, or at `"\r\n"`, which is not part of it; the last
/// line needs no terminator, and a text that ends with one has no empty line
/// after it.
pub open spec fn lines_from(s: Seq<char>, start: int, i: int) -> Seq<Seq<char>>
    decreases s.len() - i,
{
    if i >= s.len() {
        if start < s.len() {
            seq![s.subrange(start, s.len() as int)]
        } else {
            Seq::empty()
        }
    } else if s[i] == '\n' {
        let end = if i > start && s[i - 1] == '\r' {
            i - 1
        } else {
            i
        };
        seq![s.subrange(start, end)] + lines_from(s, i + 1, i + 1)
    } else {
        lines_from(s, start, i + 1)
    }
}

/// The lines of `s`, in order.
pub open spec fn lines_of(s: Seq<char>) -> Seq<Seq<char>> {
    lines_from(s, 0, 0)
}

/// The text of each line.
pub open spec fn views(ls: Seq<&str>) -> Seq<Seq<char>> {
    ls.map_values(|l: &str| l@)
}

/// Splits `s` into its lines.
pub fn lines<'a>(s: &'a str) -> (r: Vec<&'a str>)
    ensures
        views(r@) == lines_of(s@),
{
    let cs = chars_of(s);
    let n = cs.len();
    let mut r: Vec<&'a str> = Vec::new();
    let mut start: usize = 0;
    let mut i: usize = 0;
    while i < n
        invariant
            n == s@.len(),
            cs@ == s@,
            start <= i <= n,
            views(r@) + lines_from(s@, start as int, i as int) == lines_of(s@),
        decreases n - i,
    {
        if cs[i] == '\n' {
            let end = if i > start && cs[i - 1] == '\r' {
                i - 1
            } else {
                i
            };
            let line = s.substring_char(start, end);
            let ghost before = views(r@);
            r.push(line);
            assert(views(r@) =~= before.push(line@));
            assert(views(r@) + lines_from(s@, (i + 1) as int, (i + 1) as int) =~= before
                + lines_from(s@, start as int, i as int));
            start = i + 1;
        }
        i = i + 1;
    }
    if start < n {
        let line = s.substring_char(start, n);
        let ghost before = views(r@);
        r.push(line);
        assert(views(r@) =~= before.push(line@));
        assert(views(r@) =~= before + lines_from(s@, start as int, i as int));
    } else {
        assert(views(r@) =~= views(r@) + lines_from(s@, start as int, i as int));
    }
    r
}

/// The lines of `ls` that contain `q`, in order.
pub open spec fn matching(ls: Seq<Seq<char>>, q: Seq<char>) -> Seq<Seq<char>>
    decreases ls.len(),
{
    if ls.len() == 0 {
        Seq::empty()
    } else {
        let rest = matching(ls.drop_last(), q);
        if contains_spec(ls.last(), q) {
            rest.push(ls.last())
        } else {
            rest
        }
    }
}

/// The lines of `ls` whose lower-case form contains `folded_query`, in order.
pub open spec fn matching_folded(ls: Seq<Seq<char>>, folded_query: Seq<char>) -> Seq<Seq<char>>
    decreases ls.len(),
{
    if ls.len() == 0 {
        Seq::empty()
    } else {
        let rest = matching_folded(ls.drop_last(), folded_query);
        if contains_spec(lower_of(ls.last()), folded_query) {
            rest.push(ls.last())
        } else {
            rest
        }
    }
}

/// The lower-case form of a text, as `str::to_lowercase` computes it.
pub uninterp spec fn lower_of(s: Seq<char>) -> Seq<char>;

/// Relies on `str::to_lowercase`: the result depends on the characters of
/// `s` alone, and the empty string stays empty.
#[verifier::external_body]
fn to_lowercase(s: &str) -> (r: String)
    ensures
        r@ == lower_of(s@),
        s@.len() == 0 ==> r@.len() == 0,
{
    s.to_lowercase()
}

/// The lines of `contents` that contain `query`, in order.
pub fn search<'a>(query: &str, contents: &'a str) -> (r: Vec<&'a str>)
    ensures
        views(r@) == matching(lines_of(contents@), query@),
{
    let q = chars_of(query);
    let ls = lines(contents);
    let mut r: Vec<&'a str> = Vec::new();
    let mut i: usize = 0;
    while i < ls.len()
        invariant
            q@ == query@,
            views(ls@) == lines_of(contents@),
            i <= ls@.len(),
            views(r@) == matching(views(ls@).take(i as int), query@),
        decreases ls@.len() - i,
    {
        let line = ls[i];
        let lc = chars_of(line);
        let ghost before = views(r@);
        assert(views(ls@).take(i + 1).drop_last() =~= views(ls@).take(i as int));
        if contains_chars(&lc, &q) {
            r.push(line);
            assert(views(r@) =~= before.push(line@));
        }
        i = i + 1;
    }
    assert(views(ls@).take(i as int) =~= views(ls@));
    r
}

/// The lines of `contents` that contain `query`, compared in lower case, in
/// order.
pub fn search_case_insensitive<'a>(query: &str, contents: &'a str) -> (r: Vec<&'a str>)
    ensures
        views(r@) == matching_folded(lines_of(contents@), lower_of(query@)),
{
    let folded = to_lowercase(query);
    let q = chars_of(folded.as_str());
    let ls = lines(contents);
    let mut r: Vec<&'a str> = Vec::new();
    let mut i: usize = 0;
    while i < ls.len()
        invariant
            q@ == lower_of(query@),
            views(ls@) == lines_of(contents@),
            i <= ls@.len(),
            views(r@) == matching_folded(views(ls@).take(i as int), lower_of(query@)),
        decreases ls@.len() - i,
    {
        let line = ls[i];
        let folded_line = to_lowercase(line);
        let lc = chars_of(folded_line.as_str());
        let ghost before = views(r@);
        assert(views(ls@).take(i + 1).drop_last() =~= views(ls@).take(i as int));
        if contains_chars(&lc, &q) {
            r.push(line);
            assert(views(r@) =~= before.push(line@));
        }
        i = i + 1;
    }
    assert(views(ls@).take(i as int) =~= views(ls@));
    r
}

/// What a search is asked to do.
pub struct Config {
    pub query: String,
    pub filename: String,
    pub case_sensitive: bool,
}

impl Config {
    /// Reads the query and the file name from `args`, whose first item is
    /// the program's name and is skipped. The search ignores case when
    /// `case_insensitive_set` holds.
    pub fn new(args: &Vec<String>, case_insensitive_set: bool) -> (r: Result<Config, &'static str>)
        ensures
            args@.len() < 2 ==> r == Err::<Config, &'static str>("Didn't get a query string"),
            args@.len() == 2 ==> r == Err::<Config, &'static str>("Didn't get a file name"),
            args@.len() > 2 ==> (r matches Ok(c) && c.query@ == args@[1]@ && c.filename@
                == args@[2]@ && c.case_sensitive == !case_insensitive_set),
    {
        if args.len() < 2 {
            return Err("Didn't get a query string");
        }
        if args.len() < 3 {
            return Err("Didn't get a file name");
        }
        let query = args[1].clone();
        let filename = args[2].clone();
        Ok(Config { query, filename, case_sensitive: !case_insensitive_set })
    }

    /// The matching lines of `contents`, by the kind of search configured.
    pub fn search_in<'a>(&self, contents: &'a str) -> (r: Vec<&'a str>)
        ensures
            self.case_sensitive ==> views(r@) == matching(lines_of(contents@), self.query@),
            !self.case_sensitive ==> views(r@) == matching_folded(
                lines_of(contents@),
                lower_of(self.query@),
            ),
    {
        if self.case_sensitive {
            search(self.query.as_str(), contents)
        } else {
            search_case_insensitive(self.query.as_str(), contents)
        }
    }
}

} // verus!
