//! Finding the lines of a text that contain a query.
use vstd::prelude::*;
use vstd::string::StringExecFns;

verus! {

/// Whether `p` occurs in `s` as a contiguous part.
pub open spec fn has_part(s: Seq<char>, p: Seq<char>) -> bool {
    exists|i: int| 0 <= i <= s.len() - p.len() && #[trigger] s.subrange(i, i + p.len()) == p
}

/// The lines of a text, as `str::lines` splits it.
pub uninterp spec fn lines_of(s: Seq<char>) -> Seq<Seq<char>>;

/// A text in lower case, as `str::to_lowercase` gives it.
pub uninterp spec fn lower_of(s: Seq<char>) -> Seq<char>;

/// Relies on `str::lines`: the lines of `s`, borrowed from it.
#[verifier::external_body]
pub(crate) fn lines_in<'a>(s: &'a str) -> (r: Vec<&'a str>)
    ensures
        views(r@) == lines_of(s@),
{
    s.lines().collect()
}

/// Relies on `str::contains` with a `&str` pattern: whether `p` occurs in `s`.
#[verifier::external_body]
fn contains_part(s: &str, p: &str) -> (r: bool)
    ensures
        r == has_part(s@, p@),
{
    s.contains(p)
}

/// Relies on `str::to_lowercase`: the result depends on the characters alone.
#[verifier::external_body]
fn lowercase(s: &str) -> (r: String)
    ensures
        r@ == lower_of(s@),
{
    s.to_lowercase()
}

pub open spec fn views(s: Seq<&str>) -> Seq<Seq<char>> {
    s.map_values(|l: &str| l@)
}

/// The items of `lines` whose key, at the same index, contains `query`.
pub open spec fn select(lines: Seq<Seq<char>>, keys: Seq<Seq<char>>, query: Seq<char>) -> Seq<Seq<char>>
    decreases lines.len(),
{
    if lines.len() == 0 {
        Seq::empty()
    } else {
        let rest = select(lines.drop_last(), keys.take(lines.len() - 1), query);
        if has_part(keys[lines.len() - 1], query) {
            rest.push(lines.last())
        } else {
            rest
        }
    }
}

/// Keeps, in order, each line whose key at the same index contains `query`.
pub fn select_lines<'a>(lines: &Vec<&'a str>, keys: &Vec<String>, query: &str) -> (r: Vec<&'a str>)
    requires
        lines@.len() == keys@.len(),
    ensures
        views(r@) == select(views(lines@), keys@.map_values(|k: String| k@), query@),
{
    let ghost ls = views(lines@);
    let ghost ks = keys@.map_values(|k: String| k@);
    let mut r: Vec<&'a str> = Vec::new();
    let mut i: usize = 0;
    while i < lines.len()
        invariant
            lines@.len() == keys@.len(),
            i <= lines@.len(),
            ls == views(lines@),
            ks == keys@.map_values(|k: String| k@),
            views(r@) == select(ls.take(i as int), ks.take(i as int), query@),
        decreases lines@.len() - i,
    {
        proof {
            assert(ls.take(i + 1).drop_last() =~= ls.take(i as int));
            assert(ks.take(i + 1).take(i as int) =~= ks.take(i as int));
        }
        if contains_part(keys[i].as_str(), query) {
            r.push(lines[i]);
            assert(views(r@) =~= select(ls.take(i as int), ks.take(i as int), query@).push(lines@[i as int]@));
        }
        i = i + 1;
    }
    assert(ls.take(lines@.len() as int) =~= ls);
    assert(ks.take(lines@.len() as int) =~= ks);
    r
}

/// The lines of `contents` that contain `query`, in order.
pub fn search<'a>(query: &str, contents: &'a str) -> (r: Vec<&'a str>)
    ensures
        views(r@) == select(lines_of(contents@), lines_of(contents@), query@),
{
    let lines = lines_in(contents);
    let mut keys: Vec<String> = Vec::new();
    let mut i: usize = 0;
    while i < lines.len()
        invariant
            i <= lines@.len(),
            keys@.len() == i,
            forall|j: int| 0 <= j < i ==> #[trigger] keys@[j]@ == lines@[j]@,
        decreases lines@.len() - i,
    {
        keys.push(String::from_str(lines[i]));
        i = i + 1;
    }
    assert(keys@.map_values(|k: String| k@) =~= views(lines@));
    select_lines(&lines, &keys, query)
}

/// The lines of `contents` that contain `query` when both are in lower
/// case, in order.
pub fn search_case_insensitive<'a>(query: &str, contents: &'a str) -> (r: Vec<&'a str>)
    ensures
        views(r@) == select(lines_of(contents@), lines_of(contents@).map_values(|l: Seq<char>| lower_of(l)), lower_of(query@)),
{
    let query = lowercase(query);
    let lines = lines_in(contents);
    let mut keys: Vec<String> = Vec::new();
    let mut i: usize = 0;
    while i < lines.len()
        invariant
            i <= lines@.len(),
            keys@.len() == i,
            forall|j: int| 0 <= j < i ==> #[trigger] keys@[j]@ == lower_of(lines@[j]@),
        decreases lines@.len() - i,
    {
        keys.push(lowercase(lines[i]));
        i = i + 1;
    }
    assert(keys@.map_values(|k: String| k@) =~= lines_of(contents@).map_values(|l: Seq<char>| lower_of(l)));
    select_lines(&lines, &keys, query.as_str())
}

/// A search request: what to look for, and where.
pub struct Search {
    pub query: String,
    pub location: String,
    case_insensitive: bool,
}

impl Search {
    pub closed spec fn is_case_insensitive(&self) -> bool {
        self.case_insensitive
    }

    pub closed spec fn query_text(&self) -> Seq<char> {
        self.query@
    }

    pub closed spec fn location_text(&self) -> Seq<char> {
        self.location@
    }

    /// The request given by `args`: the query is the second argument and
    /// the location the third. Fewer than three arguments is an error.
    pub fn new(args: &Vec<String>, case_insensitive: bool) -> (r: Result<Search, String>)
        ensures
            args@.len() < 3 <==> r is Err,
            r matches Ok(s) ==> s.query_text() == args@[1]@ && s.location_text() == args@[2]@
                && s.is_case_insensitive() == case_insensitive,
            r matches Err(e) ==> e@ == "not enough arguments, missing query and/or location"@,
    {
        if args.len() < 3 {
            return Err(String::from_str("not enough arguments, missing query and/or location"));
        }
        Ok(Search {
            query: String::from_str(args[1].as_str()),
            location: String::from_str(args[2].as_str()),
            case_insensitive,
        })
    }

    /// The lines of `contents` that match the request, in order.
    pub fn find_in<'a>(&self, contents: &'a str) -> (r: Vec<&'a str>)
        ensures
            !self.is_case_insensitive() ==> views(r@) == select(lines_of(contents@), lines_of(contents@), self.query_text()),
            self.is_case_insensitive() ==> views(r@) == select(
                lines_of(contents@),
                lines_of(contents@).map_values(|l: Seq<char>| lower_of(l)),
                lower_of(self.query_text()),
            ),
    {
        if self.case_insensitive {
            search_case_insensitive(self.query.as_str(), contents)
        } else {
            search(self.query.as_str(), contents)
        }
    }
}

} // verus!
