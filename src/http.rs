//! The method and the route of a request, read from its first line.
use vstd::prelude::*;
use crate::shape::same_text;

verus! {

pub enum Method {
    GET,
    POST,
}

pub enum Route {
    Home,
    Sleep,
    NotFound,
}

/// The pieces of `s` between occurrences of `sep`, as `str::split` with a
/// `char` pattern gives them: `n` separators give `n + 1` pieces.
pub open spec fn pieces(s: Seq<char>, sep: char) -> Seq<Seq<char>>
    decreases s.len(),
{
    if s.len() == 0 {
        seq![Seq::empty()]
    } else {
        let rest = pieces(s.drop_first(), sep);
        if s[0] == sep {
            seq![Seq::empty()] + rest
        } else {
            rest.update(0, seq![s[0]] + rest[0])
        }
    }
}

/// There is always at least one piece.
pub proof fn lemma_pieces_not_empty(s: Seq<char>, sep: char)
    ensures
        pieces(s, sep).len() >= 1,
    decreases s.len(),
{
    if s.len() > 0 {
        lemma_pieces_not_empty(s.drop_first(), sep);
    }
}

pub open spec fn views(s: Seq<&str>) -> Seq<Seq<char>> {
    s.map_values(|l: &str| l@)
}

/// Relies on `str::split` with a `char` pattern: the pieces between the
/// separators, in order.
#[verifier::external_body]
fn split_on<'a>(s: &'a str, sep: char) -> (r: Vec<&'a str>)
    ensures
        views(r@) == pieces(s@, sep),
{
    s.split(sep).collect()
}

/// The words of a request's first line.
pub open spec fn words(request: Seq<String>) -> Seq<Seq<char>> {
    pieces(request[0]@, ' ')
}

/// The route named by the second word of the first line: `/` is home,
/// `/sleep` is sleep, anything else is not found.
pub fn route(request: &Vec<String>) -> (r: Route)
    requires
        request@.len() > 0,
        words(request@).len() >= 2,
    ensures
        words(request@)[1] == "/"@ ==> r is Home,
        words(request@)[1] == "/sleep"@ ==> r is Sleep,
        words(request@)[1] != "/"@ && words(request@)[1] != "/sleep"@ ==> r is NotFound,
{
    let parts = split_on(request[0].as_str(), ' ');
    assert(parts@[1]@ == words(request@)[1]);
    let path = parts[1];
    proof {
        reveal_strlit("/");
        reveal_strlit("/sleep");
        assert("/"@.len() != "/sleep"@.len());
    }
    if same_text(path, "/") {
        Route::Home
    } else if same_text(path, "/sleep") {
        Route::Sleep
    } else {
        Route::NotFound
    }
}

/// `GET` when the first word of the first line is `GET`, otherwise `POST`.
pub fn method(request: &Vec<String>) -> (r: Method)
    requires
        request@.len() > 0,
    ensures
        r is GET <==> words(request@)[0] == "GET"@,
{
    proof {
        lemma_pieces_not_empty(request@[0]@, ' ');
    }
    let parts = split_on(request[0].as_str(), ' ');
    assert(parts@[0]@ == words(request@)[0]);
    if same_text(parts[0], "GET") {
        return Method::GET;
    }
    Method::POST
}

} // verus!
