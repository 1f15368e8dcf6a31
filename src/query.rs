use vstd::prelude::*;

verus! {

/// The filters that every search adds to the user's tags: random order, no
/// post with a negative score, nothing voted on already, and no Flash.
pub open spec fn fixed_filters() -> Seq<Seq<char>> {
    seq!["order:random"@, "score:>=0"@, "-voted:anything"@, "-type:swf"@]
}

/// The filter that leaves out what `username` has already favorited.
pub open spec fn unfavorited_by(username: Seq<char>) -> Seq<char> {
    "-favoritedby:"@ + username
}

/// The terms of the search for `username`: their tags, in order, then the
/// fixed filters, then the filter on their favorites.
pub open spec fn search_terms_spec(terms: Seq<Seq<char>>, username: Seq<char>) -> Seq<Seq<char>> {
    terms + fixed_filters() + seq![unfavorited_by(username)]
}

/// Relies on `String::push_str`: the characters of `tail` are appended to `s`.
#[verifier::external_body]
fn push_str(s: &mut String, tail: &str)
    ensures
        final(s)@ == old(s)@ + tail@,
{
    s.push_str(tail)
}

/// The terms to search with for `username`, who asked for `terms`.
pub fn search_terms(terms: &Vec<String>, username: &str) -> (r: Vec<String>)
    ensures
        r.deep_view() == search_terms_spec(terms.deep_view(), username@),
{
    let mut out: Vec<String> = Vec::new();
    let mut i: usize = 0;
    while i < terms.len()
        invariant
            i <= terms.len(),
            out@.len() == i,
            forall|k: int| 0 <= k < i ==> (#[trigger] out@[k])@ == terms@[k]@,
        decreases terms.len() - i,
    {
        out.push(terms[i].clone());
        i = i + 1;
    }
    assert(out.deep_view() =~= terms.deep_view());
    out.push("order:random".to_owned());
    out.push("score:>=0".to_owned());
    out.push("-voted:anything".to_owned());
    out.push("-type:swf".to_owned());
    let mut favorites = "-favoritedby:".to_owned();
    push_str(&mut favorites, username);
    out.push(favorites);
    assert(out.deep_view() =~= search_terms_spec(terms.deep_view(), username@));
    out
}

} // verus!
