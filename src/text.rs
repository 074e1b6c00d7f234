//! Text helpers: splitting a path on `/`, joining segments, and the UTF-8
//! bytes of a string.
use vstd::prelude::*;
use vstd::string::StringExecFns;
use vstd::utf8::encode_utf8;

verus! {

/// The pieces of `s` between the `/` characters, in order; a string without
/// `/` is one piece, so there is always at least one.
pub open spec fn split_slash(s: Seq<char>) -> Seq<Seq<char>>
    decreases s.len(),
{
    if s.len() == 0 {
        seq![Seq::<char>::empty()]
    } else {
        let prior = split_slash(s.drop_last());
        if s.last() == '/' {
            prior.push(Seq::<char>::empty())
        } else {
            prior.update(prior.len() - 1, prior.last().push(s.last()))
        }
    }
}

/// The pieces joined with `/` between each two of them.
pub open spec fn join_slash(parts: Seq<Seq<char>>) -> Seq<char>
    decreases parts.len(),
{
    if parts.len() == 0 {
        Seq::<char>::empty()
    } else if parts.len() == 1 {
        parts[0]
    } else {
        join_slash(parts.drop_last()) + seq!['/'] + parts.last()
    }
}

/// The views of a sequence of strings.
pub open spec fn views(v: Seq<String>) -> Seq<Seq<char>> {
    v.map_values(|s: String| s@)
}

/// Splitting always gives at least one piece.
pub proof fn lemma_split_nonempty(s: Seq<char>)
    ensures
        split_slash(s).len() >= 1,
    decreases s.len(),
{
    if s.len() > 0 {
        lemma_split_nonempty(s.drop_last());
    }
}

/// A text splits into at most one piece exactly when it holds no `/`.
pub proof fn lemma_single_piece_iff_no_slash(s: Seq<char>)
    ensures
        (split_slash(s).len() <= 1) == (forall|i: int| 0 <= i < s.len() ==> s[i] != '/'),
    decreases s.len(),
{
    lemma_split_nonempty(s);
    if s.len() > 0 {
        let prefix = s.drop_last();
        lemma_single_piece_iff_no_slash(prefix);
        lemma_split_nonempty(prefix);
        if s.last() == '/' {
            assert(s[s.len() - 1] == '/');
        } else {
            assert forall|i: int| 0 <= i < prefix.len() implies prefix[i] == s[i] by {}
            if exists|i: int| 0 <= i < s.len() && s[i] == '/' {
                let i = choose|i: int| 0 <= i < s.len() && s[i] == '/';
                assert(i < prefix.len());
                assert(prefix[i] == '/');
            }
        }
    }
}

/// Relies on `str::split` with the pattern `'/'`, each piece copied into a `String`.
#[verifier::external_body]
pub(crate) fn split_on_slash(s: &str) -> (r: Vec<String>)
    ensures
        views(r@) == split_slash(s@),
{
    s.split('/').map(|p| p.to_string()).collect()
}

/// Relies on `<[String]>::join` with the separator `"/"`.
#[verifier::external_body]
pub(crate) fn join_on_slash(parts: &[String]) -> (r: String)
    ensures
        r@ == join_slash(views(parts@)),
{
    parts.join("/")
}

/// Relies on `String::into_bytes`: the UTF-8 encoding of the text.
#[verifier::external_body]
pub(crate) fn utf8_bytes(s: String) -> (r: Vec<u8>)
    ensures
        r@ == encode_utf8(s@),
{
    s.into_bytes()
}

/// The text between two `<pre>` markers.
pub(crate) fn in_pre(s: &str) -> (r: String)
    ensures
        r@ == "<pre>"@ + s@ + "<pre>"@,
{
    let mut page = "<pre>".to_owned();
    page.append(s);
    page.append("<pre>");
    page
}

} // verus!
