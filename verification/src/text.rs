//! Token text: the text that a `quote::Tokens` holds, and how appending a
//! token changes it.

use vstd::prelude::*;
use quote::ToTokens;

verus! {

/// Appending `b` after `a` as `quote::Tokens` does: a single space separates
/// the two when both are non-empty.
pub open spec fn join(a: Seq<char>, b: Seq<char>) -> Seq<char> {
    if a.len() == 0 {
        b
    } else if b.len() == 0 {
        a
    } else {
        a + seq![' '] + b
    }
}

/// `join` is associative, so a sequence of appends can be regrouped.
pub broadcast proof fn lemma_join_assoc(a: Seq<char>, b: Seq<char>, c: Seq<char>)
    ensures
        #[trigger] join(join(a, b), c) == join(a, join(b, c)),
{
    if a.len() != 0 && b.len() != 0 && c.len() != 0 {
        assert(a + seq![' '] + b + seq![' '] + c =~= a + seq![' '] + (b + seq![' '] + c));
    }
}

/// The texts of `parts` in order, with `sep` between consecutive ones.
/// With an empty `sep` this is the plain concatenation of tokens.
pub open spec fn sep_join(parts: Seq<Seq<char>>, sep: Seq<char>) -> Seq<char>
    decreases parts.len(),
{
    if parts.len() == 0 {
        Seq::empty()
    } else if parts.len() == 1 {
        parts[0]
    } else {
        join(join(sep_join(parts.drop_last(), sep), sep), parts.last())
    }
}

/// Extending a prefix of `parts` by one element extends its `sep_join`.
pub proof fn lemma_sep_join_step(parts: Seq<Seq<char>>, sep: Seq<char>, i: int)
    requires
        0 <= i < parts.len(),
    ensures
        sep_join(parts.subrange(0, i + 1), sep) == if i == 0 {
            parts[0]
        } else {
            join(join(sep_join(parts.subrange(0, i), sep), sep), parts[i])
        },
{
    let next = parts.subrange(0, i + 1);
    assert(next.drop_last() =~= parts.subrange(0, i));
}

/// A whole sequence is its own prefix of full length.
pub proof fn lemma_sep_join_full(parts: Seq<Seq<char>>, sep: Seq<char>)
    ensures
        sep_join(parts.subrange(0, parts.len() as int), sep) == sep_join(parts, sep),
{
    assert(parts.subrange(0, parts.len() as int) =~= parts);
}

/// Concatenating two sequences of tokens concatenates their texts: the text
/// of `a + b` is the text of `a` followed by that of `b`.
pub proof fn lemma_sep_join_concat(a: Seq<Seq<char>>, b: Seq<Seq<char>>)
    ensures
        sep_join(a + b, Seq::empty()) == join(sep_join(a, Seq::empty()), sep_join(b, Seq::empty())),
    decreases b.len(),
{
    let e = Seq::<char>::empty();
    if b.len() == 0 {
        assert(a + b =~= a);
    } else if a.len() == 0 {
        assert(a + b =~= b);
    } else {
        let ab = a + b;
        assert(ab.drop_last() =~= a + b.drop_last());
        assert(ab.last() == b.last());
        lemma_sep_join_concat(a, b.drop_last());
        let sa = sep_join(a, e);
        let sb1 = sep_join(b.drop_last(), e);
        lemma_join_assoc(sa, sb1, b.last());
        if b.len() == 1 {
            assert(b.drop_last() =~= Seq::<Seq<char>>::empty());
        }
    }
}

/// Adding a part after a non-empty list adds the separator and the part.
pub proof fn lemma_sep_join_push(parts: Seq<Seq<char>>, x: Seq<char>, sep: Seq<char>)
    requires
        parts.len() >= 1,
    ensures
        sep_join(parts.push(x), sep) == join(join(sep_join(parts, sep), sep), x),
{
    assert(parts.push(x).drop_last() =~= parts);
}

/// `s` starts with `t`.
pub open spec fn starts_with(s: Seq<char>, t: Seq<char>) -> bool {
    t.len() <= s.len() && s.subrange(0, t.len() as int) == t
}

/// Appending to a text keeps whatever it started with.
pub broadcast proof fn lemma_join_keeps_prefix(x: Seq<char>, y: Seq<char>, p: Seq<char>)
    requires
        starts_with(x, p),
    ensures
        #[trigger] starts_with(join(x, y), p),
{
    let s = join(x, y);
    assert(s.subrange(0, p.len() as int) =~= x.subrange(0, p.len() as int));
}

/// Every text starts with itself.
pub proof fn lemma_starts_with_self(s: Seq<char>)
    ensures
        starts_with(s, s),
{
    assert(s.subrange(0, s.len() as int) =~= s);
}

/// `s` ends with `t`.
pub open spec fn ends_with(s: Seq<char>, t: Seq<char>) -> bool {
    t.len() <= s.len() && s.subrange(s.len() - t.len(), s.len() as int) == t
}

/// Whatever comes first, appending `b` leaves the text ending with `b`.
pub proof fn lemma_join_ends_with(a: Seq<char>, b: Seq<char>)
    ensures
        ends_with(join(a, b), b),
{
    let s = join(a, b);
    assert(s.subrange(s.len() - b.len(), s.len() as int) =~= b);
}

/// After three appends, the text ends with the last three pieces.
pub broadcast proof fn lemma_join3_ends_with(a: Seq<char>, b: Seq<char>, d: Seq<char>, e: Seq<char>)
    ensures
        ends_with(#[trigger] join(join(join(a, b), d), e), join(join(b, d), e)),
{
    lemma_join_assoc(join(a, b), d, e);
    lemma_join_assoc(a, b, join(d, e));
    lemma_join_assoc(b, d, e);
    lemma_join_ends_with(a, join(join(b, d), e));
}

/// A list written with `sep` between its parts, preceded by `sep`, is each
/// part preceded by `sep`.
pub proof fn lemma_sep_prefixed(parts: Seq<Seq<char>>, sep: Seq<char>)
    requires
        parts.len() > 0,
    ensures
        join(sep, sep_join(parts, sep))
            == sep_join(parts.map_values(|x: Seq<char>| join(sep, x)), Seq::empty()),
    decreases parts.len(),
{
    let m = parts.map_values(|x: Seq<char>| join(sep, x));
    if parts.len() == 1 {
        assert(m.len() == 1);
    } else {
        let front = parts.drop_last();
        lemma_sep_prefixed(front, sep);
        assert(m.drop_last() =~= front.map_values(|x: Seq<char>| join(sep, x)));
        let s1 = sep_join(front, sep);
        lemma_join_assoc(s1, sep, parts.last());
        lemma_join_assoc(sep, s1, join(sep, parts.last()));
        lemma_join_assoc(sep, s1, sep);
        lemma_join_assoc(join(sep, s1), sep, parts.last());
    }
}

#[verifier::external_type_specification]
#[verifier::external_body]
pub struct ExTokens(quote::Tokens);

/// The text that a `quote::Tokens` holds.
pub uninterp spec fn tokens_text(t: quote::Tokens) -> Seq<char>;

/// `quote::Tokens::new`: a value that holds no text.
#[verifier::external_body]
pub(crate) fn tokens_new() -> (r: quote::Tokens)
    ensures
        tokens_text(r) == Seq::<char>::empty(),
{
    quote::Tokens::new()
}

/// `quote::Tokens::append`: the token is added after the text held so far,
/// with one space between them when both are non-empty.
#[verifier::external_body]
pub(crate) fn tokens_append(t: &mut quote::Tokens, token: &str)
    ensures
        tokens_text(*final(t)) == join(tokens_text(*old(t)), token@),
{
    t.append(token)
}

/// `quote::Ident::new` followed by its `ToTokens::to_tokens`: the identifier
/// is appended as one token.
#[verifier::external_body]
pub(crate) fn tokens_append_ident(t: &mut quote::Tokens, name: &str)
    ensures
        tokens_text(*final(t)) == join(tokens_text(*old(t)), name@),
{
    quote::Ident::new(name).to_tokens(t)
}

/// `ToTokens::to_tokens` of a `quote::Tokens` value `x` into `t`: the whole
/// text of `x` is appended to `t` as one token.
#[verifier::external_body]
pub(crate) fn tokens_append_tokens(t: &mut quote::Tokens, x: &quote::Tokens)
    ensures
        tokens_text(*final(t)) == join(tokens_text(*old(t)), tokens_text(*x)),
{
    x.to_tokens(t)
}

/// `Clone` of `quote::Tokens`, which is derived over the text it holds.
#[verifier::external_body]
pub(crate) fn tokens_clone(t: &quote::Tokens) -> (r: quote::Tokens)
    ensures
        tokens_text(r) == tokens_text(*t),
{
    t.clone()
}

/// Appends the texts of `xs` in order, each as one token.
pub(crate) fn tokens_append_all(t: &mut quote::Tokens, xs: &Vec<quote::Tokens>)
    ensures
        tokens_text(*final(t)) == join(
            tokens_text(*old(t)),
            sep_join(xs@.map_values(|x: quote::Tokens| tokens_text(x)), Seq::empty()),
        ),
{
    let ghost parts = xs@.map_values(|x: quote::Tokens| tokens_text(x));
    let mut i: usize = 0;
    assert(parts.subrange(0, 0) =~= Seq::<Seq<char>>::empty());
    while i < xs.len()
        invariant
            0 <= i <= xs@.len(),
            parts == xs@.map_values(|x: quote::Tokens| tokens_text(x)),
            tokens_text(*t) == join(
                tokens_text(*old(t)),
                sep_join(parts.subrange(0, i as int), Seq::empty()),
            ),
        decreases xs@.len() - i,
    {
        tokens_append_tokens(t, &xs[i]);
        proof {
            lemma_sep_join_step(parts, Seq::empty(), i as int);
            lemma_join_assoc(tokens_text(*old(t)), sep_join(parts.subrange(0, i as int), Seq::empty()), Seq::empty());
        }
        i = i + 1;
    }
    proof {
        lemma_sep_join_full(parts, Seq::empty());
    }
}

/// Prefixing the texts of `xs` is mapping the prefix over their texts.
pub proof fn lemma_prefixed_map(xs: Seq<quote::Tokens>, prefix: Seq<char>)
    ensures
        xs.map_values(|x: quote::Tokens| join(prefix, tokens_text(x)))
            == xs.map_values(|x: quote::Tokens| tokens_text(x)).map_values(|y: Seq<char>| join(prefix, y)),
{
    assert(xs.map_values(|x: quote::Tokens| join(prefix, tokens_text(x)))
        =~= xs.map_values(|x: quote::Tokens| tokens_text(x)).map_values(|y: Seq<char>| join(prefix, y)));
}

/// Appends, for each element of `xs`, the token `prefix` followed by the
/// text of that element.
pub(crate) fn tokens_append_all_prefixed(t: &mut quote::Tokens, prefix: &str, xs: &Vec<quote::Tokens>)
    ensures
        tokens_text(*final(t)) == join(
            tokens_text(*old(t)),
            sep_join(xs@.map_values(|x: quote::Tokens| join(prefix@, tokens_text(x))), Seq::empty()),
        ),
{
    let ghost parts = xs@.map_values(|x: quote::Tokens| join(prefix@, tokens_text(x)));
    let mut i: usize = 0;
    assert(parts.subrange(0, 0) =~= Seq::<Seq<char>>::empty());
    while i < xs.len()
        invariant
            0 <= i <= xs@.len(),
            parts == xs@.map_values(|x: quote::Tokens| join(prefix@, tokens_text(x))),
            tokens_text(*t) == join(
                tokens_text(*old(t)),
                sep_join(parts.subrange(0, i as int), Seq::empty()),
            ),
        decreases xs@.len() - i,
    {
        let ghost before = tokens_text(*t);
        tokens_append(t, prefix);
        tokens_append_tokens(t, &xs[i]);
        proof {
            let sj = sep_join(parts.subrange(0, i as int), Seq::empty());
            lemma_sep_join_step(parts, Seq::empty(), i as int);
            lemma_join_assoc(before, prefix@, tokens_text(xs@[i as int]));
            lemma_join_assoc(tokens_text(*old(t)), sj, Seq::empty());
            lemma_join_assoc(tokens_text(*old(t)), sj, parts[i as int]);
        }
        i = i + 1;
    }
    proof {
        lemma_sep_join_full(parts, Seq::empty());
    }
}

} // verus!
