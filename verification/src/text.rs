use vstd::prelude::*;

verus! {

/// What one character of feed text becomes in the rendered document:
/// a literal `&` becomes the entity `&amp;`, every other character stays.
pub open spec fn escape_char(c: char) -> Seq<char> {
    if c == '&' {
        seq!['&', 'a', 'm', 'p', ';']
    } else {
        seq![c]
    }
}

/// Feed-text escaping: each `&` replaced by `&amp;`, nothing else touched.
/// The substitution is blind, so text already holding `&amp;` becomes
/// `&amp;amp;`.
pub open spec fn escape_text(s: Seq<char>) -> Seq<char>
    decreases s.len(),
{
    if s.len() == 0 {
        Seq::empty()
    } else {
        escape_char(s.first()) + escape_text(s.drop_first())
    }
}

/// Escaping distributes over appending one character at the end.
pub proof fn lemma_escape_text_push(s: Seq<char>, c: char)
    ensures
        escape_text(s.push(c)) == escape_text(s) + escape_char(c),
    decreases s.len(),
{
    if s.len() == 0 {
        assert(s.push(c).drop_first() =~= Seq::<char>::empty());
        assert(s.push(c).first() == c);
        assert(escape_text(s.push(c)) == escape_char(c) + escape_text(Seq::<char>::empty()));
        assert(escape_text(s.push(c)) =~= escape_text(s) + escape_char(c));
    } else {
        assert(s.push(c).drop_first() =~= s.drop_first().push(c));
        lemma_escape_text_push(s.drop_first(), c);
        assert(escape_text(s.push(c)) =~= escape_text(s) + escape_char(c));
    }
}

/// Law: wherever the escaped text holds a `&`, that `&` opens an `&amp;`
/// entity — no bare ampersand survives escaping.
pub proof fn lemma_escape_no_bare_ampersand(s: Seq<char>, i: int)
    requires
        0 <= i < escape_text(s).len(),
        escape_text(s)[i] == '&',
    ensures
        i + 5 <= escape_text(s).len(),
        escape_text(s).subrange(i, i + 5) == seq!['&', 'a', 'm', 'p', ';'],
    decreases s.len(),
{
    let e = escape_text(s);
    let head = escape_char(s.first());
    let tail = escape_text(s.drop_first());
    if s.first() == '&' {
        if i < 5 {
            assert(head[i] == e[i]);
            assert(i == 0);
            assert(e.subrange(0, 5) =~= seq!['&', 'a', 'm', 'p', ';']);
        } else {
            assert(tail[i - 5] == e[i]);
            lemma_escape_no_bare_ampersand(s.drop_first(), i - 5);
            assert(e.subrange(i, i + 5) =~= tail.subrange(i - 5, i));
        }
    } else {
        if i == 0 {
            assert(head[0] == e[0]);
            assert(false);
        } else {
            assert(tail[i - 1] == e[i]);
            lemma_escape_no_bare_ampersand(s.drop_first(), i - 1);
            assert(e.subrange(i, i + 5) =~= tail.subrange(i - 1, i + 4));
        }
    }
}

/// Escaping text that holds no `&` returns it unchanged.
pub proof fn lemma_escape_without_ampersand_is_identity(s: Seq<char>)
    requires
        forall|i: int| 0 <= i < s.len() ==> s[i] != '&',
    ensures
        escape_text(s) == s,
    decreases s.len(),
{
    if s.len() > 0 {
        lemma_escape_without_ampersand_is_identity(s.drop_first());
        assert(escape_char(s.first()) + escape_text(s.drop_first()) =~= s);
    }
}

/// Rewrites every `&` of `s` to `&amp;`, leaving all other characters as
/// they stand.
pub fn escape(s: &str) -> (r: String)
    ensures
        r@ == escape_text(s@),
{
    let n = s.unicode_len();
    let mut out = String::new();
    let mut i: usize = 0;
    while i < n
        invariant
            i <= n,
            n == s@.len(),
            out@ == escape_text(s@.subrange(0, i as int)),
        decreases n - i,
    {
        let c = s.get_char(i);
        proof {
            lemma_escape_text_push(s@.subrange(0, i as int), c);
            assert(s@.subrange(0, i as int).push(c) =~= s@.subrange(0, i as int + 1));
        }
        if c == '&' {
            proof {
                reveal_strlit("&amp;");
            }
            assert("&amp;"@ =~= escape_char(c));
            out.append("&amp;");
        } else {
            let piece = s.substring_char(i, i + 1);
            assert(piece@ =~= escape_char(c));
            out.append(piece);
        }
        i = i + 1;
    }
    proof {
        assert(s@.subrange(0, n as int) =~= s@);
    }
    out
}

/// Character-for-character equality of two string slices.
pub fn str_eq(a: &str, b: &str) -> (r: bool)
    ensures
        r == (a@ == b@),
{
    let a_owned = a.to_owned();
    let b_owned = b.to_owned();
    a_owned.eq(&b_owned)
}

} // verus!
