//! Characters and words: what counts as blank, how a line splits into
//! whitespace-separated words and into `|`-separated segments.
use vstd::prelude::*;

verus! {

/// A blank character: the characters that carry the Unicode `White_Space`
/// property (the set that `char::is_whitespace` recognises).
pub open spec fn is_space(c: char) -> bool {
    let u = c as u32;
    ||| u == 0x20
    ||| 0x09 <= u <= 0x0d
    ||| u == 0x85
    ||| u == 0xa0
    ||| u == 0x1680
    ||| 0x2000 <= u <= 0x200a
    ||| u == 0x2028
    ||| u == 0x2029
    ||| u == 0x202f
    ||| u == 0x205f
    ||| u == 0x3000
}

/// Tells whether `c` is blank.
pub fn is_space_char(c: char) -> (r: bool)
    ensures
        r == is_space(c),
{
    let u = c as u32;
    u == 0x20 || (0x09 <= u && u <= 0x0d) || u == 0x85 || u == 0xa0 || u == 0x1680 || (0x2000
        <= u && u <= 0x200a) || u == 0x2028 || u == 0x2029 || u == 0x202f || u == 0x205f || u
        == 0x3000
}

/// The whitespace-separated words of `s`, left to right: its maximal runs of
/// non-blank characters.
pub open spec fn tokens(s: Seq<char>) -> Seq<Seq<char>>
    decreases s.len(),
{
    if s.len() == 0 {
        seq![]
    } else {
        let prev = tokens(s.drop_last());
        let c = s.last();
        if is_space(c) {
            prev
        } else if s.len() >= 2 && !is_space(s[s.len() - 2]) {
            prev.update(prev.len() - 1, prev.last().push(c))
        } else {
            prev.push(seq![c])
        }
    }
}

/// The pieces of `s` between `|` characters, left to right; the empty
/// string gives one empty piece.
pub open spec fn split_bars(s: Seq<char>) -> Seq<Seq<char>>
    decreases s.len(),
{
    if s.len() == 0 {
        seq![seq![]]
    } else {
        let prev = split_bars(s.drop_last());
        let c = s.last();
        if c == '|' {
            prev.push(seq![])
        } else {
            prev.update(prev.len() - 1, prev.last().push(c))
        }
    }
}

/// The character views of a sequence of strings.
pub open spec fn views(v: Seq<String>) -> Seq<Seq<char>> {
    v.map_values(|t: String| t@)
}

/// A string ending in a non-blank character has at least one word.
pub proof fn lemma_tokens_nonempty(s: Seq<char>)
    requires
        s.len() > 0,
        !is_space(s.last()),
    ensures
        tokens(s).len() > 0,
    decreases s.len(),
{
    if s.len() >= 2 && !is_space(s[s.len() - 2]) {
        let t = s.drop_last();
        assert(t.last() == s[s.len() - 2]);
        lemma_tokens_nonempty(t);
    }
}

/// Every word is non-empty.
pub proof fn lemma_tokens_words_nonempty(s: Seq<char>)
    ensures
        forall|k: int| 0 <= k < tokens(s).len() ==> #[trigger] tokens(s)[k].len() > 0,
    decreases s.len(),
{
    if s.len() > 0 {
        let t = s.drop_last();
        lemma_tokens_words_nonempty(t);
        if !is_space(s.last()) && s.len() >= 2 && !is_space(s[s.len() - 2]) {
            assert(t.last() == s[s.len() - 2]);
            lemma_tokens_nonempty(t);
        }
    }
}

/// A string with no `|` is a single piece.
pub proof fn lemma_split_bars_no_bar(s: Seq<char>)
    requires
        !s.contains('|'),
    ensures
        split_bars(s) == seq![s],
    decreases s.len(),
{
    if s.len() > 0 {
        let t = s.drop_last();
        assert forall|k: int| 0 <= k < t.len() implies t[k] != '|' by {
            assert(t[k] == s[k]);
        }
        lemma_split_bars_no_bar(t);
        assert(s.last() == s[s.len() - 1]);
        assert(t.push(s.last()) =~= s);
    } else {
        assert(s =~= seq![]);
    }
}

/// Relies on `String::push`: appends one character at the end.
#[verifier::external_body]
pub(crate) fn push_char(s: &mut String, c: char)
    ensures
        final(s)@ == old(s)@.push(c),
{
    s.push(c)
}

/// Splits `s` into its whitespace-separated words.
pub fn tokenize(s: &str) -> (r: Vec<String>)
    ensures
        views(r@) == tokens(s@),
{
    let mut out: Vec<String> = Vec::new();
    let mut cur = String::new();
    let mut in_word = false;
    let ghost mut seen: Seq<char> = seq![];
    for c in it: s.chars()
        invariant
            it.seq() == s@,
            seen == s@.take(it.index() as int),
            in_word == (cur@.len() > 0),
            !in_word <==> (seen.len() == 0 || is_space(seen.last())),
            in_word ==> views(out@).push(cur@) == tokens(seen),
            !in_word ==> views(out@) == tokens(seen),
    {
        let ghost old_seen = seen;
        let ghost old_out = views(out@);
        let ghost old_cur = cur@;
        proof {
            let idx = it.index() as int;
            assert(s@.take(idx + 1) =~= seen.push(c));
            seen = seen.push(c);
            assert(seen.drop_last() =~= old_seen);
            if old_seen.len() > 0 {
                assert(seen[seen.len() - 2] == old_seen.last());
            }
        }
        if is_space_char(c) {
            if in_word {
                out.push(cur);
                cur = String::new();
                in_word = false;
                assert(views(out@) =~= old_out.push(old_cur));
            }
        } else {
            push_char(&mut cur, c);
            if in_word {
                proof {
                    let t = old_out.push(old_cur);
                    assert(views(out@).push(cur@) =~= t.update(t.len() - 1, t.last().push(c)));
                }
            } else {
                assert(old_cur =~= seq![]);
                assert(cur@ =~= seq![c]);
                assert(views(out@).push(cur@) =~= old_out.push(seq![c]));
            }
            in_word = true;
        }
    }
    let ghost before = views(out@);
    if in_word {
        out.push(cur);
        assert(views(out@) =~= before.push(cur@));
    }
    assert(seen =~= s@);
    out
}

/// Splits `s` at every `|` into the pieces between them.
pub fn split_segments(s: &str) -> (r: Vec<String>)
    ensures
        views(r@) == split_bars(s@),
{
    let mut out: Vec<String> = Vec::new();
    let mut cur = String::new();
    let ghost mut seen: Seq<char> = seq![];
    for c in it: s.chars()
        invariant
            it.seq() == s@,
            seen == s@.take(it.index() as int),
            views(out@).push(cur@) == split_bars(seen),
    {
        let ghost old_seen = seen;
        let ghost old_out = views(out@);
        let ghost old_cur = cur@;
        proof {
            let idx = it.index() as int;
            assert(s@.take(idx + 1) =~= seen.push(c));
            seen = seen.push(c);
            assert(seen.drop_last() =~= old_seen);
        }
        if c == '|' {
            out.push(cur);
            cur = String::new();
            assert(views(out@).push(cur@) =~= old_out.push(old_cur).push(seq![]));
        } else {
            push_char(&mut cur, c);
            proof {
                let t = old_out.push(old_cur);
                assert(views(out@).push(cur@) =~= t.update(t.len() - 1, t.last().push(c)));
            }
        }
    }
    let ghost before = views(out@);
    out.push(cur);
    assert(views(out@) =~= before.push(cur@));
    assert(seen =~= s@);
    out
}

/// Tells whether the string `t` is exactly the one character `op`.
pub fn token_is(t: &str, op: char) -> (r: bool)
    ensures
        r == (t@ == seq![op]),
{
    let mut count: usize = 0;
    let mut first_ok = false;
    for c in it: t.chars()
        invariant
            it.seq() == t@,
            count == (if it.index() < 2 { it.index() as int } else { 2 }),
            it.index() > 0 ==> (first_ok == (t@[0] == op)),
    {
        if count == 0 {
            first_ok = c == op;
        }
        if count < 2 {
            count = count + 1;
        }
    }
    proof {
        if count == 1 && first_ok {
            assert(t@ =~= seq![op]);
        }
    }
    count == 1 && first_ok
}

} // verus!
