//! Splitting an input line into whitespace-delimited tokens.
use vstd::prelude::*;

verus! {

/// The characters with the Unicode `White_Space` property.
pub open spec fn is_space(c: char) -> bool {
    let n = c as u32;
    ||| 0x9 <= n <= 0xd
    ||| n == 0x20
    ||| n == 0x85
    ||| n == 0xa0
    ||| n == 0x1680
    ||| 0x2000 <= n <= 0x200a
    ||| n == 0x2028
    ||| n == 0x2029
    ||| n == 0x202f
    ||| n == 0x205f
    ||| n == 0x3000
}

/// The tokens of `s`: its maximal runs of non-whitespace characters, in order.
/// Read from the end: a whitespace character adds nothing, and any other
/// character either extends the token it directly follows or starts a new one.
pub open spec fn tokens(s: Seq<char>) -> Seq<Seq<char>>
    decreases s.len(),
{
    if s.len() == 0 {
        seq![]
    } else {
        let init = s.drop_last();
        let c = s.last();
        let t = tokens(init);
        if is_space(c) {
            t
        } else if init.len() > 0 && !is_space(init.last()) {
            t.update(t.len() - 1, t.last().push(c))
        } else {
            t.push(seq![c])
        }
    }
}

/// The views of a sequence of strings.
pub open spec fn views(v: Seq<String>) -> Seq<Seq<char>> {
    v.map_values(|s: String| s@)
}

/// Whether `c` is whitespace, as `char::is_whitespace` decides it.
pub fn is_whitespace_char(c: char) -> (r: bool)
    ensures
        r == is_space(c),
{
    let n = c as u32;
    (0x9 <= n && n <= 0xd) || n == 0x20 || n == 0x85 || n == 0xa0 || n == 0x1680 || (0x2000 <= n
        && n <= 0x200a) || n == 0x2028 || n == 0x2029 || n == 0x202f || n == 0x205f || n == 0x3000
}

/// A line that ends in a non-whitespace character has at least one token.
proof fn lemma_tokens_nonempty(s: Seq<char>)
    requires
        s.len() > 0,
        !is_space(s.last()),
    ensures
        tokens(s).len() > 0,
    decreases s.len(),
{
    let init = s.drop_last();
    if init.len() > 0 && !is_space(init.last()) {
        lemma_tokens_nonempty(init);
    }
}

/// A line made of whitespace only, the empty line included, has no tokens.
pub proof fn law_blank_line_has_no_tokens(s: Seq<char>)
    requires
        forall|i: int| 0 <= i < s.len() ==> is_space(#[trigger] s[i]),
    ensures
        tokens(s) == Seq::<Seq<char>>::empty(),
    decreases s.len(),
{
    if s.len() > 0 {
        let init = s.drop_last();
        assert forall|i: int| 0 <= i < init.len() implies is_space(#[trigger] init[i]) by {
            assert(init[i] == s[i]);
        }
        law_blank_line_has_no_tokens(init);
        assert(is_space(s[s.len() - 1]));
    }
}

/// Every token is non-empty and holds no whitespace.
pub proof fn law_tokens_are_words(s: Seq<char>)
    ensures
        forall|i: int|
            0 <= i < tokens(s).len() ==> #[trigger] tokens(s)[i].len() > 0 && forall|j: int|
                0 <= j < tokens(s)[i].len() ==> !is_space(#[trigger] tokens(s)[i][j]),
    decreases s.len(),
{
    if s.len() > 0 {
        let init = s.drop_last();
        law_tokens_are_words(init);
        if !is_space(s.last()) && init.len() > 0 && !is_space(init.last()) {
            lemma_tokens_nonempty(init);
        }
    }
}

/// Relies on `String::push`: the string afterwards is the old one followed by `c`.
#[verifier::external_body]
fn push_char(s: &mut String, c: char)
    ensures
        final(s)@ == old(s)@.push(c),
{
    s.push(c)
}

/// Appends the tokens of `line` to `token_vec`.
pub fn tokenise_line(line: String, token_vec: &mut Vec<String>)
    ensures
        views(final(token_vec)@) == views(old(token_vec)@) + tokens(line@),
{
    let ghost start = views(token_vec@);
    let mut current = String::new();
    let mut in_token = false;
    for c in it: line.chars()
        invariant
            it.seq() == line@,
            in_token == (it.index() > 0 && !is_space(line@[it.index() - 1])),
            in_token == (current@.len() > 0),
            ({
                let t = tokens(line@.take(it.index() as int));
                if in_token {
                    t.len() > 0 && views(token_vec@) == start + t.drop_last() && t.last()
                        == current@
                } else {
                    views(token_vec@) == start + t
                }
            }),
    {
        let ghost k = it.index();
        let ghost t = tokens(line@.take(k as int));
        assert(line@.take(k + 1).drop_last() == line@.take(k as int));
        assert(line@.take(k + 1).last() == c);
        if is_whitespace_char(c) {
            if in_token {
                let ghost before = token_vec@;
                let finished = current;
                token_vec.push(finished);
                current = String::new();
                in_token = false;
                assert(views(token_vec@) == views(before).push(finished@));
                assert(t.drop_last().push(t.last()) == t);
            }
        } else {
            push_char(&mut current, c);
            if !in_token {
                in_token = true;
            }
            proof {
                lemma_tokens_nonempty(line@.take(k + 1));
            }
        }
    }
    if in_token {
        let ghost before = token_vec@;
        token_vec.push(current);
        assert(views(token_vec@) == views(before).push(current@));
        let ghost t = tokens(line@);
        assert(line@.take(line@.len() as int) == line@);
        assert(t.drop_last().push(t.last()) == t);
    } else {
        assert(line@.take(line@.len() as int) == line@);
    }
}

} // verus!
