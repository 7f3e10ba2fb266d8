//! Parsing a raw comma-separated blocklist into the ordered list of IP
//! strings an import job submits.
//!
//! The raw string is split on `,`; each piece is trimmed of surrounding
//! whitespace; empty pieces are discarded. Order is preserved and duplicates
//! are kept: the result is the exact submission order of the import.

use vstd::prelude::*;

verus! {

/// The whitespace characters that trimming removes.
pub open spec fn is_space(c: char) -> bool {
    c == ' ' || c == '\t' || c == '\n' || c == '\r'
}

/// `s` without its leading whitespace.
pub open spec fn trim_front(s: Seq<char>) -> Seq<char>
    decreases s.len(),
{
    if s.len() > 0 && is_space(s[0]) {
        trim_front(s.drop_first())
    } else {
        s
    }
}

/// `s` without its trailing whitespace.
pub open spec fn trim_back(s: Seq<char>) -> Seq<char>
    decreases s.len(),
{
    if s.len() > 0 && is_space(s.last()) {
        trim_back(s.drop_last())
    } else {
        s
    }
}

/// `s` without its leading and trailing whitespace.
pub open spec fn trimmed(s: Seq<char>) -> Seq<char> {
    trim_back(trim_front(s))
}

/// No leading or trailing whitespace remains.
pub open spec fn is_trimmed(s: Seq<char>) -> bool {
    s.len() > 0 ==> !is_space(s[0]) && !is_space(s.last())
}

/// The pieces of `s` between commas, in order. A string with no comma is one
/// piece (possibly empty), so the result always has at least one element and
/// exactly one more element than `s` has commas.
pub open spec fn split_commas(s: Seq<char>) -> Seq<Seq<char>>
    decreases s.len(),
{
    if s.len() == 0 {
        seq![Seq::<char>::empty()]
    } else if s[0] == ',' {
        seq![Seq::<char>::empty()] + split_commas(s.drop_first())
    } else {
        let rest = split_commas(s.drop_first());
        seq![seq![s[0]] + rest[0]] + rest.drop_first()
    }
}

/// Trim every piece and discard the pieces that are empty afterwards,
/// keeping order and duplicates.
pub open spec fn clean_tokens(toks: Seq<Seq<char>>) -> Seq<Seq<char>>
    decreases toks.len(),
{
    if toks.len() == 0 {
        Seq::empty()
    } else {
        let rest = clean_tokens(toks.drop_last());
        let t = trimmed(toks.last());
        if t.len() > 0 {
            rest.push(t)
        } else {
            rest
        }
    }
}

/// What parsing a raw blocklist yields: split on `,`, trim each piece,
/// discard the empty ones.
pub open spec fn parse_blocklist_spec(raw: Seq<char>) -> Seq<Seq<char>> {
    clean_tokens(split_commas(raw))
}

/// Splitting always yields at least one piece.
pub proof fn lemma_split_commas_len(s: Seq<char>)
    ensures
        split_commas(s).len() >= 1,
    decreases s.len(),
{
    if s.len() > 0 {
        lemma_split_commas_len(s.drop_first());
    }
}

/// How splitting grows when one character is appended: a comma opens a new
/// empty piece, any other character extends the last piece.
pub proof fn lemma_split_commas_push(s: Seq<char>, c: char)
    ensures
        c == ',' ==> split_commas(s.push(c)) == split_commas(s).push(Seq::<char>::empty()),
        c != ',' ==> split_commas(s.push(c)) == split_commas(s).update(
            split_commas(s).len() - 1,
            split_commas(s).last().push(c),
        ),
    decreases s.len(),
{
    lemma_split_commas_len(s);
    let t = s.push(c);
    assert(t.len() == s.len() + 1);
    if s.len() == 0 {
        assert(t[0] == c);
        assert(t.drop_first() =~= s);
        if c == ',' {
            assert(split_commas(t) =~~= split_commas(s).push(Seq::<char>::empty()));
        } else {
            assert(seq![c] + split_commas(s)[0] =~= seq![c]);
            assert(split_commas(t) =~~= split_commas(s).update(
                split_commas(s).len() - 1,
                split_commas(s).last().push(c),
            ));
        }
    } else {
        assert(t[0] == s[0]);
        assert(t.drop_first() =~= s.drop_first().push(c));
        lemma_split_commas_push(s.drop_first(), c);
        lemma_split_commas_len(s.drop_first());
        let rest = split_commas(s.drop_first());
        let rest_t = split_commas(s.drop_first().push(c));
        if c == ',' {
            assert(rest_t == rest.push(Seq::<char>::empty()));
            if s[0] == ',' {
                assert(split_commas(t) =~~= split_commas(s).push(Seq::<char>::empty()));
            } else {
                assert(rest_t[0] == rest[0]);
                assert(rest_t.drop_first() =~~= rest.drop_first().push(Seq::<char>::empty()));
                assert(split_commas(t) =~~= split_commas(s).push(Seq::<char>::empty()));
            }
        } else {
            assert(rest_t == rest.update(rest.len() - 1, rest.last().push(c)));
            if s[0] == ',' {
                assert(split_commas(t) =~~= split_commas(s).update(
                    split_commas(s).len() - 1,
                    split_commas(s).last().push(c),
                ));
            } else {
                if rest.len() == 1 {
                    assert(rest_t[0] == rest[0].push(c));
                    assert(rest_t.drop_first() =~~= rest.drop_first());
                    assert(seq![s[0]] + rest[0].push(c) =~= (seq![s[0]] + rest[0]).push(c));
                    assert(split_commas(t) =~~= split_commas(s).update(
                        split_commas(s).len() - 1,
                        split_commas(s).last().push(c),
                    ));
                } else {
                    assert(rest_t[0] == rest[0]);
                    assert(rest_t.drop_first() =~~= rest.drop_first().update(
                        rest.len() - 2,
                        rest.last().push(c),
                    ));
                    assert(split_commas(t) =~~= split_commas(s).update(
                        split_commas(s).len() - 1,
                        split_commas(s).last().push(c),
                    ));
                }
            }
        }
    }
}

/// Cleaning one more piece appends its trimmed form if anything remains of
/// it, and otherwise changes nothing.
pub proof fn lemma_clean_tokens_push(toks: Seq<Seq<char>>, t: Seq<char>)
    ensures
        trimmed(t).len() > 0 ==> clean_tokens(toks.push(t)) == clean_tokens(toks).push(trimmed(t)),
        trimmed(t).len() == 0 ==> clean_tokens(toks.push(t)) == clean_tokens(toks),
{
    assert(toks.push(t).drop_last() =~~= toks);
    assert(toks.push(t).last() == t);
}

/// What trim_front leaves never starts with whitespace.
proof fn lemma_trim_front_no_leading(s: Seq<char>)
    ensures
        trim_front(s).len() > 0 ==> !is_space(trim_front(s)[0]),
    decreases s.len(),
{
    if s.len() > 0 && is_space(s[0]) {
        lemma_trim_front_no_leading(s.drop_first());
    }
}

/// What trim_back leaves is a prefix of its input and never ends with
/// whitespace.
proof fn lemma_trim_back_prefix(s: Seq<char>)
    ensures
        trim_back(s).len() <= s.len(),
        trim_back(s) == s.take(trim_back(s).len() as int),
        trim_back(s).len() > 0 ==> !is_space(trim_back(s).last()),
    decreases s.len(),
{
    if s.len() > 0 && is_space(s.last()) {
        lemma_trim_back_prefix(s.drop_last());
        assert(s.drop_last() =~= s.take(s.len() - 1));
        assert(s.drop_last().take(trim_back(s).len() as int) =~= s.take(
            trim_back(s).len() as int,
        ));
    } else {
        assert(s.take(s.len() as int) =~= s);
    }
}

/// Trimming leaves no whitespace at either end.
pub proof fn lemma_trimmed_is_trimmed(s: Seq<char>)
    ensures
        is_trimmed(trimmed(s)),
{
    lemma_trim_front_no_leading(s);
    lemma_trim_back_prefix(trim_front(s));
    let t = trimmed(s);
    if t.len() > 0 {
        assert(t[0] == trim_front(s)[0]);
    }
}

proof fn lemma_clean_tokens_elements(toks: Seq<Seq<char>>, i: int)
    requires
        0 <= i < clean_tokens(toks).len(),
    ensures
        clean_tokens(toks)[i].len() > 0,
        is_trimmed(clean_tokens(toks)[i]),
    decreases toks.len(),
{
    if toks.len() > 0 {
        let rest = clean_tokens(toks.drop_last());
        if i < rest.len() {
            lemma_clean_tokens_elements(toks.drop_last(), i);
        } else {
            lemma_trimmed_is_trimmed(toks.last());
        }
    }
}

/// Law: every element that parsing a raw blocklist yields is non-empty and
/// carries no leading or trailing whitespace.
pub proof fn lemma_parse_blocklist_tokens(raw: Seq<char>, i: int)
    requires
        0 <= i < parse_blocklist_spec(raw).len(),
    ensures
        parse_blocklist_spec(raw)[i].len() > 0,
        is_trimmed(parse_blocklist_spec(raw)[i]),
{
    lemma_clean_tokens_elements(split_commas(raw), i);
}

/// Whether `c` is one of the whitespace characters trimming removes.
fn is_space_char(c: char) -> (r: bool)
    ensures
        r == is_space(c),
{
    c == ' ' || c == '\t' || c == '\n' || c == '\r'
}

/// Trim the piece `raw[start..end]` and, if anything remains of it, append
/// it to `ips`.
fn push_trimmed(ips: &mut Vec<String>, raw: &str, start: usize, end: usize)
    requires
        start <= end <= raw@.len(),
    ensures
        ({
            let t = trimmed(raw@.subrange(start as int, end as int));
            final(ips).deep_view() == if t.len() > 0 {
                old(ips).deep_view().push(t)
            } else {
                old(ips).deep_view()
            }
        }),
{
    let ghost piece = raw@.subrange(start as int, end as int);
    let mut a: usize = start;
    let mut b: usize = end;
    while a < b && is_space_char(raw.get_char(a))
        invariant
            start <= a <= b == end <= raw@.len(),
            trim_front(piece) == trim_front(raw@.subrange(a as int, end as int)),
        decreases b - a,
    {
        proof {
            let cur = raw@.subrange(a as int, end as int);
            assert(cur[0] == raw@[a as int]);
            assert(cur.drop_first() =~= raw@.subrange(a + 1, end as int));
        }
        a = a + 1;
    }
    proof {
        let cur = raw@.subrange(a as int, end as int);
        if cur.len() > 0 {
            assert(cur[0] == raw@[a as int]);
        }
        assert(trim_front(piece) == cur);
    }
    while b > a && is_space_char(raw.get_char(b - 1))
        invariant
            start <= a <= b <= end <= raw@.len(),
            trim_front(piece) == raw@.subrange(a as int, end as int),
            trim_back(raw@.subrange(a as int, end as int)) == trim_back(
                raw@.subrange(a as int, b as int),
            ),
        decreases b,
    {
        proof {
            let cur = raw@.subrange(a as int, b as int);
            assert(cur.last() == raw@[b - 1]);
            assert(cur.drop_last() =~= raw@.subrange(a as int, b - 1));
        }
        b = b - 1;
    }
    proof {
        let cur = raw@.subrange(a as int, b as int);
        if cur.len() > 0 {
            assert(cur.last() == raw@[b - 1]);
        }
        assert(trimmed(piece) == cur);
    }
    if a < b {
        let token = raw.substring_char(a, b);
        let owned = token.to_owned();
        let ghost before = ips.deep_view();
        ips.push(owned);
        proof {
            assert(ips.deep_view() =~~= before.push(trimmed(piece)));
        }
    }
}

/// Parse a raw comma-separated blocklist into the ordered list of IP strings
/// to import: split on `,`, trim each piece, discard the empty ones. Order
/// and duplicates are preserved.
pub fn parse_blocklist(raw: &str) -> (ips: Vec<String>)
    ensures
        ips.deep_view() == parse_blocklist_spec(raw@),
{
    let n = raw.unicode_len();
    let mut ips: Vec<String> = Vec::new();
    let mut start: usize = 0;
    let mut i: usize = 0;
    let ghost mut done: Seq<Seq<char>> = Seq::empty();
    proof {
        assert(raw@.take(0) =~= Seq::<char>::empty());
        assert(split_commas(raw@.take(0)) =~~= done.push(raw@.subrange(0, 0)));
        assert(ips.deep_view() =~~= clean_tokens(done));
    }
    while i < n
        invariant
            start <= i <= n == raw@.len(),
            split_commas(raw@.take(i as int)) == done.push(
                raw@.subrange(start as int, i as int),
            ),
            ips.deep_view() == clean_tokens(done),
        decreases n - i,
    {
        let c = raw.get_char(i);
        proof {
            assert(raw@.take(i + 1) =~= raw@.take(i as int).push(raw@[i as int]));
            lemma_split_commas_push(raw@.take(i as int), raw@[i as int]);
            lemma_split_commas_len(raw@.take(i as int));
        }
        if c == ',' {
            push_trimmed(&mut ips, raw, start, i);
            proof {
                lemma_clean_tokens_push(done, raw@.subrange(start as int, i as int));
                done = done.push(raw@.subrange(start as int, i as int));
                assert(split_commas(raw@.take(i + 1)) =~~= done.push(
                    raw@.subrange(i + 1, i + 1),
                ));
            }
            start = i + 1;
        } else {
            proof {
                let sp = split_commas(raw@.take(i as int));
                assert(sp.last() == raw@.subrange(start as int, i as int));
                assert(raw@.subrange(start as int, i as int).push(raw@[i as int]) =~= raw@.subrange(
                    start as int,
                    i + 1,
                ));
                assert(split_commas(raw@.take(i + 1)) =~~= done.push(
                    raw@.subrange(start as int, i + 1),
                ));
            }
        }
        i = i + 1;
    }
    push_trimmed(&mut ips, raw, start, n);
    proof {
        assert(raw@.take(n as int) =~= raw@);
        lemma_clean_tokens_push(done, raw@.subrange(start as int, n as int));
        assert(parse_blocklist_spec(raw@) == clean_tokens(
            done.push(raw@.subrange(start as int, n as int)),
        ));
    }
    ips
}

} // verus!
