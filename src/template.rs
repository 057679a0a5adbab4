//! Ordered placeholder substitution over opaque template text.
use vstd::prelude::*;
use vstd::string::StringExecFns;
use vstd::string::StrSliceExecFns;
use vstd::std_specs::iter::IteratorSpec;

verus! {

broadcast use vstd::string::group_string_axioms;

/// `s` with the first `n` occurrences of `tok` (found left to right, without
/// overlap) replaced by `val`. An empty token matches nothing.
pub open spec fn replacen_seq(s: Seq<char>, tok: Seq<char>, val: Seq<char>, n: nat) -> Seq<char>
    decreases s.len(),
{
    if n == 0 || tok.len() == 0 || s.len() < tok.len() {
        s
    } else if s.take(tok.len() as int) == tok {
        val + replacen_seq(s.skip(tok.len() as int), tok, val, (n - 1) as nat)
    } else {
        seq![s[0]] + replacen_seq(s.skip(1), tok, val, n)
    }
}

/// `s` with every occurrence of `tok` replaced by `val`: a match uses up at
/// least one character, so `s.len()` replacements reach them all.
pub open spec fn replace_all_seq(s: Seq<char>, tok: Seq<char>, val: Seq<char>) -> Seq<char> {
    replacen_seq(s, tok, val, s.len())
}

/// `s` with the first occurrence of `tok` replaced by `val`.
pub open spec fn sub1(s: Seq<char>, tok: &str, val: Seq<char>) -> Seq<char> {
    replacen_seq(s, tok@, val, 1)
}

/// Whether `tok` occurs in `s`.
pub open spec fn occurs_in(s: Seq<char>, tok: Seq<char>) -> bool {
    exists|i: int| 0 <= i && i + tok.len() <= s.len() && #[trigger] s.subrange(i, i + tok.len()) == tok
}

/// One step of a rendering: replace the first `count` occurrences of `token`
/// by `value`.
pub struct Substitution {
    pub token: String,
    pub value: String,
    pub count: usize,
}

/// The substitutions of `subs`, applied one after the other to `t`.
pub open spec fn render_seq(t: Seq<char>, subs: Seq<Substitution>) -> Seq<char>
    decreases subs.len(),
{
    if subs.len() == 0 {
        t
    } else {
        let last = subs.last();
        replacen_seq(render_seq(t, subs.drop_last()), last.token@, last.value@, last.count as nat)
    }
}

/// A token that does not occur is left alone.
pub proof fn lemma_replacen_absent(s: Seq<char>, tok: Seq<char>, val: Seq<char>, n: nat)
    requires
        !occurs_in(s, tok),
    ensures
        replacen_seq(s, tok, val, n) == s,
    decreases s.len(),
{
    if n == 0 || tok.len() == 0 || s.len() < tok.len() {
    } else {
        assert(s.take(tok.len() as int) == s.subrange(0, 0 + tok.len() as int));
        let rest = s.skip(1);
        assert forall|i: int| 0 <= i && i + tok.len() <= rest.len() implies #[trigger] rest.subrange(
            i,
            i + tok.len(),
        ) != tok by {
            assert(rest.subrange(i, i + tok.len()) =~= s.subrange(i + 1, i + 1 + tok.len()));
        }
        lemma_replacen_absent(rest, tok, val, n);
        assert(seq![s[0]] + rest =~= s);
    }
}

/// Rendering with no substitutions hands the template back unchanged, and so
/// does rendering it again with none once every token has been substituted.
pub proof fn lemma_render_nothing_is_identity(t: Seq<char>)
    ensures
        render_seq(t, Seq::<Substitution>::empty()) == t,
{
}

/// Rendering again with substitutions whose tokens no longer occur (they
/// were all substituted already) hands the text back unchanged.
pub proof fn lemma_render_absent_tokens(t: Seq<char>, subs: Seq<Substitution>)
    requires
        forall|i: int| 0 <= i < subs.len() ==> !occurs_in(t, #[trigger] subs[i].token@),
    ensures
        render_seq(t, subs) == t,
    decreases subs.len(),
{
    if subs.len() > 0 {
        let before = subs.drop_last();
        assert forall|i: int| 0 <= i < before.len() implies !occurs_in(t, #[trigger] before[i].token@) by {
            assert(before[i] == subs[i]);
        }
        lemma_render_absent_tokens(t, before);
        assert(!occurs_in(t, subs[subs.len() - 1].token@));
        lemma_replacen_absent(t, subs.last().token@, subs.last().value@, subs.last().count as nat);
    }
}

/// Whether the character `c` is absent from `s`.
pub open spec fn lacks(s: Seq<char>, c: char) -> bool {
    forall|i: int| 0 <= i < s.len() ==> s[i] != c
}

/// Two texts that lack `c` make one that lacks it.
pub proof fn lemma_concat_lacks(a: Seq<char>, b: Seq<char>, c: char)
    requires
        lacks(a, c),
        lacks(b, c),
    ensures
        lacks(a + b, c),
{
    assert forall|i: int| 0 <= i < (a + b).len() implies (a + b)[i] != c by {
        if i >= a.len() {
            assert((a + b)[i] == b[i - a.len()]);
        }
    }
}

/// Substituting a value that lacks `c` into a text that lacks it gives a text
/// that lacks it.
pub proof fn lemma_replacen_lacks(s: Seq<char>, tok: Seq<char>, val: Seq<char>, n: nat, c: char)
    requires
        lacks(s, c),
        lacks(val, c),
    ensures
        lacks(replacen_seq(s, tok, val, n), c),
    decreases s.len(),
{
    if n == 0 || tok.len() == 0 || s.len() < tok.len() {
    } else if s.take(tok.len() as int) == tok {
        let rest = s.skip(tok.len() as int);
        assert(lacks(rest, c)) by {
            assert forall|i: int| 0 <= i < rest.len() implies rest[i] != c by {
                assert(rest[i] == s[i + tok.len()]);
            }
        }
        lemma_replacen_lacks(rest, tok, val, (n - 1) as nat, c);
        lemma_concat_lacks(val, replacen_seq(rest, tok, val, (n - 1) as nat), c);
    } else {
        let rest = s.skip(1);
        assert(lacks(rest, c)) by {
            assert forall|i: int| 0 <= i < rest.len() implies rest[i] != c by {
                assert(rest[i] == s[i + 1]);
            }
        }
        lemma_replacen_lacks(rest, tok, val, n, c);
        lemma_concat_lacks(seq![s[0]], replacen_seq(rest, tok, val, n), c);
    }
}

/// A token whose first character a text lacks does not occur in it.
pub proof fn lemma_lacks_not_occurs(s: Seq<char>, tok: Seq<char>)
    requires
        tok.len() > 0,
        lacks(s, tok[0]),
    ensures
        !occurs_in(s, tok),
{
    if occurs_in(s, tok) {
        let i = choose|i: int| 0 <= i && i + tok.len() <= s.len() && #[trigger] s.subrange(i, i + tok.len()) == tok;
        assert(s.subrange(i, i + tok.len())[0] == s[i]);
    }
}

/// Where the first occurrence of `tok` follows a prefix that lacks its first
/// character, substituting it once replaces exactly that occurrence.
pub proof fn lemma_replace_first_after(p: Seq<char>, tok: Seq<char>, val: Seq<char>, rest: Seq<char>)
    requires
        tok.len() > 0,
        lacks(p, tok[0]),
    ensures
        replacen_seq(p + tok + rest, tok, val, 1) == p + val + rest,
    decreases p.len(),
{
    let s = p + tok + rest;
    if p.len() == 0 {
        assert(s =~= tok + rest);
        assert(s.take(tok.len() as int) =~= tok);
        assert(s.skip(tok.len() as int) =~= rest);
        assert(replacen_seq(rest, tok, val, 0) == rest);
        assert(p + val + rest =~= val + rest);
    } else {
        assert(s[0] == p[0]);
        assert(s.take(tok.len() as int)[0] == p[0]);
        assert(s.take(tok.len() as int) != tok);
        let q = p.skip(1);
        assert(lacks(q, tok[0])) by {
            assert forall|i: int| 0 <= i < q.len() implies q[i] != tok[0] by {
                assert(q[i] == p[i + 1]);
            }
        }
        lemma_replace_first_after(q, tok, val, rest);
        assert(s.skip(1) =~= q + tok + rest);
        assert(seq![p[0]] + (q + val + rest) =~= p + val + rest);
        assert(replacen_seq(s, tok, val, 1) == seq![s[0]] + replacen_seq(s.skip(1), tok, val, 1));
    }
}

/// Rendering with substitutions whose tokens each begin with `c` leaves a
/// text that lacks `c` unchanged.
pub proof fn lemma_render_lacking_is_identity(t: Seq<char>, subs: Seq<Substitution>, c: char)
    requires
        lacks(t, c),
        forall|i: int| 0 <= i < subs.len() ==> (#[trigger] subs[i].token@).len() > 0 && subs[i].token@[0] == c,
    ensures
        render_seq(t, subs) == t,
{
    assert forall|i: int| 0 <= i < subs.len() implies !occurs_in(t, #[trigger] subs[i].token@) by {
        lemma_lacks_not_occurs(t, subs[i].token@);
    }
    lemma_render_absent_tokens(t, subs);
}

/// The characters of `s`, in order.
pub fn chars_of(s: &str) -> (r: Vec<char>)
    ensures
        r@ == s@,
{
    let mut r: Vec<char> = Vec::new();
    let mut it = s.chars();
    loop
        invariant
            it.obeys_prophetic_iter_laws(),
            r@ + it.remaining() == s@,
            it.decrease() is Some,
        ensures
            r@ == s@,
        decreases it.decrease()->0,
    {
        match it.next() {
            Some(c) => {
                r.push(c);
            },
            None => {
                assert(r@ + it.remaining() =~= r@);
                break;
            },
        }
    }
    r
}

/// Whether `t` stands in `s` at position `i`.
fn matches_at(s: &Vec<char>, t: &Vec<char>, i: usize) -> (r: bool)
    requires
        i + t@.len() <= s@.len(),
    ensures
        r == (s@.subrange(i as int, i + t@.len()) == t@),
{
    let mut j: usize = 0;
    while j < t.len()
        invariant
            j <= t@.len(),
            i + t@.len() <= s@.len(),
            forall|k: int| 0 <= k < j ==> s@[i + k] == t@[k],
        decreases t@.len() - j,
    {
        assert(i + j < s.len());
        if s[i + j] != t[j] {
            assert(s@.subrange(i as int, i + t@.len())[j as int] != t@[j as int]);
            return false;
        }
        j = j + 1;
    }
    assert(s@.subrange(i as int, i + t@.len()) =~= t@);
    true
}

proof fn lemma_replacen_step_match(s: Seq<char>, tok: Seq<char>, val: Seq<char>, n: nat, i: int)
    requires
        n > 0,
        tok.len() > 0,
        0 <= i,
        i + tok.len() <= s.len(),
        s.subrange(i, i + tok.len()) == tok,
    ensures
        replacen_seq(s.skip(i), tok, val, n) == val + replacen_seq(
            s.skip(i + tok.len()),
            tok,
            val,
            (n - 1) as nat,
        ),
{
    assert(s.skip(i).take(tok.len() as int) =~= s.subrange(i, i + tok.len()));
    assert(s.skip(i).skip(tok.len() as int) =~= s.skip(i + tok.len()));
}

proof fn lemma_replacen_step_miss(s: Seq<char>, tok: Seq<char>, val: Seq<char>, n: nat, i: int)
    requires
        n > 0,
        tok.len() > 0,
        0 <= i,
        i + tok.len() <= s.len(),
        s.subrange(i, i + tok.len()) != tok,
    ensures
        replacen_seq(s.skip(i), tok, val, n) == seq![s[i]] + replacen_seq(s.skip(i + 1), tok, val, n),
{
    assert(s.skip(i).take(tok.len() as int) =~= s.subrange(i, i + tok.len()));
    assert(s.skip(i).skip(1) =~= s.skip(i + 1));
}

/// `s` with its first `n` occurrences of `tok` replaced by `val`.
fn replacen_chars(s: &str, sc: &Vec<char>, tc: &Vec<char>, val: &str, n: usize) -> (r: String)
    requires
        sc@ == s@,
        tc@.len() > 0,
    ensures
        r@ == replacen_seq(s@, tc@, val@, n as nat),
{
    let ghost ss = s@;
    let ghost ts = tc@;
    let mut out = String::new();
    let mut i: usize = 0;
    let mut last: usize = 0;
    let mut k: usize = n;
    let slen = sc.len();
    let tlen = tc.len();
    assert(ss.skip(0) =~= ss);
    assert(ss.subrange(0, 0) =~= Seq::<char>::empty());
    while k > 0 && tlen <= slen - i
        invariant
            slen == ss.len(),
            tlen == ts.len(),
            tlen > 0,
            sc@ == ss,
            tc@ == ts,
            s@ == ss,
            last <= i <= slen,
            k <= n,
            replacen_seq(ss, ts, val@, n as nat) == out@ + ss.subrange(last as int, i as int)
                + replacen_seq(ss.skip(i as int), ts, val@, k as nat),
        decreases slen - i,
    {
        if matches_at(sc, tc, i) {
            proof {
                lemma_replacen_step_match(ss, ts, val@, k as nat, i as int);
            }
            let piece = s.substring_char(last, i);
            let ghost before = out@;
            out.append(piece);
            out.append(val);
            assert(out@ == before + ss.subrange(last as int, i as int) + val@);
            i = i + tlen;
            last = i;
            k = k - 1;
            assert(ss.subrange(last as int, i as int) =~= Seq::<char>::empty());
            assert(out@ + ss.subrange(last as int, i as int) =~= out@);
        } else {
            proof {
                lemma_replacen_step_miss(ss, ts, val@, k as nat, i as int);
                assert(ss.subrange(last as int, i as int) + seq![ss[i as int]] =~= ss.subrange(
                    last as int,
                    i + 1,
                ));
            }
            i = i + 1;
        }
    }
    assert(replacen_seq(ss.skip(i as int), ts, val@, k as nat) == ss.skip(i as int));
    assert(ss.subrange(last as int, i as int) + ss.skip(i as int) =~= ss.subrange(
        last as int,
        slen as int,
    ));
    let tail = s.substring_char(last, slen);
    out.append(tail);
    out
}

/// `s` with the first `n` occurrences of `tok` replaced by `val`; the rest of
/// `s` is kept as it is.
pub fn replacen(s: &str, tok: &str, val: &str, n: usize) -> (r: String)
    ensures
        r@ == replacen_seq(s@, tok@, val@, n as nat),
{
    let tc = chars_of(tok);
    if tc.len() == 0 {
        return String::from_str(s);
    }
    let sc = chars_of(s);
    replacen_chars(s, &sc, &tc, val, n)
}

/// `s` with every occurrence of `tok` replaced by `val`.
pub fn replace_all(s: &str, tok: &str, val: &str) -> (r: String)
    ensures
        r@ == replace_all_seq(s@, tok@, val@),
{
    let tc = chars_of(tok);
    if tc.len() == 0 {
        return String::from_str(s);
    }
    let sc = chars_of(s);
    replacen_chars(s, &sc, &tc, val, sc.len())
}

/// Applies `subs` in order, each to the text as the ones before it left it.
pub fn render(template: &str, subs: &Vec<Substitution>) -> (r: String)
    ensures
        r@ == render_seq(template@, subs@),
        subs@.len() == 0 ==> r@ == template@,
{
    let mut out = String::from_str(template);
    let mut i: usize = 0;
    assert(subs@.take(0) =~= Seq::<Substitution>::empty());
    while i < subs.len()
        invariant
            i <= subs@.len(),
            out@ == render_seq(template@, subs@.take(i as int)),
        decreases subs@.len() - i,
    {
        let sub = &subs[i];
        out = replacen(out.as_str(), sub.token.as_str(), sub.value.as_str(), sub.count);
        assert(subs@.take(i + 1).drop_last() =~= subs@.take(i as int));
        i = i + 1;
    }
    assert(subs@.take(i as int) =~= subs@);
    out
}

} // verus!
