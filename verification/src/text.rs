//! Character-level helpers used by the parser and the controller: trimming,
//! splitting, decimal rendering and string assembly.
use vstd::prelude::*;

verus! {

/// Whether `c` is white space in the sense of `char::is_whitespace`: the Unicode
/// `White_Space` property, whose code points are U+0009 to U+000D, U+0020, U+0085,
/// U+00A0, U+1680, U+2000 to U+200A, U+2028, U+2029, U+202F, U+205F and U+3000.
pub open spec fn is_white_space(c: char) -> bool {
    let n = c as u32;
    ||| 0x09 <= n <= 0x0D
    ||| n == 0x20
    ||| n == 0x85
    ||| n == 0xA0
    ||| n == 0x1680
    ||| 0x2000 <= n <= 0x200A
    ||| n == 0x2028
    ||| n == 0x2029
    ||| n == 0x202F
    ||| n == 0x205F
    ||| n == 0x3000
}

/// Whether `c` is white space, as `char::is_whitespace` decides it: the Unicode
/// `White_Space` property, tested against its list of code points.
pub(crate) fn char_is_whitespace(c: char) -> (r: bool)
    ensures
        r == is_white_space(c),
{
    let n = c as u32;
    (0x09 <= n && n <= 0x0D) || n == 0x20 || n == 0x85 || n == 0xA0 || n == 0x1680 || (0x2000
        <= n && n <= 0x200A) || n == 0x2028 || n == 0x2029 || n == 0x202F || n == 0x205F || n
        == 0x3000
}

/// Calls `String::push`, which appends one character to the string.
#[verifier::external_body]
pub(crate) fn push_char(s: &mut String, c: char)
    ensures
        final(s)@ == old(s)@.push(c),
{
    s.push(c)
}

/// The characters of `s`, in order.
pub fn chars_of(s: &str) -> (r: Vec<char>)
    ensures
        r@ == s@,
{
    let mut r: Vec<char> = Vec::new();
    for c in it: s.chars()
        invariant
            r@ == it.seq().take(it.index()),
            it.seq() == s@,
    {
        r.push(c);
    }
    r
}

} // verus!

verus! {

/// `s` without its leading white space.
pub open spec fn trim_start(s: Seq<char>) -> Seq<char>
    decreases s.len(),
{
    if s.len() > 0 && is_white_space(s[0]) {
        trim_start(s.drop_first())
    } else {
        s
    }
}

/// `s` without its trailing white space.
pub open spec fn trim_end(s: Seq<char>) -> Seq<char>
    decreases s.len(),
{
    if s.len() > 0 && is_white_space(s.last()) {
        trim_end(s.drop_last())
    } else {
        s
    }
}

/// `s` without leading and trailing white space, as `str::trim` gives it.
pub open spec fn trim(s: Seq<char>) -> Seq<char> {
    trim_end(trim_start(s))
}

proof fn lemma_trim_start_at(s: Seq<char>, k: int)
    requires
        0 <= k <= s.len(),
        forall|i: int| 0 <= i < k ==> is_white_space(#[trigger] s[i]),
        k == s.len() || !is_white_space(s[k]),
    ensures
        trim_start(s) == s.subrange(k, s.len() as int),
    decreases k,
{
    if k == 0 {
        assert(s.subrange(0, s.len() as int) =~= s);
    } else {
        let t = s.drop_first();
        assert forall|i: int| 0 <= i < k - 1 implies is_white_space(#[trigger] t[i]) by {
            assert(t[i] == s[i + 1]);
        }
        if k < s.len() {
            assert(t[k - 1] == s[k]);
        }
        lemma_trim_start_at(t, k - 1);
        assert(t.subrange(k - 1, t.len() as int) =~= s.subrange(k, s.len() as int));
    }
}

proof fn lemma_trim_end_at(s: Seq<char>, k: int)
    requires
        0 <= k <= s.len(),
        forall|i: int| k <= i < s.len() ==> is_white_space(#[trigger] s[i]),
        k == 0 || !is_white_space(s[k - 1]),
    ensures
        trim_end(s) == s.subrange(0, k),
    decreases s.len() - k,
{
    if k == s.len() {
        assert(s.subrange(0, k) =~= s);
    } else {
        let t = s.drop_last();
        assert(is_white_space(s.last()));
        assert forall|i: int| k <= i < t.len() implies is_white_space(#[trigger] t[i]) by {
            assert(t[i] == s[i]);
        }
        if k > 0 {
            assert(t[k - 1] == s[k - 1]);
        }
        lemma_trim_end_at(t, k);
        assert(t.subrange(0, k) =~= s.subrange(0, k));
    }
}

/// The bounds of the trimmed part of `cs[lo..hi]`.
pub fn trim_range(cs: &Vec<char>, lo: usize, hi: usize) -> (r: (usize, usize))
    requires
        lo <= hi <= cs.len(),
    ensures
        lo <= r.0 <= r.1 <= hi,
        cs@.subrange(r.0 as int, r.1 as int) == trim(cs@.subrange(lo as int, hi as int)),
{
    let mut a = lo;
    while a < hi && char_is_whitespace(cs[a])
        invariant
            lo <= a <= hi <= cs.len(),
            forall|i: int| lo <= i < a ==> is_white_space(#[trigger] cs@[i]),
        decreases hi - a,
    {
        a = a + 1;
    }
    let mut b = hi;
    while b > a && char_is_whitespace(cs[b - 1])
        invariant
            lo <= a <= b <= hi <= cs.len(),
            forall|i: int| b <= i < hi ==> is_white_space(#[trigger] cs@[i]),
            a == hi || !is_white_space(cs@[a as int]),
        decreases b - a,
    {
        b = b - 1;
    }
    proof {
        let s = cs@.subrange(lo as int, hi as int);
        assert forall|i: int| 0 <= i < a - lo implies is_white_space(#[trigger] s[i]) by {
            assert(s[i] == cs@[lo + i]);
        }
        if a < hi {
            assert(s[a - lo] == cs@[a as int]);
        }
        lemma_trim_start_at(s, a - lo);
        let t = s.subrange(a - lo, s.len() as int);
        assert(t =~= cs@.subrange(a as int, hi as int));
        assert forall|i: int| b - a <= i < t.len() implies is_white_space(#[trigger] t[i]) by {
            assert(t[i] == cs@[a + i]);
        }
        if b > a {
            assert(t[b - a - 1] == cs@[b - 1]);
        }
        lemma_trim_end_at(t, b - a);
        assert(t.subrange(0, b - a) =~= cs@.subrange(a as int, b as int));
    }
    (a, b)
}

/// A string holding `cs[lo..hi]`.
pub fn string_from(cs: &Vec<char>, lo: usize, hi: usize) -> (r: String)
    requires
        lo <= hi <= cs.len(),
    ensures
        r@ == cs@.subrange(lo as int, hi as int),
{
    let mut r = String::new();
    let mut i = lo;
    while i < hi
        invariant
            lo <= i <= hi <= cs.len(),
            r@ == cs@.subrange(lo as int, i as int),
        decreases hi - i,
    {
        push_char(&mut r, cs[i]);
        assert(cs@.subrange(lo as int, i + 1) =~= cs@.subrange(lo as int, i as int).push(cs@[i as int]));
        i = i + 1;
    }
    r
}

/// `s` with leading and trailing white space removed.
pub fn trim_str(s: &str) -> (r: String)
    ensures
        r@ == trim(s@),
{
    let cs = chars_of(s);
    let (a, b) = trim_range(&cs, 0, cs.len());
    assert(cs@.subrange(0, cs@.len() as int) =~= cs@);
    string_from(&cs, a, b)
}

/// Whether two strings hold the same characters.
pub fn same_text(a: &str, b: &String) -> (r: bool)
    ensures
        r == (a@ == b@),
{
    let t: String = a.to_owned();
    t == *b
}

/// The decimal digit character for `d` (0 to 9).
pub open spec fn digit_char(d: int) -> char {
    if d == 0 {
        '0'
    } else if d == 1 {
        '1'
    } else if d == 2 {
        '2'
    } else if d == 3 {
        '3'
    } else if d == 4 {
        '4'
    } else if d == 5 {
        '5'
    } else if d == 6 {
        '6'
    } else if d == 7 {
        '7'
    } else if d == 8 {
        '8'
    } else {
        '9'
    }
}

/// The decimal representation of `n`, without sign or leading zeros.
pub open spec fn decimal(n: nat) -> Seq<char>
    decreases n,
{
    if n < 10 {
        seq![digit_char(n as int)]
    } else {
        decimal(n / 10).push(digit_char((n % 10) as int))
    }
}

fn digit_of(d: u64) -> (c: char)
    requires
        d < 10,
    ensures
        c == digit_char(d as int),
{
    if d == 0 {
        '0'
    } else if d == 1 {
        '1'
    } else if d == 2 {
        '2'
    } else if d == 3 {
        '3'
    } else if d == 4 {
        '4'
    } else if d == 5 {
        '5'
    } else if d == 6 {
        '6'
    } else if d == 7 {
        '7'
    } else if d == 8 {
        '8'
    } else {
        '9'
    }
}

/// Appends the decimal representation of `n` to `s`.
pub fn push_decimal(s: &mut String, n: u64)
    ensures
        final(s)@ == old(s)@ + decimal(n as nat),
    decreases n,
{
    if n >= 10 {
        push_decimal(s, n / 10);
    }
    push_char(s, digit_of(n % 10));
    proof {
        if n >= 10 {
            assert(old(s)@ + decimal(n as nat) =~= (old(s)@ + decimal((n / 10) as nat)).push(
                digit_char((n % 10) as int),
            ));
        } else {
            assert(old(s)@ + decimal(n as nat) =~= old(s)@.push(digit_char((n % 10) as int)));
        }
    }
}

} // verus!

verus! {

/// The characters of each string, in order.
pub open spec fn texts(v: Seq<String>) -> Seq<Seq<char>> {
    Seq::new(v.len(), |i: int| v[i]@)
}

/// The pieces of `s` between occurrences of `d`, as `str::split` yields them:
/// one more piece than there are separators, empty pieces included.
pub open spec fn split_on(s: Seq<char>, d: char) -> Seq<Seq<char>>
    decreases s.len(),
{
    if s.len() == 0 {
        seq![Seq::empty()]
    } else {
        let rest = split_on(s.drop_last(), d);
        if s.last() == d {
            rest.push(Seq::empty())
        } else {
            rest.update(rest.len() - 1, rest.last().push(s.last()))
        }
    }
}

pub proof fn lemma_split_on_nonempty(s: Seq<char>, d: char)
    ensures
        split_on(s, d).len() >= 1,
    decreases s.len(),
{
    if s.len() > 0 {
        lemma_split_on_nonempty(s.drop_last(), d);
    }
}

/// The trimmed pieces that are not empty, in order.
pub open spec fn clean_tokens(p: Seq<Seq<char>>) -> Seq<Seq<char>>
    decreases p.len(),
{
    if p.len() == 0 {
        Seq::empty()
    } else {
        let r = clean_tokens(p.drop_last());
        let t = trim(p.last());
        if t.len() == 0 {
            r
        } else {
            r.push(t)
        }
    }
}

/// The maximal runs of characters that are not white space, as
/// `str::split_whitespace` yields them.
pub open spec fn words(s: Seq<char>) -> Seq<Seq<char>>
    decreases s.len(),
{
    if s.len() == 0 {
        Seq::empty()
    } else {
        let w = words(s.drop_last());
        let c = s.last();
        if is_white_space(c) {
            w
        } else if s.len() >= 2 && !is_white_space(s[s.len() - 2]) {
            w.update(w.len() - 1, w.last().push(c))
        } else {
            w.push(seq![c])
        }
    }
}

/// The non-empty trimmed pieces of `cs[lo..hi]` between occurrences of `d`.
pub fn clean_pieces(cs: &Vec<char>, lo: usize, hi: usize, d: char) -> (r: Vec<String>)
    requires
        lo <= hi <= cs.len(),
    ensures
        texts(r@) == clean_tokens(split_on(cs@.subrange(lo as int, hi as int), d)),
{
    let mut out: Vec<String> = Vec::new();
    let mut start = lo;
    let mut i = lo;
    proof {
        assert(cs@.subrange(lo as int, lo as int) =~= Seq::<char>::empty());
    }
    while i < hi
        invariant
            lo <= start <= i <= hi <= cs.len(),
            ({
                let p = split_on(cs@.subrange(lo as int, i as int), d);
                &&& p.len() >= 1
                &&& texts(out@) == clean_tokens(p.drop_last())
                &&& p.last() == cs@.subrange(start as int, i as int)
            }),
        decreases hi - i,
    {
        let ghost s = cs@.subrange(lo as int, i as int);
        let ghost p = split_on(s, d);
        let ghost s2 = cs@.subrange(lo as int, i + 1);
        assert(s2.drop_last() =~= s);
        assert(s2.last() == cs@[i as int]);
        if cs[i] == d {
            let (a, b) = trim_range(cs, start, i);
            if a < b {
                let t = string_from(cs, a, b);
                out.push(t);
            }
            proof {
                let p2 = split_on(s2, d);
                assert(p2 == p.push(Seq::empty()));
                assert(p2.drop_last() =~= p);
                assert(p.drop_last().push(p.last()) =~= p);
                assert(texts(out@) =~= clean_tokens(p));
                assert(cs@.subrange(i + 1, i + 1) =~= Seq::<char>::empty());
            }
            start = i + 1;
        } else {
            proof {
                let p2 = split_on(s2, d);
                assert(p2 == p.update(p.len() - 1, p.last().push(cs@[i as int])));
                assert(p2.drop_last() =~= p.drop_last());
                assert(cs@.subrange(start as int, i + 1) =~= p.last().push(cs@[i as int]));
            }
        }
        i = i + 1;
    }
    let ghost p = split_on(cs@.subrange(lo as int, hi as int), d);
    let (a, b) = trim_range(cs, start, hi);
    if a < b {
        let t = string_from(cs, a, b);
        out.push(t);
    }
    proof {
        assert(p.drop_last().push(p.last()) =~= p);
        assert(texts(out@) =~= clean_tokens(p));
    }
    out
}

/// The words of `cs[lo..hi]`.
pub fn words_in(cs: &Vec<char>, lo: usize, hi: usize) -> (r: Vec<String>)
    requires
        lo <= hi <= cs.len(),
    ensures
        texts(r@) == words(cs@.subrange(lo as int, hi as int)),
{
    let mut out: Vec<String> = Vec::new();
    let mut start = lo;
    let mut in_word = false;
    let mut i = lo;
    proof {
        assert(cs@.subrange(lo as int, lo as int) =~= Seq::<char>::empty());
    }
    while i < hi
        invariant
            lo <= start <= i <= hi <= cs.len(),
            in_word == (i > lo && !is_white_space(cs@[i - 1])),
            ({
                let w = words(cs@.subrange(lo as int, i as int));
                if in_word {
                    &&& w.len() >= 1
                    &&& texts(out@) == w.drop_last()
                    &&& w.last() == cs@.subrange(start as int, i as int)
                } else {
                    texts(out@) == w
                }
            }),
        decreases hi - i,
    {
        let ghost s = cs@.subrange(lo as int, i as int);
        let ghost w = words(s);
        let ghost s2 = cs@.subrange(lo as int, i + 1);
        assert(s2.drop_last() =~= s);
        assert(s2.last() == cs@[i as int]);
        if i > lo {
            assert(s2[s2.len() - 2] == cs@[i - 1]);
        }
        let c = cs[i];
        if char_is_whitespace(c) {
            if in_word {
                let t = string_from(cs, start, i);
                out.push(t);
                proof {
                    assert(w.drop_last().push(w.last()) =~= w);
                    assert(texts(out@) =~= w);
                }
            }
            in_word = false;
        } else {
            if in_word {
                proof {
                    let w2 = words(s2);
                    assert(w2 == w.update(w.len() - 1, w.last().push(c)));
                    assert(w2.drop_last() =~= w.drop_last());
                    assert(cs@.subrange(start as int, i + 1) =~= w.last().push(c));
                }
            } else {
                start = i;
                proof {
                    let w2 = words(s2);
                    assert(w2 == w.push(seq![c]));
                    assert(w2.drop_last() =~= w);
                    assert(cs@.subrange(i as int, i + 1) =~= seq![c]);
                }
            }
            in_word = true;
        }
        i = i + 1;
    }
    if in_word {
        let t = string_from(cs, start, hi);
        out.push(t);
        proof {
            let w = words(cs@.subrange(lo as int, hi as int));
            assert(w.drop_last().push(w.last()) =~= w);
            assert(texts(out@) =~= w);
        }
    }
    out
}

} // verus!

verus! {

/// The pieces joined with `sep` between neighbours.
pub open spec fn join(pieces: Seq<Seq<char>>, sep: Seq<char>) -> Seq<char>
    decreases pieces.len(),
{
    if pieces.len() == 0 {
        Seq::empty()
    } else if pieces.len() == 1 {
        pieces[0]
    } else {
        join(pieces.drop_last(), sep) + sep + pieces.last()
    }
}

/// Every character of `s` is white space.
pub open spec fn all_white(s: Seq<char>) -> bool {
    forall|i: int| 0 <= i < s.len() ==> is_white_space(#[trigger] s[i])
}

/// `t` is not empty and neither starts nor ends with white space.
pub open spec fn trimmed_word(t: Seq<char>) -> bool {
    t.len() > 0 && !is_white_space(t[0]) && !is_white_space(t.last())
}

/// `p` is `t` with white space around it.
pub open spec fn padded(p: Seq<char>, t: Seq<char>) -> bool {
    exists|a: Seq<char>, b: Seq<char>| all_white(a) && all_white(b) && p == a + t + b
}

proof fn lemma_split_extend(a: Seq<char>, l: Seq<char>, d: char)
    requires
        !l.contains(d),
    ensures
        split_on(a + l, d) == split_on(a, d).update(
            split_on(a, d).len() - 1,
            split_on(a, d).last() + l,
        ),
    decreases l.len(),
{
    lemma_split_on_nonempty(a, d);
    if l.len() == 0 {
        assert(a + l =~= a);
        assert(split_on(a, d).last() + l =~= split_on(a, d).last());
        assert(split_on(a, d).update(split_on(a, d).len() - 1, split_on(a, d).last()) =~= split_on(a, d));
    } else {
        let l0 = l.drop_last();
        assert(!l0.contains(d)) by {
            if l0.contains(d) {
                let i = choose|i: int| 0 <= i < l0.len() && l0[i] == d;
                assert(l[i] == d);
            }
        }
        lemma_split_extend(a, l0, d);
        assert((a + l).drop_last() =~= a + l0);
        assert((a + l).last() == l.last());
        assert(l.last() != d) by {
            assert(l[l.len() - 1] == l.last());
        }
        lemma_split_on_nonempty(a + l0, d);
        let pp = split_on(a, d);
        let rest = split_on(a + l0, d);
        assert(rest.len() == pp.len());
        assert(rest.last() == pp.last() + l0);
        assert(rest.last().push(l.last()) =~= pp.last() + l);
        assert(split_on(a + l, d) == rest.update(rest.len() - 1, rest.last().push((a + l).last())));
        assert(split_on(a + l, d) =~= split_on(a, d).update(
            split_on(a, d).len() - 1,
            split_on(a, d).last() + l,
        ));
    }
}

proof fn lemma_split_after(a: Seq<char>, d: char, b: Seq<char>)
    requires
        !b.contains(d),
    ensures
        split_on(a + seq![d] + b, d) == split_on(a, d).push(b),
{
    let ad = a + seq![d];
    assert(ad.drop_last() =~= a);
    assert(split_on(ad, d) =~= split_on(a, d).push(Seq::empty()));
    lemma_split_extend(ad, b, d);
    assert(Seq::<char>::empty() + b =~= b);
    assert(split_on(ad, d).update(split_on(ad, d).len() - 1, split_on(ad, d).last() + b)
        =~= split_on(a, d).push(b));
}

proof fn lemma_trim_start_white(w: Seq<char>, x: Seq<char>)
    requires
        all_white(w),
    ensures
        trim_start(w + x) == trim_start(x),
    decreases w.len(),
{
    if w.len() > 0 {
        assert((w + x)[0] == w[0]);
        assert((w + x).drop_first() =~= w.drop_first() + x);
        lemma_trim_start_white(w.drop_first(), x);
    } else {
        assert(w + x =~= x);
    }
}

proof fn lemma_trim_end_white(x: Seq<char>, w: Seq<char>)
    requires
        all_white(w),
    ensures
        trim_end(x + w) == trim_end(x),
    decreases w.len(),
{
    if w.len() > 0 {
        assert((x + w).last() == w.last());
        assert(is_white_space(w[w.len() - 1]));
        assert((x + w).drop_last() =~= x + w.drop_last());
        lemma_trim_end_white(x, w.drop_last());
    } else {
        assert(x + w =~= x);
    }
}

/// A trimmed word with white space around it trims to itself.
pub proof fn lemma_trim_padded(a: Seq<char>, t: Seq<char>, b: Seq<char>)
    requires
        all_white(a),
        all_white(b),
        trimmed_word(t),
    ensures
        trim(a + t + b) == t,
{
    assert(a + t + b =~= a + (t + b));
    lemma_trim_start_white(a, t + b);
    assert((t + b)[0] == t[0]);
    assert(trim_start(t + b) == t + b);
    lemma_trim_end_white(t, b);
    assert(t.drop_last().push(t.last()) =~= t);
    assert(trim_end(t) == t);
}

/// Splitting at `d` the words joined by `l`, `d`, `r` (white space around `d`)
/// gives one piece per word, each the word with white space around it.
pub proof fn lemma_split_join(toks: Seq<Seq<char>>, l: Seq<char>, d: char, r: Seq<char>)
    requires
        toks.len() >= 1,
        all_white(l),
        all_white(r),
        !l.contains(d),
        !r.contains(d),
        forall|i: int| 0 <= i < toks.len() ==> !(#[trigger] toks[i]).contains(d),
    ensures
        split_on(join(toks, l + seq![d] + r), d).len() == toks.len(),
        forall|i: int|
            0 <= i < toks.len() ==> padded(#[trigger] split_on(join(toks, l + seq![d] + r), d)[i], toks[i]),
    decreases toks.len(),
{
    let sep = l + seq![d] + r;
    let e = Seq::<char>::empty();
    assert(all_white(e));
    if toks.len() == 1 {
        lemma_split_extend(e, toks[0], d);
        assert(e + toks[0] =~= toks[0]);
        assert(e + toks[0] + e =~= toks[0]);
        assert(padded(split_on(join(toks, sep), d)[0], toks[0]));
    } else {
        let t0 = toks.drop_last();
        let t = toks.last();
        lemma_split_join(t0, l, d, r);
        let j = join(t0, sep);
        assert(!(r + t).contains(d)) by {
            assert(!toks[toks.len() - 1].contains(d));
            if (r + t).contains(d) {
                let i = choose|i: int| 0 <= i < (r + t).len() && (r + t)[i] == d;
                if i < r.len() {
                    assert(r[i] == d);
                } else {
                    assert(t[i - r.len()] == d);
                }
            }
        }
        assert(join(toks, sep) =~= (j + l) + seq![d] + (r + t));
        lemma_split_after(j + l, d, r + t);
        lemma_split_extend(j, l, d);
        let p = split_on(j, d);
        let q = split_on(join(toks, sep), d);
        assert(q =~= p.update(p.len() - 1, p.last() + l).push(r + t));
        assert forall|i: int| 0 <= i < toks.len() implies padded(#[trigger] q[i], toks[i]) by {
            if i == toks.len() - 1 {
                assert(q[i] =~= r + t + e);
                assert(all_white(r));
            } else if i == toks.len() - 2 {
                assert(padded(p[i], t0[i]));
                let (a, b) = choose|a: Seq<char>, b: Seq<char>|
                    all_white(a) && all_white(b) && p[i] == a + t0[i] + b;
                assert(q[i] =~= a + toks[i] + (b + l));
                assert(all_white(b + l)) by {
                    assert forall|k: int| 0 <= k < (b + l).len() implies is_white_space(
                        #[trigger] (b + l)[k],
                    ) by {
                        if k < b.len() {
                            assert((b + l)[k] == b[k]);
                        } else {
                            assert((b + l)[k] == l[k - b.len()]);
                        }
                    }
                }
            } else {
                assert(q[i] == p[i]);
                assert(padded(p[i], t0[i]));
            }
        }
    }
}

/// The non-empty trimmed pieces are the words when each piece is its word with
/// white space around it.
pub proof fn lemma_clean_padded(p: Seq<Seq<char>>, toks: Seq<Seq<char>>)
    requires
        p.len() == toks.len(),
        forall|i: int| 0 <= i < toks.len() ==> trimmed_word(#[trigger] toks[i]),
        forall|i: int| 0 <= i < p.len() ==> padded(#[trigger] p[i], toks[i]),
    ensures
        clean_tokens(p) == toks,
    decreases p.len(),
{
    if p.len() > 0 {
        lemma_clean_padded(p.drop_last(), toks.drop_last());
        let n = p.len() - 1;
        assert(padded(p[n], toks[n]));
        let (a, b) = choose|a: Seq<char>, b: Seq<char>|
            all_white(a) && all_white(b) && p[n] == a + toks[n] + b;
        assert(trimmed_word(toks[n]));
        lemma_trim_padded(a, toks[n], b);
        assert(toks.drop_last().push(toks.last()) =~= toks);
    } else {
        assert(toks =~= Seq::<Seq<char>>::empty());
    }
}

/// The words of `a` followed by a word `t`, when `a` is empty or ends in white space.
proof fn lemma_words_append(a: Seq<char>, t: Seq<char>)
    requires
        a.len() == 0 || is_white_space(a.last()),
        t.len() >= 1,
        forall|i: int| 0 <= i < t.len() ==> !is_white_space(#[trigger] t[i]),
    ensures
        words(a + t) == words(a).push(t),
    decreases t.len(),
{
    if t.len() == 1 {
        assert((a + t).drop_last() =~= a);
        assert((a + t).last() == t[0]);
        if a.len() > 0 {
            assert((a + t)[(a + t).len() - 2] == a.last());
        }
        assert(seq![t[0]] =~= t);
    } else {
        let t0 = t.drop_last();
        lemma_words_append(a, t0);
        assert((a + t).drop_last() =~= a + t0);
        assert((a + t).last() == t[t.len() - 1]);
        assert((a + t)[(a + t).len() - 2] == t[t.len() - 2]);
        assert(t0.push(t.last()) =~= t);
        assert(words(a).push(t0).update(words(a).len() as int, t0.push(t.last())) =~= words(a).push(t));
    }
}

/// Joining words without white space by single spaces and reading the words
/// back gives them.
pub proof fn lemma_words_join(toks: Seq<Seq<char>>)
    requires
        forall|i: int| 0 <= i < toks.len() ==> (#[trigger] toks[i]).len() >= 1,
        forall|i: int, k: int| 0 <= i < toks.len() && 0 <= k < toks[i].len() ==> !is_white_space(#[trigger] toks[i][k]),
    ensures
        words(join(toks, seq![' '])) == toks,
    decreases toks.len(),
{
    let e = Seq::<char>::empty();
    if toks.len() == 0 {
    } else if toks.len() == 1 {
        assert(toks[0].len() >= 1);
        assert forall|k: int| 0 <= k < toks[0].len() implies !is_white_space(#[trigger] toks[0][k]) by {
            assert(!is_white_space(toks[0][k]));
        }
        lemma_words_append(e, toks[0]);
        assert(e + toks[0] =~= toks[0]);
        assert(toks =~= seq![toks[0]]);
    } else {
        let t0 = toks.drop_last();
        let t = toks.last();
        lemma_words_join(t0);
        let a = join(t0, seq![' ']) + seq![' '];
        assert(a.drop_last() =~= join(t0, seq![' ']));
        assert(is_white_space(a.last()));
        assert(words(a) == words(join(t0, seq![' '])));
        assert(t == toks[toks.len() - 1]);
        assert forall|k: int| 0 <= k < t.len() implies !is_white_space(#[trigger] t[k]) by {
            assert(!is_white_space(toks[toks.len() - 1][k]));
        }
        lemma_words_append(a, t);
        assert(join(toks, seq![' ']) =~= a + t);
        assert(t0.push(t) =~= toks);
    }
}

} // verus!
