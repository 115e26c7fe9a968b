//! Character-level helpers shared by the modules: decimal rendering and
//! character classes.

use vstd::prelude::*;

verus! {

pub open spec fn is_digit(c: char) -> bool {
    '0' <= c && c <= '9'
}

pub open spec fn all_digits(s: Seq<char>) -> bool {
    forall|i: int| 0 <= i < s.len() ==> is_digit(#[trigger] s[i])
}

/// The character of a decimal digit.
pub open spec fn digit_char(d: nat) -> char
    recommends
        d < 10,
{
    if d == 0 { '0' }
    else if d == 1 { '1' }
    else if d == 2 { '2' }
    else if d == 3 { '3' }
    else if d == 4 { '4' }
    else if d == 5 { '5' }
    else if d == 6 { '6' }
    else if d == 7 { '7' }
    else if d == 8 { '8' }
    else { '9' }
}

/// The last `width` decimal digits of `n`, zero-padded on the left.
pub open spec fn padded(n: nat, width: nat) -> Seq<char>
    decreases width,
{
    if width == 0 {
        Seq::empty()
    } else {
        padded(n / 10, (width - 1) as nat).push(digit_char(n % 10))
    }
}

pub proof fn lemma_padded_digits(n: nat, width: nat)
    ensures
        padded(n, width).len() == width,
        all_digits(padded(n, width)),
    decreases width,
{
    if width > 0 {
        lemma_padded_digits(n / 10, (width - 1) as nat);
        let p = padded(n / 10, (width - 1) as nat);
        assert forall|i: int| 0 <= i < padded(n, width).len() implies is_digit(
            #[trigger] padded(n, width)[i],
        ) by {
            if i < p.len() {
                assert(padded(n, width)[i] == p[i]);
            }
        }
    }
}

/// Appends the character of digit `d`.
pub fn push_digit(s: &mut String, d: u32)
    requires
        d < 10,
    ensures
        final(s)@ == old(s)@.push(digit_char(d as nat)),
{
    let lit: &str = if d == 0 {
        "0"
    } else if d == 1 {
        "1"
    } else if d == 2 {
        "2"
    } else if d == 3 {
        "3"
    } else if d == 4 {
        "4"
    } else if d == 5 {
        "5"
    } else if d == 6 {
        "6"
    } else if d == 7 {
        "7"
    } else if d == 8 {
        "8"
    } else {
        "9"
    };
    proof {
        reveal_strlit("0");
        reveal_strlit("1");
        reveal_strlit("2");
        reveal_strlit("3");
        reveal_strlit("4");
        reveal_strlit("5");
        reveal_strlit("6");
        reveal_strlit("7");
        reveal_strlit("8");
        reveal_strlit("9");
    }
    s.append(lit);
    assert(s@ =~= old(s)@.push(digit_char(d as nat)));
}

/// Appends the last `width` decimal digits of `n`, zero-padded.
pub fn push_padded(s: &mut String, n: u32, width: u32)
    ensures
        final(s)@ == old(s)@ + padded(n as nat, width as nat),
    decreases width,
{
    if width > 0 {
        push_padded(s, n / 10, width - 1);
        push_digit(s, n % 10);
        assert(s@ =~= old(s)@ + padded(n as nat, width as nat));
    } else {
        assert(s@ =~= old(s)@ + padded(n as nat, width as nat));
    }
}

/// The decimal digits of `n`, without leading zeros.
pub open spec fn decimal(n: nat) -> Seq<char>
    decreases n,
{
    if n < 10 {
        seq![digit_char(n)]
    } else {
        decimal(n / 10).push(digit_char(n % 10))
    }
}

/// Appends the decimal digits of `n`.
pub fn push_decimal(s: &mut String, n: usize)
    ensures
        final(s)@ == old(s)@ + decimal(n as nat),
    decreases n,
{
    if n < 10 {
        push_digit(s, n as u32);
        assert(s@ =~= old(s)@ + decimal(n as nat));
    } else {
        push_decimal(s, n / 10);
        push_digit(s, (n % 10) as u32);
        assert(s@ =~= old(s)@ + decimal(n as nat));
    }
}

/// `true` or `false`.
pub open spec fn bool_text(b: bool) -> Seq<char> {
    if b {
        "true"@
    } else {
        "false"@
    }
}

/// Appends `true` or `false`.
pub fn push_bool(s: &mut String, b: bool)
    ensures
        final(s)@ == old(s)@ + bool_text(b),
{
    if b {
        s.append("true");
    } else {
        s.append("false");
    }
}

/// Lexicographic order by code point, which is the byte order of UTF-8 and so
/// the order of `String`'s `Ord`.
pub open spec fn text_lt(a: Seq<char>, b: Seq<char>) -> bool
    decreases a.len(),
{
    if a.len() == 0 {
        b.len() > 0
    } else if b.len() == 0 {
        false
    } else if a[0] != b[0] {
        (a[0] as u32) < (b[0] as u32)
    } else {
        text_lt(a.drop_first(), b.drop_first())
    }
}

pub proof fn lemma_text_lt_asymmetric(a: Seq<char>, b: Seq<char>)
    ensures
        text_lt(a, b) ==> !text_lt(b, a),
    decreases a.len(),
{
    if a.len() > 0 && b.len() > 0 && a[0] == b[0] {
        lemma_text_lt_asymmetric(a.drop_first(), b.drop_first());
    }
}

pub proof fn lemma_text_lt_transitive(a: Seq<char>, b: Seq<char>, c: Seq<char>)
    ensures
        text_lt(a, b) && text_lt(b, c) ==> text_lt(a, c),
    decreases a.len(),
{
    if a.len() > 0 && b.len() > 0 && c.len() > 0 {
        lemma_text_lt_transitive(a.drop_first(), b.drop_first(), c.drop_first());
    }
}

/// Whether `a` comes before `b` in code-point order.
pub fn text_less(a: &str, b: &str) -> (r: bool)
    ensures
        r == text_lt(a@, b@),
{
    let la = a.unicode_len();
    let lb = b.unicode_len();
    let mut i: usize = 0;
    assert(a@.skip(0) =~= a@);
    assert(b@.skip(0) =~= b@);
    while i < la && i < lb
        invariant
            la == a@.len(),
            lb == b@.len(),
            0 <= i <= la,
            i <= lb,
            text_lt(a@, b@) == text_lt(a@.skip(i as int), b@.skip(i as int)),
        decreases la - i,
    {
        let ca = a.get_char(i);
        let cb = b.get_char(i);
        if ca != cb {
            return (ca as u32) < (cb as u32);
        }
        assert(a@.skip(i as int).drop_first() =~= a@.skip(i as int + 1));
        assert(b@.skip(i as int).drop_first() =~= b@.skip(i as int + 1));
        i = i + 1;
    }
    i == la && i < lb
}

/// Texts in code-point order.
pub open spec fn sorted_texts(s: Seq<String>) -> bool {
    forall|i: int, j: int| 0 <= i < j < s.len() ==> !text_lt((#[trigger] s[j])@, (#[trigger] s[i])@)
}

/// Sorts texts in code-point order (insertion sort; the lists are short).
pub fn sort_texts(v: Vec<String>) -> (r: Vec<String>)
    ensures
        sorted_texts(r@),
        r@.len() == v@.len(),
        forall|x: String| r@.contains(x) <==> v@.contains(x),
{
    let mut out: Vec<String> = Vec::new();
    let n = v.len();
    let mut i: usize = 0;
    while i < n
        invariant
            n == v@.len(),
            0 <= i <= n,
            out@.len() == i,
            sorted_texts(out@),
            forall|y: String| out@.contains(y) <==> v@.subrange(0, i as int).contains(y),
        decreases n - i,
    {
        let x = v[i].clone();
        let mut k: usize = 0;
        while k < out.len() && !text_less(x.as_str(), out[k].as_str())
            invariant
                0 <= k <= out@.len(),
                forall|j: int| 0 <= j < k ==> !text_lt(x@, (#[trigger] out@[j])@),
            decreases out@.len() - k,
        {
            k = k + 1;
        }
        let ghost prev = out@;
        proof {
            assert forall|j: int| k <= j < prev.len() implies !text_lt((#[trigger] prev[j])@, x@) by {
                lemma_text_lt_asymmetric(x@, prev[k as int]@);
                if j > k {
                    lemma_text_lt_transitive(prev[j]@, x@, prev[k as int]@);
                }
            }
        }
        out.insert(k, x);
        proof {
            let w = v@.subrange(0, i as int + 1);
            assert(w =~= v@.subrange(0, i as int).push(v@[i as int]));
            assert forall|y: String| out@.contains(y) <==> w.contains(y) by {
                if out@.contains(y) {
                    let t = choose|t: int| 0 <= t < out@.len() && out@[t] == y;
                    if t < k {
                        assert(prev[t] == y);
                        assert(prev.contains(y));
                    } else if t > k {
                        assert(prev[t - 1] == y);
                        assert(prev.contains(y));
                    } else {
                        assert(w[i as int] == y);
                    }
                }
                if w.contains(y) {
                    let t = choose|t: int| 0 <= t < w.len() && w[t] == y;
                    if t == i {
                        assert(out@[k as int] == y);
                    } else {
                        assert(v@.subrange(0, i as int)[t] == y);
                        assert(prev.contains(y));
                        let u = choose|u: int| 0 <= u < prev.len() && prev[u] == y;
                        if u < k {
                            assert(out@[u] == y);
                        } else {
                            assert(out@[u + 1] == y);
                        }
                    }
                }
            }
            assert forall|a: int, b: int| 0 <= a < b < out@.len() implies !text_lt((#[trigger] out@[b])@, (#[trigger] out@[a])@) by {
                if a < k && b == k {
                } else if a == k && b > k {
                    assert(out@[b] == prev[b - 1]);
                } else if a < k && b > k {
                    assert(out@[b] == prev[b - 1]);
                    assert(out@[a] == prev[a]);
                } else if b < k {
                    assert(out@[b] == prev[b]);
                    assert(out@[a] == prev[a]);
                } else {
                    assert(out@[b] == prev[b - 1]);
                    assert(out@[a] == prev[a - 1]);
                }
            }
        }
        i = i + 1;
    }
    assert(v@.subrange(0, n as int) =~= v@);
    out
}

} // verus!
