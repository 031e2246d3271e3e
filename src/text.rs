//! Character-level helpers over `&str`, each proved against a spec function.

use vstd::prelude::*;

verus! {

/// `pat` occurs in `t` as a contiguous run of characters.
pub open spec fn has_sub(t: Seq<char>, pat: Seq<char>) -> bool {
    exists|i: int| 0 <= i <= t.len() - pat.len() && #[trigger] t.subrange(i, i + pat.len()) == pat
}

/// The characters of `s`, in order.
pub fn chars_of(s: &str) -> (r: Vec<char>)
    ensures
        r@ == s@,
{
    let mut r: Vec<char> = Vec::new();
    for c in it: s.chars()
        invariant
            it.seq() == s@,
            r@ == it.seq().take(it.index() as int),
    {
        r.push(c);
    }
    r
}

/// Whether `pat` occurs in `t`, as `str::contains` with a string pattern.
pub fn contains(t: &str, pat: &str) -> (r: bool)
    ensures
        r == has_sub(t@, pat@),
{
    let tv = chars_of(t);
    let pv = chars_of(pat);
    if pv.len() > tv.len() {
        return false;
    }
    let last: usize = tv.len() - pv.len();
    let mut i: usize = 0;
    while i <= last
        invariant
            tv@ == t@,
            pv@ == pat@,
            last == tv@.len() - pv@.len(),
            i <= last,
            pv@.len() <= tv@.len(),
            forall|k: int| 0 <= k < i ==> #[trigger] t@.subrange(k, k + pat@.len()) != pat@,
        decreases last - i,
    {
        let mut j: usize = 0;
        let mut same = true;
        while j < pv.len()
            invariant
                tv@ == t@,
                pv@ == pat@,
                i <= last,
                last == tv@.len() - pv@.len(),
                pv@.len() <= tv@.len(),
                j <= pv@.len(),
                same <==> forall|m: int| 0 <= m < j ==> tv@[i + m] == pv@[m],
            decreases pv@.len() - j,
        {
            assert(i + j < tv.len());
            if tv[i + j] != pv[j] {
                same = false;
            }
            j = j + 1;
        }
        if same {
            assert(t@.subrange(i as int, i + pat@.len()) =~= pat@);
            return true;
        }
        assert(t@.subrange(i as int, i + pat@.len()) != pat@) by {
            let m = choose|m: int| 0 <= m < pat@.len() && tv@[i + m] != pv@[m];
            assert(t@.subrange(i as int, i + pat@.len())[m] == t@[i + m]);
        }
        if i == last {
            return false;
        }
        i = i + 1;
    }
    false
}

/// The characters that `char::is_whitespace` accepts: those with the
/// Unicode `White_Space` property.
pub open spec fn is_ws(c: char) -> bool {
    let u = c as u32;
    (0x09 <= u && u <= 0x0D) || u == 0x20 || u == 0x85 || u == 0xA0 || u == 0x1680
        || (0x2000 <= u && u <= 0x200A) || u == 0x2028 || u == 0x2029 || u == 0x202F
        || u == 0x205F || u == 0x3000
}

/// Whether `c` is whitespace, as `char::is_whitespace`.
pub fn is_whitespace(c: char) -> (r: bool)
    ensures
        r == is_ws(c),
{
    let u = c as u32;
    (0x09 <= u && u <= 0x0D) || u == 0x20 || u == 0x85 || u == 0xA0 || u == 0x1680
        || (0x2000 <= u && u <= 0x200A) || u == 0x2028 || u == 0x2029 || u == 0x202F
        || u == 0x205F || u == 0x3000
}

/// Position `i` of `s` starts a word: a non-whitespace character that is
/// first or follows whitespace.
pub open spec fn starts_word(s: Seq<char>, i: int) -> bool {
    !is_ws(s[i]) && (i == 0 || is_ws(s[i - 1]))
}

/// The number of maximal runs of non-whitespace characters in `s`: what
/// `split_whitespace().count()` gives.
pub open spec fn words(s: Seq<char>) -> nat
    decreases s.len(),
{
    if s.len() == 0 {
        0
    } else {
        words(s.drop_last()) + if starts_word(s, s.len() - 1) {
            1nat
        } else {
            0nat
        }
    }
}

/// The number of whitespace-separated words of `s`.
pub fn word_count(s: &str) -> (r: usize)
    ensures
        r == words(s@),
{
    let v = chars_of(s);
    let mut count: usize = 0;
    let mut i: usize = 0;
    while i < v.len()
        invariant
            v@ == s@,
            i <= v@.len(),
            count <= i,
            count == words(s@.take(i as int)),
        decreases v@.len() - i,
    {
        let ghost pre = s@.take(i as int);
        let ghost next = s@.take(i + 1);
        assert(next.drop_last() =~= pre);
        assert(starts_word(next, i as int) == starts_word(s@, i as int));
        let c = v[i];
        if !is_whitespace(c) && (i == 0 || is_whitespace(v[i - 1])) {
            count = count + 1;
        }
        i = i + 1;
    }
    assert(s@.take(i as int) =~= s@);
    count
}

/// The decimal digit `d`.
pub open spec fn digit(d: nat) -> char {
    seq!['0', '1', '2', '3', '4', '5', '6', '7', '8', '9'][d as int]
}

/// `n` written in decimal, without sign or leading zeros.
pub open spec fn decimal(n: nat) -> Seq<char>
    decreases n,
{
    if n < 10 {
        seq![digit(n)]
    } else {
        decimal(n / 10) + seq![digit(n % 10)]
    }
}

fn digit_str(d: usize) -> (r: &'static str)
    requires
        d < 10,
    ensures
        r@ == seq![digit(d as nat)],
{
    proof {
        reveal_strlit("0");
        reveal_strlit("1");
        reveal_strlit("2");
        reveal_strlit("3");
        reveal_strlit("4");
        reveal_strlit("5");
        reveal_strlit("6");
        reveal_strlit("7");
        reveal_strlit("8");
        reveal_strlit("9");
    }
    let r = if d == 0 {
        "0"
    } else if d == 1 {
        "1"
    } else if d == 2 {
        "2"
    } else if d == 3 {
        "3"
    } else if d == 4 {
        "4"
    } else if d == 5 {
        "5"
    } else if d == 6 {
        "6"
    } else if d == 7 {
        "7"
    } else if d == 8 {
        "8"
    } else {
        "9"
    };
    assert(r@ =~= seq![digit(d as nat)]);
    r
}

/// Appends `n` in decimal to `out`.
pub fn push_decimal(out: &mut String, n: usize)
    ensures
        final(out)@ == old(out)@ + decimal(n as nat),
    decreases n,
{
    if n >= 10 {
        push_decimal(out, n / 10);
    }
    out.append(digit_str(n % 10));
    assert(out@ =~= old(out)@ + decimal(n as nat));
}

} // verus!
