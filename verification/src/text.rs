//! String utilities shared by the extractors.
//!
//! The whitespace predicate below covers Unicode's `White_Space` class —
//! the one `char::is_whitespace` recognizes — so that trimming and
//! filtering also catch the non-breaking and typographic spaces the
//! document pages pad their values with.

use vstd::prelude::*;

verus! {

/// Characters with Unicode's `White_Space` property, as `char::is_whitespace`
/// recognizes them: the ASCII whitespace controls and the space, then
/// next line, no-break space, ogham space mark, the en-quad through
/// hair-space range, line and paragraph separators, narrow no-break
/// space, medium mathematical space, and ideographic space.
pub open spec fn is_ws_char(c: char) -> bool {
    ||| c == '\t'
    ||| c == '\n'
    ||| c == '\u{000B}'
    ||| c == '\u{000C}'
    ||| c == '\r'
    ||| c == ' '
    ||| c == '\u{0085}'
    ||| c == '\u{00A0}'
    ||| c == '\u{1680}'
    ||| ('\u{2000}' <= c && c <= '\u{200A}')
    ||| c == '\u{2028}'
    ||| c == '\u{2029}'
    ||| c == '\u{202F}'
    ||| c == '\u{205F}'
    ||| c == '\u{3000}'
}

/// `pat` occurs in `s` starting at position `i`.
pub open spec fn occurs_at(s: Seq<char>, pat: Seq<char>, i: int) -> bool {
    0 <= i && i + pat.len() <= s.len() && s.subrange(i, i + pat.len() as int) == pat
}

/// Position of the first occurrence of `pat` in `s`, if there is one.
pub open spec fn find_first(s: Seq<char>, pat: Seq<char>) -> Option<int>
    decreases s.len(),
{
    if pat.len() > s.len() {
        None
    } else if s.take(pat.len() as int) == pat {
        Some(0)
    } else if s.len() == 0 {
        None
    } else {
        match find_first(s.skip(1), pat) {
            Some(i) => Some(i + 1),
            None => None,
        }
    }
}

/// `find_first` returns the position of an occurrence, and the earliest one;
/// when it returns nothing, there is no occurrence at all.
pub proof fn lemma_find_first(s: Seq<char>, pat: Seq<char>)
    ensures
        match find_first(s, pat) {
            Some(i) => occurs_at(s, pat, i) && (forall|j: int|
                0 <= j < i ==> !occurs_at(s, pat, j)),
            None => forall|j: int| !occurs_at(s, pat, j),
        },
    decreases s.len(),
{
    let m = pat.len() as int;
    if pat.len() > s.len() {
        assert forall|j: int| !occurs_at(s, pat, j) by {
            if 0 <= j && j + pat.len() <= s.len() {
                assert(false);
            }
        }
    } else if s.take(m) == pat {
        assert(s.subrange(0, m) == s.take(m));
    } else if s.len() == 0 {
        assert forall|j: int| !occurs_at(s, pat, j) by {
            if occurs_at(s, pat, j) {
                assert(j == 0);
                assert(s.subrange(0, m) =~= s.take(m));
            }
        }
    } else {
        lemma_find_first(s.skip(1), pat);
        assert forall|j: int| 0 <= j implies (occurs_at(s, pat, j + 1) <==> occurs_at(
            s.skip(1),
            pat,
            j,
        )) by {
            if j + 1 + pat.len() <= s.len() {
                assert(s.skip(1).subrange(j, j + m) =~= s.subrange(j + 1, j + 1 + m));
            }
        }
        assert(!occurs_at(s, pat, 0)) by {
            assert(s.subrange(0, m) =~= s.take(m));
        }
        match find_first(s.skip(1), pat) {
            Some(i) => {
                assert(occurs_at(s, pat, i + 1));
                assert forall|j: int| 0 <= j < i + 1 implies !occurs_at(s, pat, j) by {
                    if j > 0 {
                        assert(!occurs_at(s.skip(1), pat, j - 1));
                    }
                }
            },
            None => {
                assert forall|j: int| !occurs_at(s, pat, j) by {
                    if 0 <= j {
                        if j > 0 {
                            assert(!occurs_at(s.skip(1), pat, j - 1));
                        }
                    }
                }
            },
        }
    }
}

/// Character-for-character string equality.
pub fn str_eq(a: &str, b: &str) -> (r: bool)
    ensures
        r == (a@ == b@),
{
    let an = a.unicode_len();
    let bn = b.unicode_len();
    if an != bn {
        return false;
    }
    let mut i: usize = 0;
    while i < an
        invariant
            an == a@.len(),
            bn == b@.len(),
            an == bn,
            i <= an,
            forall|k: int| 0 <= k < i ==> a@[k] == b@[k],
        decreases an - i,
    {
        if a.get_char(i) != b.get_char(i) {
            return false;
        }
        i += 1;
    }
    proof {
        assert(a@ =~= b@);
    }
    true
}

/// Position of the first occurrence of `pat` in `s`, executably.
pub fn find_str(s: &str, pat: &str) -> (r: Option<usize>)
    ensures
        match r {
            Some(i) => find_first(s@, pat@) == Some(i as int),
            None => find_first(s@, pat@) is None,
        },
{
    let n = s.unicode_len();
    let m = pat.unicode_len();
    if m > n {
        proof {
            lemma_find_first(s@, pat@);
        }
        return None;
    }
    let mut i: usize = 0;
    while i <= n - m
        invariant
            n == s@.len(),
            m == pat@.len(),
            m <= n,
            i <= n - m + 1,
            forall|j: int| 0 <= j < i ==> !occurs_at(s@, pat@, j),
        decreases n - i,
    {
        let mut k: usize = 0;
        while k < m && s.get_char(i + k) == pat.get_char(k)
            invariant
                n == s@.len(),
                m == pat@.len(),
                m <= n,
                i <= n - m,
                k <= m,
                forall|t: int| 0 <= t < k ==> s@[i + t] == pat@[t],
            decreases m - k,
        {
            k += 1;
        }
        if k == m {
            proof {
                lemma_find_first(s@, pat@);
                assert(s@.subrange(i as int, i + pat@.len() as int) =~= pat@);
                assert(occurs_at(s@, pat@, i as int));
            }
            return Some(i);
        }
        proof {
            assert(!occurs_at(s@, pat@, i as int)) by {
                if occurs_at(s@, pat@, i as int) {
                    assert(s@.subrange(i as int, i + pat@.len() as int) == pat@);
                    assert(s@.subrange(i as int, i + pat@.len() as int)[k as int] == s@[i as int
                        + k as int]);
                }
            }
        }
        i += 1;
    }
    proof {
        lemma_find_first(s@, pat@);
        assert forall|j: int| !occurs_at(s@, pat@, j) by {
            if 0 <= j && j + pat@.len() <= s@.len() {
                assert(j < i);
            }
        }
    }
    None
}

/// What splitting `s` at the first occurrence of `pat` yields: the part
/// before the separator and the part after it, the separator removed.
pub open spec fn split_once_spec(s: Seq<char>, pat: Seq<char>) -> Option<(Seq<char>, Seq<char>)> {
    match find_first(s, pat) {
        Some(i) => Some((s.take(i), s.skip(i + pat.len()))),
        None => None,
    }
}

/// Split `s` at the first occurrence of `pat`, executably.
pub fn split_once_str(s: &str, pat: &str) -> (r: Option<(String, String)>)
    ensures
        match r {
            Some(parts) => split_once_spec(s@, pat@) == Some((parts.0@, parts.1@)),
            None => split_once_spec(s@, pat@) is None,
        },
{
    proof {
        lemma_find_first(s@, pat@);
    }
    match find_str(s, pat) {
        Some(i) => {
            let n = s.unicode_len();
            let m = pat.unicode_len();
            let before = s.substring_char(0, i).to_owned();
            let after = s.substring_char(i + m, n).to_owned();
            proof {
                assert(before@ =~= s@.take(i as int));
                assert(after@ =~= s@.skip(i + pat@.len()));
            }
            Some((before, after))
        },
        None => None,
    }
}

/// `s` with leading whitespace removed.
pub open spec fn trim_start_spec(s: Seq<char>) -> Seq<char>
    decreases s.len(),
{
    if s.len() > 0 && is_ws_char(s[0]) {
        trim_start_spec(s.skip(1))
    } else {
        s
    }
}

/// `s` with trailing whitespace removed.
pub open spec fn trim_end_spec(s: Seq<char>) -> Seq<char>
    decreases s.len(),
{
    if s.len() > 0 && is_ws_char(s[s.len() - 1]) {
        trim_end_spec(s.drop_last())
    } else {
        s
    }
}

/// `s` with leading and trailing whitespace removed.
pub open spec fn trim_spec(s: Seq<char>) -> Seq<char> {
    trim_end_spec(trim_start_spec(s))
}

proof fn lemma_trim_start_skip(s: Seq<char>, a: int)
    requires
        0 <= a <= s.len(),
        forall|j: int| 0 <= j < a ==> is_ws_char(s[j]),
        a == s.len() || !is_ws_char(s[a]),
    ensures
        trim_start_spec(s) == s.skip(a),
    decreases a,
{
    if a == 0 {
        assert(s.skip(0) =~= s);
    } else {
        assert(is_ws_char(s[0]));
        lemma_trim_start_skip(s.skip(1), a - 1);
        assert(s.skip(1).skip(a - 1) =~= s.skip(a));
    }
}

proof fn lemma_trim_end_take(s: Seq<char>, b: int)
    requires
        0 <= b <= s.len(),
        forall|j: int| b <= j < s.len() ==> is_ws_char(s[j]),
        b == 0 || !is_ws_char(s[b - 1]),
    ensures
        trim_end_spec(s) == s.take(b),
    decreases s.len() - b,
{
    if b == s.len() {
        assert(s.take(b) =~= s);
    } else {
        assert(is_ws_char(s[s.len() - 1]));
        lemma_trim_end_take(s.drop_last(), b);
    }
}

fn char_is_ws(c: char) -> (r: bool)
    ensures
        r == is_ws_char(c),
{
    c == '\t' || c == '\n' || c == '\u{000B}' || c == '\u{000C}' || c == '\r' || c == ' ' || c
        == '\u{0085}' || c == '\u{00A0}' || c == '\u{1680}' || (c >= '\u{2000}' && c
        <= '\u{200A}') || c == '\u{2028}' || c == '\u{2029}' || c == '\u{202F}' || c == '\u{205F}'
        || c == '\u{3000}'
}

/// Remove leading and trailing whitespace from `s`.
pub fn trim_str(s: &str) -> (r: String)
    ensures
        r@ == trim_spec(s@),
{
    let n = s.unicode_len();
    let mut a: usize = 0;
    while a < n && char_is_ws(s.get_char(a))
        invariant
            n == s@.len(),
            a <= n,
            forall|j: int| 0 <= j < a ==> is_ws_char(s@[j]),
        decreases n - a,
    {
        a += 1;
    }
    proof {
        lemma_trim_start_skip(s@, a as int);
    }
    let mut b: usize = n;
    while b > a && char_is_ws(s.get_char(b - 1))
        invariant
            n == s@.len(),
            a <= b <= n,
            trim_start_spec(s@) == s@.skip(a as int),
            forall|j: int| b <= j < n ==> is_ws_char(s@[j]),
        decreases b,
    {
        b -= 1;
    }
    proof {
        let t = s@.skip(a as int);
        assert forall|j: int| b - a <= j < t.len() implies is_ws_char(t[j]) by {
            assert(t[j] == s@[j + a]);
        }
        if b > a {
            assert(t[b - a - 1] == s@[b - 1]);
        }
        lemma_trim_end_take(t, b - a);
        assert(t.take(b - a) =~= s@.subrange(a as int, b as int));
    }
    s.substring_char(a, b).to_owned()
}

/// Decimal digit test.
pub open spec fn is_digit_char(c: char) -> bool {
    '0' <= c && c <= '9'
}

/// Numeric value of a decimal digit.
pub open spec fn digit_val(c: char) -> int {
    c as int - '0' as int
}

/// Every character of `s` is a decimal digit.
pub open spec fn all_digits(s: Seq<char>) -> bool {
    forall|i: int| 0 <= i < s.len() ==> is_digit_char(s[i])
}

/// Value of `s` read as a decimal numeral.
pub open spec fn dec_val(s: Seq<char>) -> int
    decreases s.len(),
{
    if s.len() == 0 {
        0
    } else {
        dec_val(s.drop_last()) * 10 + digit_val(s.last())
    }
}

/// The digits of an unsigned numeral: an optional leading plus sign is
/// ignored, as Rust's integer parsing does.
pub open spec fn unsigned_digits_of(s: Seq<char>) -> Seq<char> {
    if s.len() > 0 && s[0] == '+' {
        s.skip(1)
    } else {
        s
    }
}

/// What parsing `s` as an unsigned decimal integer bounded by `max` yields:
/// the numeral's value when `s` is an optional plus sign followed by one or
/// more digits and the value is at most `max`, nothing otherwise.
pub open spec fn parse_uint_spec(s: Seq<char>, max: int) -> Option<int> {
    let d = unsigned_digits_of(s);
    if d.len() > 0 && all_digits(d) && dec_val(d) <= max {
        Some(dec_val(d))
    } else {
        None
    }
}

proof fn lemma_dec_val_nonneg(s: Seq<char>)
    requires
        all_digits(s),
    ensures
        dec_val(s) >= 0,
    decreases s.len(),
{
    if s.len() > 0 {
        assert(all_digits(s.drop_last())) by {
            assert(forall|i: int| 0 <= i < s.len() - 1 ==> s.drop_last()[i] == s[i]);
        }
        lemma_dec_val_nonneg(s.drop_last());
    }
}

proof fn lemma_dec_val_prefix(s: Seq<char>, k: int)
    requires
        all_digits(s),
        0 <= k <= s.len(),
    ensures
        dec_val(s.take(k)) <= dec_val(s),
    decreases s.len() - k,
{
    if k == s.len() {
        assert(s.take(k) =~= s);
    } else {
        lemma_dec_val_prefix(s, k + 1);
        assert(s.take(k + 1).drop_last() =~= s.take(k));
        assert(s.take(k + 1).last() == s[k]);
        assert(all_digits(s.take(k))) by {
            assert(forall|i: int| 0 <= i < k ==> s.take(k)[i] == s[i]);
        }
        lemma_dec_val_nonneg(s.take(k));
        assert(dec_val(s.take(k)) * 10 >= dec_val(s.take(k)));
        assert(dec_val(s.take(k + 1)) >= dec_val(s.take(k)));
    }
}

/// Parse `s` as an unsigned decimal integer of value at most `max`.
pub fn parse_uint(s: &str, max: u32) -> (r: Option<u32>)
    ensures
        match r {
            Some(v) => parse_uint_spec(s@, max as int) == Some(v as int),
            None => parse_uint_spec(s@, max as int) is None,
        },
{
    let n = s.unicode_len();
    let start: usize = if n > 0 && s.get_char(0) == '+' {
        1
    } else {
        0
    };
    if start == n {
        return None;
    }
    let ghost d = unsigned_digits_of(s@);
    proof {
        assert(d =~= s@.subrange(start as int, n as int));
    }
    let mut acc: u32 = 0;
    let mut i: usize = start;
    while i < n
        invariant
            n == s@.len(),
            start <= i <= n,
            start < n,
            d == unsigned_digits_of(s@),
            d =~= s@.subrange(start as int, n as int),
            forall|j: int| start <= j < i ==> is_digit_char(s@[j]),
            acc as int == dec_val(s@.subrange(start as int, i as int)),
            acc <= max,
        decreases n - i,
    {
        let c = s.get_char(i);
        if !(c >= '0' && c <= '9') {
            proof {
                assert(!is_digit_char(d[i - start]));
            }
            return None;
        }
        let dig: u32 = (c as u32) - ('0' as u32);
        proof {
            assert(s@.subrange(start as int, i as int + 1).drop_last() =~= s@.subrange(
                start as int,
                i as int,
            ));
            assert(s@.subrange(start as int, i as int + 1).last() == s@[i as int]);
            assert(dig as int == digit_val(s@[i as int]));
        }
        if acc > max / 10 || (acc == max / 10 && dig > max % 10) {
            proof {
                let pre = s@.subrange(start as int, i as int + 1);
                assert(all_digits(pre)) by {
                    assert(forall|j: int| 0 <= j < pre.len() ==> pre[j] == s@[start + j]);
                }
                assert(dec_val(pre) > max) by {
                    if acc > max / 10 {
                        assert(acc as int * 10 >= (max as int / 10 + 1) * 10);
                    }
                }
                if all_digits(d) {
                    assert(pre =~= d.take(i as int + 1 - start));
                    lemma_dec_val_prefix(d, i as int + 1 - start);
                }
            }
            return None;
        }
        proof {
            assert(acc as int * 10 + dig as int <= max as int) by {
                if acc == max / 10 {
                    assert(acc as int * 10 + dig as int <= (max as int / 10) * 10 + max as int
                        % 10);
                } else {
                    assert(acc as int * 10 <= (max as int / 10 - 1) * 10 + 10);
                }
            }
        }
        acc = acc * 10 + dig;
        i += 1;
    }
    proof {
        assert(d =~= s@.subrange(start as int, n as int));
        assert(all_digits(d)) by {
            assert(forall|j: int| 0 <= j < d.len() ==> d[j] == s@[start + j]);
        }
    }
    Some(acc)
}

/// `s` with every whitespace character removed.
pub open spec fn remove_ws_spec(s: Seq<char>) -> Seq<char>
    decreases s.len(),
{
    if s.len() == 0 {
        Seq::empty()
    } else if is_ws_char(s[0]) {
        remove_ws_spec(s.skip(1))
    } else {
        seq![s[0]] + remove_ws_spec(s.skip(1))
    }
}

proof fn lemma_remove_ws_push(s: Seq<char>, c: char)
    ensures
        remove_ws_spec(s.push(c)) == if is_ws_char(c) {
            remove_ws_spec(s)
        } else {
            remove_ws_spec(s).push(c)
        },
    decreases s.len(),
{
    let e = s.push(c);
    if s.len() == 0 {
        assert(e.skip(1) =~= Seq::<char>::empty());
        if !is_ws_char(c) {
            assert(seq![c] + remove_ws_spec(e.skip(1)) =~= remove_ws_spec(s).push(c));
        }
    } else {
        lemma_remove_ws_push(s.skip(1), c);
        assert(e.skip(1) =~= s.skip(1).push(c));
        assert(e[0] == s[0]);
        if !is_ws_char(s[0]) {
            if is_ws_char(c) {
                assert(seq![e[0]] + remove_ws_spec(e.skip(1)) =~= remove_ws_spec(s));
            } else {
                assert(seq![e[0]] + remove_ws_spec(e.skip(1)) =~= remove_ws_spec(s).push(c));
            }
        }
    }
}

/// Remove every whitespace character of `s`.
pub fn remove_whitespace(s: &str) -> (r: String)
    ensures
        r@ == remove_ws_spec(s@),
{
    let n = s.unicode_len();
    let mut out = String::new();
    let mut i: usize = 0;
    while i < n
        invariant
            n == s@.len(),
            i <= n,
            out@ == remove_ws_spec(s@.take(i as int)),
        decreases n - i,
    {
        proof {
            lemma_remove_ws_push(s@.take(i as int), s@[i as int]);
            assert(s@.take(i as int + 1) =~= s@.take(i as int).push(s@[i as int]));
        }
        let c = s.get_char(i);
        if !char_is_ws(c) {
            let piece = s.substring_char(i, i + 1);
            proof {
                assert(piece@ =~= seq![s@[i as int]]);
                assert(remove_ws_spec(s@.take(i as int)).push(s@[i as int]) =~= remove_ws_spec(
                    s@.take(i as int),
                ) + piece@);
            }
            out.append(piece);
        }
        i += 1;
    }
    proof {
        assert(s@.take(n as int) =~= s@);
    }
    out
}

/// Does `s` start with `pre`?
pub fn starts_with_str(s: &str, pre: &str) -> (r: bool)
    ensures
        r == pre@.is_prefix_of(s@),
{
    let n = s.unicode_len();
    let m = pre.unicode_len();
    if m > n {
        return false;
    }
    let mut k: usize = 0;
    while k < m && s.get_char(k) == pre.get_char(k)
        invariant
            n == s@.len(),
            m == pre@.len(),
            m <= n,
            k <= m,
            forall|t: int| 0 <= t < k ==> s@[t] == pre@[t],
        decreases m - k,
    {
        k += 1;
    }
    if k == m {
        proof {
            assert(s@.take(m as int) =~= pre@);
        }
        true
    } else {
        proof {
            assert(s@.take(m as int)[k as int] == s@[k as int]);
        }
        false
    }
}

/// The segments of `s` between the occurrences of the separator `pat`,
/// in order; a string without the separator is one single segment.
pub open spec fn split_all_spec(s: Seq<char>, pat: Seq<char>) -> Seq<Seq<char>>
    decreases s.len(),
    when pat.len() >= 1
{
    match find_first(s, pat) {
        None => seq![s],
        Some(i) => {
            proof {
                lemma_find_first(s, pat);
            }
            seq![s.take(i)] + split_all_spec(s.skip(i + pat.len()), pat)
        },
    }
}

/// Split `s` at every occurrence of `pat`.
pub fn split_all_str(s: &str, pat: &str) -> (r: Vec<String>)
    requires
        pat@.len() >= 1,
    ensures
        r.deep_view() == split_all_spec(s@, pat@),
{
    let mut rest: String = s.to_owned();
    let mut out: Vec<String> = Vec::new();
    let mut more = true;
    while more
        invariant
            pat@.len() >= 1,
            more ==> split_all_spec(s@, pat@) == out.deep_view() + split_all_spec(rest@, pat@),
            !more ==> split_all_spec(s@, pat@) == out.deep_view(),
        decreases rest@.len() + if more {
            1int
        } else {
            0int
        },
    {
        let ghost old_out = out.deep_view();
        let ghost old_rest = rest@;
        match split_once_str(rest.as_str(), pat) {
            Some(parts) => {
                proof {
                    lemma_find_first(old_rest, pat@);
                    assert(split_all_spec(old_rest, pat@) == seq![parts.0@] + split_all_spec(
                        parts.1@,
                        pat@,
                    ));
                }
                out.push(parts.0);
                rest = parts.1;
                proof {
                    assert(out.deep_view() =~= old_out.push(old_rest.take(
                        find_first(old_rest, pat@)->Some_0,
                    )));
                    assert(out.deep_view() + split_all_spec(rest@, pat@) =~= split_all_spec(
                        s@,
                        pat@,
                    ));
                }
            },
            None => {
                proof {
                    assert(split_all_spec(old_rest, pat@) == seq![old_rest]);
                }
                out.push(rest);
                rest = String::new();
                more = false;
                proof {
                    assert(out.deep_view() =~= old_out.push(old_rest));
                    assert(out.deep_view() =~= split_all_spec(s@, pat@));
                }
            },
        }
    }
    out
}

} // verus!
