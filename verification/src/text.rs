//! Character-level text utilities: exact string comparison and the numeric
//! normalization rules used by the field extractor.

use vstd::prelude::*;
use vstd::string::StrSliceExecFns;

verus! {

/// The characters stripped as surrounding whitespace around field values.
pub open spec fn is_space(c: char) -> bool {
    c == ' ' || c == '\t' || c == '\n' || c == '\r'
}

/// The characters of `s`, one per element.
pub fn chars_of(s: &str) -> (v: Vec<char>)
    ensures
        v@ == s@,
{
    let n = s.unicode_len();
    let mut v: Vec<char> = Vec::new();
    let mut i: usize = 0;
    while i < n
        invariant
            n == s@.len(),
            i <= n,
            v@ == s@.take(i as int),
        decreases n - i,
    {
        v.push(s.get_char(i));
        proof {
            assert(s@.take(i as int).push(s@[i as int]) =~= s@.take(i + 1 as int));
        }
        i = i + 1;
    }
    proof {
        assert(s@.take(n as int) =~= s@);
    }
    v
}

/// Exact, case-sensitive equality of two strings.
pub fn str_eq(a: &str, b: &str) -> (r: bool)
    ensures
        r == (a@ == b@),
{
    let an = a.unicode_len();
    let bn = b.unicode_len();
    if an != bn {
        return false;
    }
    let mut i: usize = 0;
    while i < an
        invariant
            an == a@.len(),
            an == b@.len(),
            i <= an,
            forall|k: int| 0 <= k < i ==> a@[k] == b@[k],
        decreases an - i,
    {
        if a.get_char(i) != b.get_char(i) {
            return false;
        }
        i = i + 1;
    }
    proof {
        assert(a@ =~= b@);
    }
    true
}

/// Relies on std's `String::push`: appends one character at the end.
#[verifier::external_body]
fn push_char(s: &mut String, c: char)
    ensures
        final(s)@ == old(s)@.push(c),
{
    s.push(c);
}

/// A `String` holding exactly the given characters.
pub fn string_of(v: &Vec<char>) -> (s: String)
    ensures
        s@ == v@,
{
    let mut s = String::new();
    let mut i: usize = 0;
    while i < v.len()
        invariant
            i <= v@.len(),
            s@ == v@.take(i as int),
        decreases v@.len() - i,
    {
        push_char(&mut s, v[i]);
        proof {
            assert(v@.take(i as int).push(v@[i as int]) =~= v@.take(i + 1 as int));
        }
        i = i + 1;
    }
    proof {
        assert(v@.take(v@.len() as int) =~= v@);
    }
    s
}

/// The characters of `v` from `a` (inclusive) to `b` (exclusive).
fn subrange_vec(v: &Vec<char>, a: usize, b: usize) -> (r: Vec<char>)
    requires
        a <= b <= v@.len(),
    ensures
        r@ == v@.subrange(a as int, b as int),
{
    let mut r: Vec<char> = Vec::new();
    let mut i: usize = a;
    while i < b
        invariant
            a <= i <= b <= v@.len(),
            r@ == v@.subrange(a as int, i as int),
        decreases b - i,
    {
        r.push(v[i]);
        proof {
            assert(v@.subrange(a as int, i as int).push(v@[i as int]) =~= v@.subrange(
                a as int,
                i + 1 as int,
            ));
        }
        i = i + 1;
    }
    r
}

/// Whether a character is a decimal digit.
pub open spec fn is_digit(c: char) -> bool {
    48 <= c as u32 <= 57
}

/// The value of a decimal digit character.
pub open spec fn digit_val(c: char) -> nat {
    (c as u32 - 48) as nat
}

/// Whether every character of `s` is a decimal digit.
pub open spec fn all_digits(s: Seq<char>) -> bool {
    forall|k: int| 0 <= k < s.len() ==> is_digit(#[trigger] s[k])
}

/// The numeric value of a digit string, most significant digit first.
pub open spec fn digits_val(s: Seq<char>) -> nat
    decreases s.len(),
{
    if s.len() == 0 {
        0
    } else {
        digits_val(s.drop_last()) * 10 + digit_val(s.last())
    }
}

/// The number a bare digit string denotes: at least one digit, nothing but
/// digits, and a value that fits in a `u64`.
pub open spec fn spec_parse_u64(s: Seq<char>) -> Option<u64> {
    if s.len() > 0 && all_digits(s) && digits_val(s) <= u64::MAX {
        Some(digits_val(s) as u64)
    } else {
        None
    }
}

/// `s` without any comma (thousands separator).
pub open spec fn strip_commas(s: Seq<char>) -> Seq<char> {
    s.filter(|c: char| c != ',')
}

/// `s` without leading whitespace.
pub open spec fn trim_start(s: Seq<char>) -> Seq<char>
    decreases s.len(),
{
    if s.len() > 0 && is_space(s[0]) {
        trim_start(s.drop_first())
    } else {
        s
    }
}

/// `s` without trailing whitespace.
pub open spec fn trim_end(s: Seq<char>) -> Seq<char>
    decreases s.len(),
{
    if s.len() > 0 && is_space(s.last()) {
        trim_end(s.drop_last())
    } else {
        s
    }
}

/// `s` without surrounding whitespace.
pub open spec fn trim_spaces(s: Seq<char>) -> Seq<char> {
    trim_end(trim_start(s))
}

/// The number a raw field value denotes, once thousands separators and
/// surrounding whitespace are stripped.
pub open spec fn spec_number_field(s: Seq<char>) -> Option<u64> {
    spec_parse_u64(trim_spaces(strip_commas(s)))
}

proof fn lemma_trim_start_skip(s: Seq<char>, lo: int)
    requires
        0 <= lo <= s.len(),
        forall|k: int| 0 <= k < lo ==> is_space(#[trigger] s[k]),
        lo == s.len() || !is_space(s[lo]),
    ensures
        trim_start(s) == s.skip(lo),
    decreases lo,
{
    if lo == 0 {
        assert(s.skip(0) =~= s);
    } else {
        lemma_trim_start_skip(s.drop_first(), lo - 1);
        assert(s.drop_first().skip(lo - 1) =~= s.skip(lo));
    }
}

proof fn lemma_trim_end_take(s: Seq<char>, hi: int)
    requires
        0 <= hi <= s.len(),
        forall|k: int| hi <= k < s.len() ==> is_space(#[trigger] s[k]),
        hi == 0 || !is_space(s[hi - 1]),
    ensures
        trim_end(s) == s.take(hi),
    decreases s.len() - hi,
{
    if hi == s.len() {
        assert(s.take(hi) =~= s);
    } else {
        lemma_trim_end_take(s.drop_last(), hi);
        assert(s.drop_last().take(hi) =~= s.take(hi));
    }
}

/// A longer digit prefix never denotes a smaller value.
proof fn lemma_digits_val_monotone(s: Seq<char>, i: int, j: int)
    requires
        0 <= i <= j <= s.len(),
    ensures
        digits_val(s.take(i)) <= digits_val(s.take(j)),
    decreases j - i,
{
    if i < j {
        lemma_digits_val_monotone(s, i, j - 1);
        assert(s.take(j).drop_last() =~= s.take(j - 1));
        assert(digits_val(s.take(j)) == digits_val(s.take(j - 1)) * 10 + digit_val(
            s.take(j).last(),
        ));
    }
}

/// The bounds that cutting surrounding whitespace leaves: the trimmed value
/// is `v` between the two returned positions.
fn trim_bounds(v: &Vec<char>) -> (r: (usize, usize))
    ensures
        ({
            let (lo, hi) = r;
            &&& 0 <= lo <= hi <= v@.len()
            &&& v@.subrange(lo as int, hi as int) == trim_spaces(v@)
        }),
{
    let n = v.len();
    let mut lo: usize = 0;
    while lo < n && (v[lo] == ' ' || v[lo] == '\t' || v[lo] == '\n' || v[lo] == '\r')
        invariant
            n == v@.len(),
            lo <= n,
            forall|k: int| 0 <= k < lo ==> is_space(#[trigger] v@[k]),
        decreases n - lo,
    {
        lo = lo + 1;
    }
    let mut hi: usize = n;
    while hi > lo && (v[hi - 1] == ' ' || v[hi - 1] == '\t' || v[hi - 1] == '\n' || v[hi - 1]
        == '\r')
        invariant
            n == v@.len(),
            lo <= hi <= n,
            forall|k: int| hi <= k < n ==> is_space(#[trigger] v@[k]),
        decreases hi,
    {
        hi = hi - 1;
    }
    proof {
        lemma_trim_start_skip(v@, lo as int);
        let t = v@.skip(lo as int);
        assert forall|k: int| hi - lo <= k < t.len() implies is_space(#[trigger] t[k]) by {
            assert(t[k] == v@[k + lo]);
        }
        if hi > lo {
            assert(t[hi - lo - 1] == v@[hi - 1]);
        }
        lemma_trim_end_take(t, hi - lo);
        assert(t.take(hi - lo) =~= v@.subrange(lo as int, hi as int));
    }
    (lo, hi)
}

/// `v` without any comma.
fn without_commas(v: &Vec<char>) -> (r: Vec<char>)
    ensures
        r@ == strip_commas(v@),
{
    broadcast use vstd::seq_lib::group_filter_ensures;

    let pred = |c: char| c != ',';
    let n = v.len();
    let mut r: Vec<char> = Vec::new();
    let mut i: usize = 0;
    while i < n
        invariant
            n == v@.len(),
            i <= n,
            r@ == v@.take(i as int).filter(|c: char| c != ','),
        decreases n - i,
    {
        proof {
            let spred = |c: char| c != ',';
            let before = v@.take(i as int);
            let after = v@.take(i + 1 as int);
            assert(after =~= before + seq![v@[i as int]]);
            Seq::filter_distributes_over_add(before, seq![v@[i as int]], spred);
            reveal_with_fuel(Seq::filter, 3);
            assert(seq![v@[i as int]].drop_last() =~= Seq::<char>::empty());
            if spred(v@[i as int]) {
                assert(seq![v@[i as int]].filter(spred) =~= seq![v@[i as int]]);
            } else {
                assert(seq![v@[i as int]].filter(spred) =~= Seq::<char>::empty());
            }
        }
        if v[i] != ',' {
            r.push(v[i]);
        }
        i = i + 1;
    }
    proof {
        assert(v@.take(n as int) =~= v@);
    }
    r
}

/// The value of the digit run of `v` between `lo` and `hi`, where that run is
/// a well-formed number.
fn parse_digits(v: &Vec<char>, lo: usize, hi: usize) -> (r: Option<u64>)
    requires
        lo <= hi <= v@.len(),
    ensures
        r == spec_parse_u64(v@.subrange(lo as int, hi as int)),
{
    let ghost t = v@.subrange(lo as int, hi as int);
    if lo == hi {
        return None;
    }
    let mut acc: u64 = 0;
    let mut idx: usize = lo;
    while idx < hi
        invariant
            lo <= idx <= hi <= v@.len(),
            t == v@.subrange(lo as int, hi as int),
            forall|k: int| 0 <= k < idx - lo ==> is_digit(#[trigger] t[k]),
            acc as nat == digits_val(t.take(idx - lo)),
        decreases hi - idx,
    {
        let c = v[idx];
        proof {
            assert(t[idx - lo] == v@[idx as int]);
        }
        let u = c as u32;
        if u < 48 || u > 57 {
            proof {
                assert(!is_digit(t[idx - lo]));
            }
            return None;
        }
        let d = (u - 48) as u64;
        proof {
            assert(t.take(idx - lo + 1).drop_last() =~= t.take(idx - lo));
            assert(t.take(idx - lo + 1).last() == t[idx - lo]);
        }
        let step = match acc.checked_mul(10) {
            Some(x) => x.checked_add(d),
            None => None,
        };
        match step {
            Some(next) => {
                acc = next;
            },
            None => {
                proof {
                    assert(digits_val(t.take(idx - lo + 1)) > u64::MAX);
                    lemma_digits_val_monotone(t, idx - lo + 1, t.len() as int);
                    assert(t.take(t.len() as int) =~= t);
                }
                return None;
            },
        }
        idx = idx + 1;
    }
    proof {
        assert(t.take(t.len() as int) =~= t);
    }
    Some(acc)
}

/// The number a raw field value denotes: thousands separators and surrounding
/// whitespace are stripped; anything else non-numeric is no number at all.
pub fn parse_count(s: &str) -> (r: Option<u64>)
    ensures
        r == spec_number_field(s@),
{
    let raw = chars_of(s);
    let kept = without_commas(&raw);
    let (lo, hi) = trim_bounds(&kept);
    parse_digits(&kept, lo, hi)
}

/// The position of the first slash in `s`, if any.
pub open spec fn find_slash(s: Seq<char>) -> Option<int>
    decreases s.len(),
{
    if s.len() == 0 {
        None
    } else if s[0] == '/' {
        Some(0)
    } else {
        match find_slash(s.drop_first()) {
            Some(i) => Some(i + 1),
            None => None,
        }
    }
}

/// What splitting on a single slash yields: the two surrounding parts where
/// `s` holds exactly one slash, and nothing otherwise.
pub open spec fn spec_split2(s: Seq<char>) -> Option<(Seq<char>, Seq<char>)> {
    match find_slash(s) {
        None => None,
        Some(i) => if find_slash(s.skip(i + 1)) is None {
            Some((s.take(i), s.skip(i + 1)))
        } else {
            None
        },
    }
}

/// The first slash found is a slash, and nothing before it is one; where none
/// is found, there is none.
proof fn lemma_find_slash(s: Seq<char>)
    ensures
        match find_slash(s) {
            Some(i) => 0 <= i < s.len() && s[i] == '/' && (forall|k: int|
                0 <= k < i ==> s[k] != '/'),
            None => forall|k: int| 0 <= k < s.len() ==> s[k] != '/',
        },
    decreases s.len(),
{
    if s.len() > 0 && s[0] != '/' {
        let d = s.drop_first();
        lemma_find_slash(d);
        match find_slash(d) {
            Some(i) => {
                assert(s[i + 1] == d[i]);
                assert forall|k: int| 0 <= k < i + 1 implies s[k] != '/' by {
                    if k > 0 {
                        assert(d[k - 1] == s[k]);
                    }
                }
            },
            None => {
                assert forall|k: int| 0 <= k < s.len() implies s[k] != '/' by {
                    if k > 0 {
                        assert(d[k - 1] == s[k]);
                    }
                }
            },
        }
    }
}

/// The index of the first slash in `v`, or the length where it has none.
fn scan_slash(v: &Vec<char>, from: usize) -> (f: usize)
    requires
        from <= v@.len(),
    ensures
        from <= f <= v@.len(),
        forall|k: int| from <= k < f ==> v@[k] != '/',
        f < v@.len() ==> v@[f as int] == '/',
{
    let n = v.len();
    let mut f: usize = from;
    while f < n && v[f] != '/'
        invariant
            from <= f <= n,
            n == v@.len(),
            forall|k: int| from <= k < f ==> v@[k] != '/',
        decreases n - f,
    {
        f = f + 1;
    }
    f
}

/// Splits on the single slash of `s` and strips the surrounding whitespace of
/// both parts; a value with no slash, or more than one, does not split.
pub fn split2_trimmed(s: &str) -> (r: Option<(String, String)>)
    ensures
        match r {
            Some((a, b)) => spec_split2(s@) matches Some((x, y)) && a@ == trim_spaces(x) && b@
                == trim_spaces(y),
            None => spec_split2(s@) is None,
        },
{
    let v = chars_of(s);
    let n = v.len();
    let f = scan_slash(&v, 0);
    proof {
        lemma_find_slash(v@);
    }
    if f == n {
        return None;
    }
    let g = scan_slash(&v, f + 1);
    proof {
        let rest = v@.skip(f + 1 as int);
        lemma_find_slash(rest);
        assert(forall|k: int| 0 <= k < rest.len() ==> rest[k] == v@[k + f + 1]);
        if g < n {
            assert(rest[g - f - 1] == '/');
        }
    }
    if g < n {
        return None;
    }
    let left = subrange_vec(&v, 0, f);
    let right = subrange_vec(&v, f + 1, n);
    proof {
        assert(v@.subrange(0, f as int) =~= v@.take(f as int));
        assert(v@.subrange(f + 1 as int, n as int) =~= v@.skip(f + 1 as int));
    }
    let (alo, ahi) = trim_bounds(&left);
    let (blo, bhi) = trim_bounds(&right);
    let a = string_of(&subrange_vec(&left, alo, ahi));
    let b = string_of(&subrange_vec(&right, blo, bhi));
    Some((a, b))
}

/// What a raw level value denotes: the placeholder for a job not yet leveled,
/// a number, or malformed content.
pub open spec fn spec_level(s: Seq<char>) -> Result<Option<u64>, ()> {
    if trim_spaces(s) == seq!['-'] {
        Ok(None)
    } else {
        match spec_number_field(s) {
            Some(v) => Ok(Some(v)),
            None => Err(()),
        }
    }
}

/// Parses a raw level value: "-" (a job not yet leveled) is no level; a
/// number is its level; anything else is malformed.
pub fn parse_level(s: &str) -> (r: Result<Option<u64>, ()>)
    ensures
        r == spec_level(s@),
{
    let raw = chars_of(s);
    let (lo, hi) = trim_bounds(&raw);
    let ghost t = trim_spaces(s@);
    if hi - lo == 1 && raw[lo] == '-' {
        proof {
            assert(t =~= seq!['-']);
        }
        Ok(None)
    } else {
        proof {
            assert(seq!['-'].len() == 1);
            if hi - lo == 1 {
                assert(t[0] == raw@[lo as int]);
                assert(t != seq!['-']);
            } else {
                assert(t != seq!['-']);
            }
        }
        match parse_count(s) {
            Some(v) => Ok(Some(v)),
            None => Err(()),
        }
    }
}

/// What one member of a raw experience pair denotes: `Some(None)` for the
/// placeholder, `Some(Some(v))` for a number, `None` for malformed content.
pub open spec fn spec_exp_part(p: Seq<char>) -> Option<Option<u64>> {
    if trim_spaces(p) == seq!['-', '-'] {
        Some(None)
    } else {
        match spec_number_field(p) {
            Some(v) => Some(Some(v)),
            None => None,
        }
    }
}

/// What a raw experience value denotes: two slash-separated members, both the
/// placeholder (experience does not apply) or both numbers with the current
/// value at most the maximum; anything else is malformed.
pub open spec fn spec_exp(s: Seq<char>) -> Result<Option<(u64, u64)>, ()> {
    match spec_split2(s) {
        None => Err(()),
        Some((a, b)) => match (spec_exp_part(a), spec_exp_part(b)) {
            (Some(None), Some(None)) => Ok(None),
            (Some(Some(current)), Some(Some(max))) => if current <= max {
                Ok(Some((current, max)))
            } else {
                Err(())
            },
            _ => Err(()),
        },
    }
}

/// One member of an experience pair, as `spec_exp_part` describes it.
fn parse_exp_part(v: &Vec<char>) -> (r: Option<Option<u64>>)
    ensures
        r == spec_exp_part(v@),
{
    let (lo, hi) = trim_bounds(v);
    let ghost t = trim_spaces(v@);
    if hi - lo == 2 && v[lo] == '-' && v[lo + 1] == '-' {
        proof {
            assert(t =~= seq!['-', '-']);
        }
        Some(None)
    } else {
        proof {
            assert(seq!['-', '-'].len() == 2);
            if hi - lo == 2 {
                assert(t[0] == v@[lo as int]);
                assert(t[1] == v@[lo + 1 as int]);
                assert(t != seq!['-', '-']);
            } else {
                assert(t != seq!['-', '-']);
            }
        }
        let kept = without_commas(v);
        let (klo, khi) = trim_bounds(&kept);
        match parse_digits(&kept, klo, khi) {
            Some(n) => Some(Some(n)),
            None => None,
        }
    }
}

/// Parses a raw experience value: "--/--" (experience does not apply) is no
/// pair; "current/max" is the pair, with current at most max; anything else
/// is malformed.
pub fn parse_exp(s: &str) -> (r: Result<Option<(u64, u64)>, ()>)
    ensures
        r == spec_exp(s@),
{
    let v = chars_of(s);
    let n = v.len();
    let f = scan_slash(&v, 0);
    proof {
        lemma_find_slash(v@);
    }
    if f == n {
        return Err(());
    }
    let g = scan_slash(&v, f + 1);
    proof {
        let rest = v@.skip(f + 1 as int);
        lemma_find_slash(rest);
        assert(forall|k: int| 0 <= k < rest.len() ==> rest[k] == v@[k + f + 1]);
        if g < n {
            assert(rest[g - f - 1] == '/');
        }
    }
    if g < n {
        return Err(());
    }
    let left = subrange_vec(&v, 0, f);
    let right = subrange_vec(&v, f + 1, n);
    proof {
        assert(v@.subrange(0, f as int) =~= v@.take(f as int));
        assert(v@.subrange(f + 1 as int, n as int) =~= v@.skip(f + 1 as int));
    }
    let pa = parse_exp_part(&left);
    let pb = parse_exp_part(&right);
    match (pa, pb) {
        (Some(None), Some(None)) => Ok(None),
        (Some(Some(current)), Some(Some(max))) => if current <= max {
            Ok(Some((current, max)))
        } else {
            Err(())
        },
        _ => Err(()),
    }
}

} // verus!
