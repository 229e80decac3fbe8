//! Verified text utilities: string equality, decimal parsing and formatting,
//! and path-shaped string splitting used by the indexer and the UI.

use vstd::prelude::*;
use vstd::string::StrSliceExecFns;

verus! {

/// Relies on std's `String::push`: appends one character at the end.
#[verifier::external_body]
pub fn string_push(s: &mut String, c: char)
    ensures
        final(s)@ == old(s)@.push(c),
{
    s.push(c)
}

/// Character-wise string equality; `r` holds exactly when the two views agree.
pub fn str_eq(a: &str, b: &str) -> (r: bool)
    ensures
        r == (a@ == b@),
{
    let alen = a.unicode_len();
    let blen = b.unicode_len();
    if alen != blen {
        return false;
    }
    let mut i: usize = 0;
    while i < alen
        invariant
            alen == a@.len(),
            alen == b@.len(),
            i <= alen,
            forall|j: int| 0 <= j < i ==> a@[j] == b@[j],
        decreases alen - i,
    {
        if a.get_char(i) != b.get_char(i) {
            return false;
        }
        i += 1;
    }
    proof {
        assert(a@ =~= b@);
    }
    true
}

/// Equality of two owned strings, by view.
pub fn string_eq(a: &String, b: &String) -> (r: bool)
    ensures
        r == (a@ == b@),
{
    str_eq(a.as_str(), b.as_str())
}

pub open spec fn is_digit(c: char) -> bool {
    '0' <= c && c <= '9'
}

pub open spec fn digit_val(c: char) -> int {
    c as int - '0' as int
}

pub open spec fn all_digits(s: Seq<char>) -> bool {
    forall|i: int| 0 <= i < s.len() ==> is_digit(#[trigger] s[i])
}

/// Value of a sequence of decimal digits, most significant first.
pub open spec fn digits_val(s: Seq<char>) -> int
    decreases s.len(),
{
    if s.len() == 0 {
        0
    } else {
        digits_val(s.drop_last()) * 10 + digit_val(s.last())
    }
}

/// Whether the numeral carries a leading minus sign.
pub open spec fn spec_negative(s: Seq<char>) -> bool {
    s.len() > 0 && s[0] == '-'
}

/// The digit part of an optionally signed decimal numeral.
pub open spec fn spec_digits_of(s: Seq<char>) -> Seq<char> {
    if s.len() > 0 && (s[0] == '-' || s[0] == '+') {
        s.skip(1)
    } else {
        s
    }
}

/// Whether `s` is an optionally signed, non-empty run of decimal digits.
pub open spec fn spec_numeral(s: Seq<char>) -> bool {
    s.len() > 0 && spec_digits_of(s).len() > 0 && all_digits(spec_digits_of(s))
}

/// The signed value `s` denotes, before any range check.
pub open spec fn spec_numeral_val(s: Seq<char>) -> int {
    if spec_negative(s) {
        -digits_val(spec_digits_of(s))
    } else {
        digits_val(spec_digits_of(s))
    }
}

/// The integer denoted by `s`, when `s` is a well-formed signed decimal
/// numeral whose magnitude is at most `i64::MAX`.
pub open spec fn spec_parse_i64(s: Seq<char>) -> Option<int> {
    if spec_numeral(s) && -i64::MAX <= spec_numeral_val(s) <= i64::MAX {
        Some(spec_numeral_val(s))
    } else {
        None
    }
}

proof fn lemma_digits_val_bounds(s: Seq<char>)
    requires
        all_digits(s),
    ensures
        0 <= digits_val(s),
    decreases s.len(),
{
    if s.len() > 0 {
        assert(all_digits(s.drop_last())) by {
            assert(forall|i: int|
                0 <= i < s.len() - 1 ==> is_digit(#[trigger] s.drop_last()[i]) == is_digit(s[i]));
        }
        lemma_digits_val_bounds(s.drop_last());
    }
}

/// A prefix of a digit string never denotes more than the whole string.
proof fn lemma_digits_val_prefix(s: Seq<char>, k: int)
    requires
        all_digits(s),
        0 <= k <= s.len(),
    ensures
        digits_val(s.take(k)) <= digits_val(s),
    decreases s.len() - k,
{
    if k < s.len() {
        lemma_digits_val_prefix(s, k + 1);
        let t = s.take(k + 1);
        assert(t.drop_last() =~= s.take(k));
        assert(all_digits(t)) by {
            assert(forall|i: int| 0 <= i < t.len() ==> is_digit(#[trigger] t[i]) == is_digit(s[i]));
        }
        lemma_digits_val_bounds(t.drop_last());
        assert(digits_val(t) == digits_val(s.take(k)) * 10 + digit_val(t.last()));
        assert(digits_val(s.take(k)) <= digits_val(t)) by (nonlinear_arith)
            requires
                digits_val(t) == digits_val(s.take(k)) * 10 + digit_val(t.last()),
                digits_val(s.take(k)) >= 0,
                digit_val(t.last()) >= 0,
        ;
    } else {
        assert(s.take(k) =~= s);
    }
}

/// Parse an optionally signed decimal numeral; `None` on any other shape and
/// on magnitudes beyond `i64::MAX`.
pub fn parse_i64(s: &str) -> (r: Option<i64>)
    ensures
        r matches Some(v) ==> spec_parse_i64(s@) == Some(v as int),
        r is None ==> spec_parse_i64(s@) is None,
{
    let len = s.unicode_len();
    if len == 0 {
        return None;
    }
    let first = s.get_char(0);
    let (neg, start) = if first == '-' {
        (true, 1usize)
    } else if first == '+' {
        (false, 1usize)
    } else {
        (false, 0usize)
    };
    proof {
        assert(s@.skip(0) =~= s@);
    }
    if start == len {
        return None;
    }
    let ghost digits: Seq<char> = s@.skip(start as int);
    proof {
        assert(digits == spec_digits_of(s@));
        assert(neg == spec_negative(s@));
    }
    let mut acc: i64 = 0;
    let mut i: usize = start;
    while i < len
        invariant
            len == s@.len(),
            start < len,
            start <= i <= len,
            digits == s@.skip(start as int),
            digits == spec_digits_of(s@),
            neg == spec_negative(s@),
            all_digits(digits.take(i - start)),
            acc == digits_val(digits.take(i - start)),
            0 <= acc,
        decreases len - i,
    {
        let c = s.get_char(i);
        if c < '0' || c > '9' {
            proof {
                assert(digits[i - start] == s@[i as int]);
                assert(!is_digit(digits[i - start]));
                assert(!all_digits(digits));
            }
            return None;
        }
        let d = (c as u32) - ('0' as u32);
        let ghost pre = digits.take(i - start);
        proof {
            assert(digits.take(i - start + 1).drop_last() =~= pre);
            assert(digits.take(i - start + 1).last() == s@[i as int]);
            assert(all_digits(digits.take(i - start + 1))) by {
                assert(forall|j: int|
                    0 <= j < i - start + 1 ==> #[trigger] digits.take(i - start + 1)[j]
                        == digits[j]);
            }
        }
        if acc > (i64::MAX - (d as i64)) / 10 {
            proof {
                let q = (i64::MAX - (d as i64)) / 10;
                assert(acc * 10 + d > i64::MAX) by (nonlinear_arith)
                    requires
                        acc > q,
                        q == (i64::MAX - (d as i64)) / 10,
                        0 <= d <= 9,
                ;
                if all_digits(digits) {
                    lemma_digits_val_prefix(digits, i - start + 1);
                    assert(digits_val(digits) > i64::MAX);
                }
            }
            return None;
        }
        acc = acc * 10 + (d as i64);
        i += 1;
    }
    proof {
        assert(digits.take(len - start) =~= digits);
    }
    if neg {
        Some(-acc)
    } else {
        Some(acc)
    }
}

/// The integer denoted by `s` when it fits an `i32`.
pub open spec fn spec_parse_i32(s: Seq<char>) -> Option<int> {
    match spec_parse_i64(s) {
        Some(v) => if i32::MIN <= v <= i32::MAX {
            Some(v)
        } else {
            None
        },
        None => None,
    }
}

/// Parse a decimal numeral into an `i32`; `None` on any other shape and on
/// values out of range.
pub fn parse_i32(s: &str) -> (r: Option<i32>)
    ensures
        r matches Some(v) ==> spec_parse_i32(s@) == Some(v as int),
        r is None ==> spec_parse_i32(s@) is None,
{
    match parse_i64(s) {
        Some(v) => {
            if i32::MIN as i64 <= v && v <= i32::MAX as i64 {
                Some(v as i32)
            } else {
                None
            }
        },
        None => None,
    }
}

/// The index of the first `.` in `s`, or `-1` when there is none.
pub open spec fn spec_first_dot(s: Seq<char>) -> int
    decreases s.len(),
{
    if s.len() == 0 {
        -1
    } else if s[0] == '.' {
        0
    } else if spec_first_dot(s.skip(1)) == -1 {
        -1
    } else {
        1 + spec_first_dot(s.skip(1))
    }
}

/// The whole seconds denoted by a decimal duration: an optionally signed
/// numeral with an optional fractional part, which is ignored.
pub open spec fn spec_parse_seconds(s: Seq<char>) -> Option<int> {
    if spec_first_dot(s) == -1 {
        spec_parse_i64(s)
    } else {
        let d = spec_first_dot(s);
        if all_digits(s.skip(d + 1)) {
            spec_parse_i64(s.take(d))
        } else {
            None
        }
    }
}

proof fn lemma_first_dot_range(s: Seq<char>)
    ensures
        -1 <= spec_first_dot(s) < s.len(),
        spec_first_dot(s) >= 0 ==> s[spec_first_dot(s)] == '.',
        spec_first_dot(s) >= 0 ==> forall|j: int| 0 <= j < spec_first_dot(s) ==> s[j] != '.',
        spec_first_dot(s) == -1 ==> forall|j: int| 0 <= j < s.len() ==> s[j] != '.',
    decreases s.len(),
{
    if s.len() > 0 && s[0] != '.' {
        lemma_first_dot_range(s.skip(1));
        if spec_first_dot(s) >= 0 {
            assert(s[spec_first_dot(s)] == s.skip(1)[spec_first_dot(s) - 1]);
            assert forall|j: int| 0 <= j < spec_first_dot(s) implies s[j] != '.' by {
                if j >= 1 {
                    assert(s[j] == s.skip(1)[j - 1]);
                }
            }
        } else {
            assert forall|j: int| 0 <= j < s.len() implies s[j] != '.' by {
                if j >= 1 {
                    assert(s[j] == s.skip(1)[j - 1]);
                }
            }
        }
    }
}

/// Find the first `.` in `s`.
fn find_first_dot(s: &str) -> (r: Option<usize>)
    ensures
        match r {
            Some(d) => spec_first_dot(s@) == d,
            None => spec_first_dot(s@) == -1,
        },
{
    proof {
        lemma_first_dot_range(s@);
    }
    let len = s.unicode_len();
    let mut i: usize = 0;
    while i < len
        invariant
            len == s@.len(),
            i <= len,
            forall|j: int| 0 <= j < i ==> s@[j] != '.',
            -1 <= spec_first_dot(s@) < s@.len(),
            spec_first_dot(s@) >= 0 ==> s@[spec_first_dot(s@)] == '.',
            spec_first_dot(s@) >= 0 ==> forall|j: int|
                0 <= j < spec_first_dot(s@) ==> s@[j] != '.',
            spec_first_dot(s@) == -1 ==> forall|j: int| 0 <= j < s@.len() ==> s@[j] != '.',
        decreases len - i,
    {
        if s.get_char(i) == '.' {
            return Some(i);
        }
        i += 1;
    }
    None
}

/// Parse a decimal duration (`seconds[.fraction]`) into whole seconds,
/// discarding the fraction; `None` on any other shape.
pub fn parse_seconds(s: &str) -> (r: Option<i64>)
    ensures
        r matches Some(v) ==> spec_parse_seconds(s@) == Some(v as int),
        r is None ==> spec_parse_seconds(s@) is None,
{
    match find_first_dot(s) {
        None => parse_i64(s),
        Some(d) => {
            proof {
                lemma_first_dot_range(s@);
            }
            let len = s.unicode_len();
            let frac = s.substring_char(d + 1, len);
            proof {
                assert(frac@ =~= s@.skip(d + 1));
            }
            let mut i: usize = 0;
            let flen = frac.unicode_len();
            while i < flen
                invariant
                    flen == frac@.len(),
                    i <= flen,
                    frac@ == s@.skip(d + 1),
                    spec_first_dot(s@) == d,
                    0 <= d < s@.len(),
                    forall|j: int| 0 <= j < i ==> is_digit(#[trigger] frac@[j]),
                decreases flen - i,
            {
                let c = frac.get_char(i);
                if c < '0' || c > '9' {
                    proof {
                        assert(!is_digit(s@.skip(d + 1)[i as int]));
                    }
                    return None;
                }
                i += 1;
            }
            let whole = s.substring_char(0, d);
            proof {
                assert(whole@ =~= s@.take(d as int));
            }
            parse_i64(whole)
        },
    }
}

/// The character for one decimal digit.
pub open spec fn spec_digit_char(d: int) -> char {
    if d == 0 {
        '0'
    } else if d == 1 {
        '1'
    } else if d == 2 {
        '2'
    } else if d == 3 {
        '3'
    } else if d == 4 {
        '4'
    } else if d == 5 {
        '5'
    } else if d == 6 {
        '6'
    } else if d == 7 {
        '7'
    } else if d == 8 {
        '8'
    } else {
        '9'
    }
}

fn digit_char(d: u64) -> (c: char)
    requires
        d < 10,
    ensures
        c == spec_digit_char(d as int),
{
    if d == 0 {
        '0'
    } else if d == 1 {
        '1'
    } else if d == 2 {
        '2'
    } else if d == 3 {
        '3'
    } else if d == 4 {
        '4'
    } else if d == 5 {
        '5'
    } else if d == 6 {
        '6'
    } else if d == 7 {
        '7'
    } else if d == 8 {
        '8'
    } else {
        '9'
    }
}

/// The decimal numeral of a non-negative integer, most significant digit
/// first, without leading zeroes (except for zero itself).
pub open spec fn spec_u64_string(n: int) -> Seq<char>
    decreases n,
{
    if n < 10 {
        seq![spec_digit_char(n)]
    } else {
        spec_u64_string(n / 10).push(spec_digit_char(n % 10))
    }
}

/// The decimal numeral of `v`, with a leading minus sign when negative.
pub open spec fn spec_i64_string(v: int) -> Seq<char> {
    if v < 0 {
        seq!['-'] + spec_u64_string(-v)
    } else {
        spec_u64_string(v)
    }
}

/// Render a non-negative integer in decimal.
pub fn u64_to_string(n: u64) -> (r: String)
    ensures
        r@ == spec_u64_string(n as int),
    decreases n,
{
    if n < 10 {
        let mut s = String::new();
        string_push(&mut s, digit_char(n));
        proof {
            assert(s@ =~= spec_u64_string(n as int));
        }
        s
    } else {
        let mut s = u64_to_string(n / 10);
        string_push(&mut s, digit_char(n % 10));
        s
    }
}

/// Render a signed integer in decimal.
pub fn i64_to_string(v: i64) -> (r: String)
    ensures
        r@ == spec_i64_string(v as int),
{
    if v < 0 {
        let mag: u64 = (-(v as i128)) as u64;
        let mut s = String::new();
        string_push(&mut s, '-');
        let digits = u64_to_string(mag);
        s.append(digits.as_str());
        proof {
            assert(s@ =~= spec_i64_string(v as int));
        }
        s
    } else {
        u64_to_string(v as u64)
    }
}

/// The numeral of `v` padded with a leading zero to at least two characters,
/// as the player shows small counters and clock fields.
pub open spec fn spec_pad2_string(v: int) -> Seq<char> {
    if 0 <= v < 10 {
        seq!['0'] + spec_u64_string(v)
    } else {
        spec_i64_string(v)
    }
}

/// Render a signed integer in decimal, zero-padded to two characters.
pub fn i64_to_string_pad2(v: i64) -> (r: String)
    ensures
        r@ == spec_pad2_string(v as int),
{
    if 0 <= v && v < 10 {
        let mut s = String::new();
        string_push(&mut s, '0');
        string_push(&mut s, digit_char(v as u64));
        proof {
            assert(s@ =~= spec_pad2_string(v as int));
        }
        s
    } else {
        i64_to_string(v)
    }
}

/// The non-empty `/`-separated names of a path-shaped string, in order,
/// collected with the partial segment `cur` at the front.
pub open spec fn spec_split_fwd(s: Seq<char>, cur: Seq<char>) -> Seq<Seq<char>>
    decreases s.len(),
{
    if s.len() == 0 {
        if cur.len() == 0 {
            Seq::empty()
        } else {
            seq![cur]
        }
    } else if s[0] == '/' {
        if cur.len() == 0 {
            spec_split_fwd(s.skip(1), Seq::empty())
        } else {
            seq![cur] + spec_split_fwd(s.skip(1), Seq::empty())
        }
    } else {
        spec_split_fwd(s.skip(1), cur.push(s[0]))
    }
}

/// The non-empty `/`-separated names of a path-shaped string, in order.
pub open spec fn spec_segments(s: Seq<char>) -> Seq<Seq<char>> {
    spec_split_fwd(s, Seq::empty())
}

/// Split a path-shaped string on `/`, dropping empty pieces.
pub fn path_segments(p: &str) -> (r: Vec<String>)
    ensures
        r.deep_view() == spec_segments(p@),
{
    let len = p.unicode_len();
    let mut out: Vec<String> = Vec::new();
    let mut cur: String = String::new();
    let mut i: usize = 0;
    proof {
        assert(p@.skip(0) =~= p@);
        assert(out.deep_view() =~= Seq::<Seq<char>>::empty());
        assert(Seq::<Seq<char>>::empty() + spec_split_fwd(p@, Seq::empty()) =~= spec_split_fwd(
            p@,
            Seq::empty(),
        ));
    }
    while i < len
        invariant
            len == p@.len(),
            i <= len,
            spec_segments(p@) == out.deep_view() + spec_split_fwd(p@.skip(i as int), cur@),
        decreases len - i,
    {
        let c = p.get_char(i);
        let ghost rest = p@.skip(i as int);
        proof {
            assert(rest[0] == p@[i as int]);
            assert(rest.skip(1) =~= p@.skip(i as int + 1));
        }
        if c == '/' {
            if cur.unicode_len() > 0 {
                let ghost old_out = out.deep_view();
                let ghost curv = cur@;
                out.push(cur);
                proof {
                    assert(out.deep_view() =~= old_out.push(curv));
                    assert(old_out.push(curv) =~= old_out + seq![curv]);
                    assert((old_out + seq![curv]) + spec_split_fwd(
                        p@.skip(i as int + 1),
                        Seq::empty(),
                    ) =~= old_out + (seq![curv] + spec_split_fwd(
                        p@.skip(i as int + 1),
                        Seq::empty(),
                    )));
                }
                cur = String::new();
            } else {
                proof {
                    assert(cur@ =~= Seq::<char>::empty());
                }
            }
        } else {
            string_push(&mut cur, c);
        }
        i += 1;
    }
    proof {
        assert(p@.skip(len as int) =~= Seq::<char>::empty());
    }
    if cur.unicode_len() > 0 {
        let ghost old_out = out.deep_view();
        out.push(cur);
        proof {
            assert(out.deep_view() =~= old_out.push(cur@));
            assert(old_out.push(cur@) =~= old_out + seq![cur@]);
        }
    }
    proof {
        assert(out.deep_view() =~= spec_segments(p@));
    }
    out
}

/// The names of a path from the file upward: the segments reversed.
pub open spec fn spec_rev_segments(s: Seq<char>) -> Seq<Seq<char>> {
    spec_segments(s).reverse()
}

/// The `/`-separated names of a path, innermost (file) first.
pub fn rev_segments(p: &str) -> (r: Vec<String>)
    ensures
        r.deep_view() == spec_rev_segments(p@),
{
    let segs = path_segments(p);
    let n = segs.len();
    let mut out: Vec<String> = Vec::new();
    let mut j: usize = n;
    while j > 0
        invariant
            n == segs.len(),
            j <= n,
            out.deep_view() =~= segs.deep_view().skip(j as int).reverse(),
        decreases j,
    {
        let ghost old_out = out.deep_view();
        out.push(segs[j - 1].clone());
        j -= 1;
        proof {
            assert(out.deep_view() =~= old_out.push(segs.deep_view()[j as int]));
            assert(out.deep_view() =~= segs.deep_view().skip(j as int).reverse());
        }
    }
    proof {
        assert(segs.deep_view().skip(0) =~= segs.deep_view());
    }
    out
}

/// Index of the last `.` in a name, or `-1` when there is none.
pub open spec fn spec_last_dot(s: Seq<char>) -> int
    decreases s.len(),
{
    if s.len() == 0 {
        -1
    } else if s.last() == '.' {
        s.len() - 1
    } else {
        spec_last_dot(s.drop_last())
    }
}

/// The stem of a file name: what stands before the final `.`, or the whole
/// name when there is no `.` past the first character.
pub open spec fn spec_stem_of_name(name: Seq<char>) -> Seq<char> {
    if spec_last_dot(name) <= 0 {
        name
    } else {
        name.take(spec_last_dot(name))
    }
}

/// The extension of a file name: what stands after the final `.`, when that
/// `.` is past the first character.
pub open spec fn spec_ext_of_name(name: Seq<char>) -> Option<Seq<char>> {
    if spec_last_dot(name) <= 0 {
        None
    } else {
        Some(name.skip(spec_last_dot(name) + 1))
    }
}

/// The file name of a path: its innermost segment.
pub open spec fn spec_file_name(p: Seq<char>) -> Option<Seq<char>> {
    if spec_segments(p).len() == 0 {
        None
    } else {
        Some(spec_segments(p).last())
    }
}

/// The stem of a path's file name, or empty when the path has no name.
pub open spec fn spec_file_stem(p: Seq<char>) -> Seq<char> {
    match spec_file_name(p) {
        None => Seq::empty(),
        Some(name) => spec_stem_of_name(name),
    }
}

/// The extension of a path's file name.
pub open spec fn spec_extension(p: Seq<char>) -> Option<Seq<char>> {
    match spec_file_name(p) {
        None => None,
        Some(name) => spec_ext_of_name(name),
    }
}

proof fn lemma_last_dot_range(s: Seq<char>)
    ensures
        -1 <= spec_last_dot(s) < s.len(),
        spec_last_dot(s) >= 0 ==> s[spec_last_dot(s)] == '.',
        forall|j: int| spec_last_dot(s) < j < s.len() ==> s[j] != '.',
    decreases s.len(),
{
    if s.len() > 0 && s.last() != '.' {
        lemma_last_dot_range(s.drop_last());
        assert forall|j: int| spec_last_dot(s) < j < s.len() implies s[j] != '.' by {
            if j < s.len() - 1 {
                assert(s.drop_last()[j] == s[j]);
            }
        }
    }
}

/// Find the last `.` in a name; `None` when there is none.
fn find_last_dot(s: &str) -> (r: Option<usize>)
    ensures
        match r {
            Some(d) => spec_last_dot(s@) == d,
            None => spec_last_dot(s@) == -1,
        },
{
    let len = s.unicode_len();
    let mut j: usize = len;
    proof {
        assert(s@.take(len as int) =~= s@);
    }
    while j > 0
        invariant
            len == s@.len(),
            j <= len,
            spec_last_dot(s@) == spec_last_dot(s@.take(j as int)),
        decreases j,
    {
        let c = s.get_char(j - 1);
        proof {
            assert(s@.take(j as int).last() == s@[j - 1]);
            assert(s@.take(j as int).drop_last() =~= s@.take(j as int - 1));
        }
        if c == '.' {
            return Some(j - 1);
        }
        j -= 1;
    }
    proof {
        assert(s@.take(0) =~= Seq::<char>::empty());
    }
    None
}

/// The stem of one file name.
pub fn stem_of_name(name: &str) -> (r: String)
    ensures
        r@ == spec_stem_of_name(name@),
{
    match find_last_dot(name) {
        Some(d) if d > 0 => {
            proof {
                lemma_last_dot_range(name@);
            }
            let sub = name.substring_char(0, d);
            sub.to_owned()
        },
        _ => name.to_owned(),
    }
}

/// The extension of one file name.
pub fn ext_of_name(name: &str) -> (r: Option<String>)
    ensures
        match r {
            Some(e) => spec_ext_of_name(name@) == Some(e@),
            None => spec_ext_of_name(name@) is None,
        },
{
    match find_last_dot(name) {
        Some(d) if d > 0 => {
            proof {
                lemma_last_dot_range(name@);
            }
            let len = name.unicode_len();
            let sub = name.substring_char(d + 1, len);
            proof {
                assert(name@.subrange(d + 1, len as int) =~= name@.skip(d + 1));
            }
            Some(sub.to_owned())
        },
        _ => None,
    }
}

/// The code point of `c`, with ASCII capitals folded to lower case.
pub open spec fn spec_lower_code(c: char) -> int {
    if 'A' <= c && c <= 'Z' {
        c as int + 32
    } else {
        c as int
    }
}

/// Case-insensitive (ASCII) equality of two character sequences.
pub open spec fn spec_eq_ci(a: Seq<char>, b: Seq<char>) -> bool {
    a.len() == b.len() && forall|i: int|
        0 <= i < a.len() ==> spec_lower_code(#[trigger] a[i]) == spec_lower_code(b[i])
}

/// Compare two strings, folding ASCII capitals to lower case.
pub fn str_eq_ci(a: &str, b: &str) -> (r: bool)
    ensures
        r == spec_eq_ci(a@, b@),
{
    let alen = a.unicode_len();
    let blen = b.unicode_len();
    if alen != blen {
        return false;
    }
    let mut i: usize = 0;
    while i < alen
        invariant
            alen == a@.len(),
            alen == b@.len(),
            i <= alen,
            forall|j: int| 0 <= j < i ==> spec_lower_code(#[trigger] a@[j]) == spec_lower_code(
                b@[j],
            ),
        decreases alen - i,
    {
        let ca = a.get_char(i) as u32;
        let cb = b.get_char(i) as u32;
        let la = if ca >= 65 && ca <= 90 {
            ca + 32
        } else {
            ca
        };
        let lb = if cb >= 65 && cb <= 90 {
            cb + 32
        } else {
            cb
        };
        if la != lb {
            return false;
        }
        i += 1;
    }
    true
}

/// Whether `s` begins with the given prefix.
pub open spec fn spec_starts_with(s: Seq<char>, prefix: Seq<char>) -> bool {
    s.len() >= prefix.len() && s.take(prefix.len() as int) == prefix
}

/// Whether `s` begins with `prefix`.
pub fn starts_with(s: &str, prefix: &str) -> (r: bool)
    ensures
        r == spec_starts_with(s@, prefix@),
{
    let slen = s.unicode_len();
    let plen = prefix.unicode_len();
    if slen < plen {
        return false;
    }
    let head = s.substring_char(0, plen);
    str_eq(head, prefix)
}

/// Everything of `s` past its first `n` characters.
pub fn skip_chars(s: &str, n: usize) -> (r: String)
    requires
        n <= s@.len(),
    ensures
        r@ == s@.skip(n as int),
{
    let len = s.unicode_len();
    let sub = s.substring_char(n, len);
    proof {
        assert(s@.subrange(n as int, len as int) =~= s@.skip(n as int));
    }
    sub.to_owned()
}

} // verus!
