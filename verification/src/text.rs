//! Character-level string helpers with exact specifications.
//!
//! Strings are modelled by their view, a `Seq<char>`. The executable helpers
//! work on `Vec<char>` so that indexing is constant time.

use vstd::prelude::*;

verus! {

broadcast use vstd::string::group_string_axioms;

// ---------------------------------------------------------------------------
// Specifications
// ---------------------------------------------------------------------------

/// `p` occurs in `s` at position `i`.
pub open spec fn occurs_at(s: Seq<char>, p: Seq<char>, i: int) -> bool {
    0 <= i && i + p.len() <= s.len() && s.subrange(i, i + p.len()) == p
}

/// `p` occurs somewhere in `s` (what `str::contains` answers; the empty
/// pattern occurs in every string).
pub open spec fn seq_contains(s: Seq<char>, p: Seq<char>) -> bool {
    exists|i: int| occurs_at(s, p, i)
}

/// `p` is a non-empty prefix of `s`.
pub open spec fn has_prefix(s: Seq<char>, p: Seq<char>) -> bool {
    p.len() <= s.len() && s.subrange(0, p.len() as int) == p
}

/// `p` is a suffix of `s`.
pub open spec fn has_suffix(s: Seq<char>, p: Seq<char>) -> bool {
    p.len() <= s.len() && s.subrange(s.len() - p.len(), s.len() as int) == p
}

/// `s` with every leading repetition of the non-empty pattern `p` removed
/// (`str::trim_start_matches`).
pub open spec fn trim_start_matches(s: Seq<char>, p: Seq<char>) -> Seq<char>
    decreases s.len(),
{
    if p.len() > 0 && has_prefix(s, p) {
        trim_start_matches(s.skip(p.len() as int), p)
    } else {
        s
    }
}

/// `s` with every trailing repetition of the non-empty pattern `p` removed
/// (`str::trim_end_matches`).
pub open spec fn trim_end_matches(s: Seq<char>, p: Seq<char>) -> Seq<char>
    decreases s.len(),
{
    if p.len() > 0 && has_suffix(s, p) {
        trim_end_matches(s.take(s.len() - p.len()), p)
    } else {
        s
    }
}

/// The pieces of `s` between occurrences of `sep` (`str::split` with a
/// `char` pattern): there is always at least one piece.
pub open spec fn split_on(s: Seq<char>, sep: char) -> Seq<Seq<char>>
    decreases s.len(),
{
    if s.len() == 0 {
        seq![Seq::<char>::empty()]
    } else {
        let pieces = split_on(s.drop_last(), sep);
        if s.last() == sep {
            pieces.push(Seq::<char>::empty())
        } else {
            pieces.update(pieces.len() - 1, pieces.last().push(s.last()))
        }
    }
}

/// The views of a sequence of character vectors.
pub open spec fn vec_views(v: Seq<Vec<char>>) -> Seq<Seq<char>> {
    Seq::new(v.len(), |i: int| v[i]@)
}

/// ASCII lower case of one character.
pub open spec fn ascii_lower_char(c: char) -> char {
    if 'A' <= c && c <= 'Z' {
        ((c as u32) + 32) as char
    } else {
        c
    }
}

/// ASCII lower case of a string (`str::to_ascii_lowercase`).
pub open spec fn ascii_lower(s: Seq<char>) -> Seq<char> {
    s.map_values(|c: char| ascii_lower_char(c))
}

/// The decimal digit character for `d < 10`.
pub open spec fn digit_char(d: nat) -> char {
    if d == 0 { '0' }
    else if d == 1 { '1' }
    else if d == 2 { '2' }
    else if d == 3 { '3' }
    else if d == 4 { '4' }
    else if d == 5 { '5' }
    else if d == 6 { '6' }
    else if d == 7 { '7' }
    else if d == 8 { '8' }
    else { '9' }
}

/// Decimal notation of a natural number, without leading zeros.
pub open spec fn nat_decimal(n: nat) -> Seq<char>
    decreases n,
{
    if n < 10 {
        seq![digit_char(n)]
    } else {
        nat_decimal(n / 10).push(digit_char(n % 10))
    }
}

/// Decimal notation of a signed integer, as `Display` writes it.
pub open spec fn int_decimal(v: int) -> Seq<char> {
    if v < 0 {
        seq!['-'] + nat_decimal((-v) as nat)
    } else {
        nat_decimal(v as nat)
    }
}

pub open spec fn is_digit(c: char) -> bool {
    '0' <= c && c <= '9'
}

pub open spec fn digit_value(c: char) -> int {
    (c as int) - ('0' as int)
}

pub open spec fn all_digits(s: Seq<char>) -> bool {
    forall|i: int| 0 <= i < s.len() ==> is_digit(#[trigger] s[i])
}

/// The value of a string of decimal digits.
pub open spec fn digits_value(s: Seq<char>) -> int
    decreases s.len(),
{
    if s.len() == 0 {
        0
    } else {
        digits_value(s.drop_last()) * 10 + digit_value(s.last())
    }
}

/// What `str::parse::<i64>` accepts and returns: an optional `+` or `-`,
/// then one or more decimal digits, whose value must fit in an `i64`.
pub open spec fn parse_i64_spec(s: Seq<char>) -> Option<i64> {
    if s.len() == 0 {
        None
    } else {
        let neg = s[0] == '-';
        let digits = if s[0] == '-' || s[0] == '+' { s.skip(1) } else { s };
        if digits.len() == 0 || !all_digits(digits) {
            None
        } else {
            let v = if neg { -digits_value(digits) } else { digits_value(digits) };
            if i64::MIN <= v <= i64::MAX {
                Some(v as i64)
            } else {
                None
            }
        }
    }
}

// ---------------------------------------------------------------------------
// Lemmas
// ---------------------------------------------------------------------------

/// The value of a digit string only grows as digits are appended.
pub proof fn lemma_digits_value_prefix(s: Seq<char>, k: int)
    requires
        0 <= k <= s.len(),
        all_digits(s),
    ensures
        0 <= digits_value(s.take(k)) <= digits_value(s),
    decreases s.len() - k,
{
    if k < s.len() {
        lemma_digits_value_prefix(s, k + 1);
        assert(s.take(k + 1).drop_last() =~= s.take(k));
        assert(is_digit(s[k]));
    } else {
        assert(s.take(k) =~= s);
        lemma_digits_value_nonneg(s);
    }
}

pub proof fn lemma_digits_value_nonneg(s: Seq<char>)
    requires
        all_digits(s),
    ensures
        digits_value(s) >= 0,
    decreases s.len(),
{
    if s.len() > 0 {
        lemma_digits_value_nonneg(s.drop_last());
        assert(is_digit(s[s.len() - 1]));
    }
}

pub proof fn lemma_digit_char(d: nat)
    requires
        d < 10,
    ensures
        is_digit(digit_char(d)),
        digit_value(digit_char(d)) == d,
{
}

/// Decimal notation is a non-empty string of digits whose value is the number.
pub proof fn lemma_nat_decimal(n: nat)
    ensures
        nat_decimal(n).len() > 0,
        all_digits(nat_decimal(n)),
        digits_value(nat_decimal(n)) == n,
    decreases n,
{
    if n < 10 {
        lemma_digit_char(n);
        let s = nat_decimal(n);
        assert(s.drop_last() =~= Seq::<char>::empty());
        assert(digits_value(s.drop_last()) == 0);
        assert(digits_value(s) == digits_value(s.drop_last()) * 10 + digit_value(s.last()));
    } else {
        lemma_nat_decimal(n / 10);
        lemma_digit_char(n % 10);
        let s = nat_decimal(n);
        assert(s.drop_last() =~= nat_decimal(n / 10));
        assert(s.last() == digit_char(n % 10));
        assert(digits_value(s) == digits_value(s.drop_last()) * 10 + digit_value(s.last()));
        assert((n / 10) * 10 + n % 10 == n);
        assert forall|i: int| 0 <= i < s.len() implies is_digit(#[trigger] s[i]) by {
            if i < s.len() - 1 {
                assert(s[i] == nat_decimal(n / 10)[i]);
            }
        }
    }
}

/// Splitting always yields at least one piece.
pub proof fn lemma_split_nonempty(s: Seq<char>, sep: char)
    ensures
        split_on(s, sep).len() >= 1,
    decreases s.len(),
{
    if s.len() > 0 {
        lemma_split_nonempty(s.drop_last(), sep);
    }
}

/// After trimming, the string no longer ends with the pattern.
pub proof fn lemma_trim_end_no_suffix(s: Seq<char>, p: Seq<char>)
    requires
        p.len() > 0,
    ensures
        !has_suffix(trim_end_matches(s, p), p),
    decreases s.len(),
{
    if has_suffix(s, p) {
        lemma_trim_end_no_suffix(s.take(s.len() - p.len()), p);
    }
}

/// A string without the separator is a single piece.
pub proof fn lemma_split_no_sep(s: Seq<char>, sep: char)
    requires
        forall|i: int| 0 <= i < s.len() ==> s[i] != sep,
    ensures
        split_on(s, sep) == seq![s],
    decreases s.len(),
{
    if s.len() > 0 {
        lemma_split_no_sep(s.drop_last(), sep);
        assert(s.drop_last().push(s.last()) =~= s);
    } else {
        assert(s =~= Seq::<char>::empty());
    }
}

/// When the first separator of `s` is at `k`, the first piece is the text
/// before it, and there is at least one more piece.
pub proof fn lemma_split_first_piece(s: Seq<char>, sep: char, k: int)
    requires
        0 <= k < s.len(),
        s[k] == sep,
        forall|i: int| 0 <= i < k ==> s[i] != sep,
    ensures
        split_on(s, sep).len() >= 2,
        split_on(s, sep)[0] == s.take(k),
    decreases s.len(),
{
    let d = s.drop_last();
    if s.len() == k + 1 {
        assert(d =~= s.take(k));
        lemma_split_no_sep(d, sep);
    } else {
        lemma_split_first_piece(d, sep, k);
        assert(d.take(k) =~= s.take(k));
    }
}

/// Trimming a one-character pattern from the end keeps a prefix of the
/// string, removes only that character, and leaves no trailing copy of it.
pub proof fn lemma_trim_end_char(s: Seq<char>, c: char)
    ensures
        ({
            let t = trim_end_matches(s, seq![c]);
            &&& t.len() <= s.len()
            &&& s.subrange(0, t.len() as int) == t
            &&& forall|i: int| t.len() <= i < s.len() ==> s[i] == c
            &&& (t.len() == 0 || t.last() != c)
        }),
    decreases s.len(),
{
    let p = seq![c];
    let t = trim_end_matches(s, p);
    if has_suffix(s, p) {
        let s2 = s.take(s.len() - 1);
        lemma_trim_end_char(s2, c);
        assert(t == trim_end_matches(s2, p));
        assert(s.subrange(s.len() - 1, s.len() as int)[0] == s[s.len() - 1]);
        assert(p[0] == c);
        assert(s[s.len() - 1] == c);
        assert(s.subrange(0, t.len() as int) =~= s2.subrange(0, t.len() as int));
        assert forall|i: int| t.len() <= i < s.len() implies s[i] == c by {
            if i < s2.len() {
                assert(s2[i] == s[i]);
            }
        }
    } else {
        assert(t == s);
        assert(s.subrange(0, s.len() as int) =~= s);
        if s.len() > 0 && s.last() == c {
            assert(s.subrange(s.len() - 1, s.len() as int) =~= p);
        }
    }
}

/// A pattern that occurs inside `p` occurs in every string that holds `p`.
pub proof fn lemma_contains_inner(s: Seq<char>, p: Seq<char>, q: Seq<char>, k: int)
    requires
        occurs_at(p, q, k),
        seq_contains(s, p),
    ensures
        seq_contains(s, q),
{
    let i = choose|i: int| occurs_at(s, p, i);
    assert(s.subrange(i + k, i + k + q.len()) =~= p.subrange(k, k + q.len()));
    assert(occurs_at(s, q, i + k));
}

/// Writing a number in decimal and parsing it back gives the number:
/// `str::parse::<i64>` undoes `i64::to_string`.
pub proof fn law_decimal_roundtrip(n: i64)
    ensures
        parse_i64_spec(int_decimal(n as int)) == Some(n),
{
    if n < 0 {
        let m = (-(n as int)) as nat;
        lemma_nat_decimal(m);
        let s = int_decimal(n as int);
        assert(s == seq!['-'] + nat_decimal(m));
        assert(s[0] == '-');
        assert(s.skip(1) =~= nat_decimal(m));
    } else {
        let m = n as nat;
        lemma_nat_decimal(m);
        let s = int_decimal(n as int);
        assert(is_digit(s[0]));
    }
}

/// Rewrites `trim_start_matches` after skipping `i` characters.
proof fn lemma_trim_start_step(s: Seq<char>, p: Seq<char>, i: int)
    requires
        p.len() > 0,
        0 <= i,
        i + p.len() <= s.len(),
        s.subrange(i, i + p.len()) == p,
    ensures
        trim_start_matches(s.skip(i), p) == trim_start_matches(s.skip(i + p.len()), p),
{
    let t = s.skip(i);
    assert(t.subrange(0, p.len() as int) =~= s.subrange(i, i + p.len()));
    assert(t.skip(p.len() as int) =~= s.skip(i + p.len()));
}

// ---------------------------------------------------------------------------
// Executable helpers
// ---------------------------------------------------------------------------

/// The Unicode lower-case mapping that `str::to_lowercase` applies; it
/// depends on the string alone.
pub uninterp spec fn unicode_lowercase(s: Seq<char>) -> Seq<char>;

/// `str::to_lowercase`. Trusted: the result is `unicode_lowercase` of the
/// input; nothing more about the mapping is stated.
#[verifier::external_body]
pub(crate) fn to_lowercase(s: &str) -> (r: String)
    ensures
        r@ == unicode_lowercase(s@),
{
    s.to_lowercase()
}

/// Appends one character to a `String` (`String::push`). Trusted: the
/// character is appended at the end.
#[verifier::external_body]
pub(crate) fn push_char(s: &mut String, c: char)
    ensures
        final(s)@ == old(s)@.push(c),
{
    s.push(c);
}

/// The characters of a string slice, in order.
pub fn chars_of(s: &str) -> (v: Vec<char>)
    ensures
        v@ == s@,
{
    let mut v: Vec<char> = Vec::new();
    for c in it: s.chars()
        invariant
            it.seq() == s@,
            v@ == it.seq().take(it.index() as int),
    {
        v.push(c);
    }
    v
}

/// A `String` holding `v[lo..hi]`.
pub fn string_from_range(v: &Vec<char>, lo: usize, hi: usize) -> (r: String)
    requires
        lo <= hi <= v.len(),
    ensures
        r@ == v@.subrange(lo as int, hi as int),
{
    let mut r = String::new();
    let mut i = lo;
    while i < hi
        invariant
            lo <= i <= hi <= v.len(),
            r@ == v@.subrange(lo as int, i as int),
        decreases hi - i,
    {
        push_char(&mut r, v[i]);
        assert(v@.subrange(lo as int, i + 1) =~= v@.subrange(lo as int, i as int).push(v@[i as int]));
        i = i + 1;
    }
    r
}

/// A `String` holding all of `v`.
pub fn string_from_chars(v: &Vec<char>) -> (r: String)
    ensures
        r@ == v@,
{
    let r = string_from_range(v, 0, v.len());
    assert(v@.subrange(0, v@.len() as int) =~= v@);
    r
}

/// Appends the characters of `t` to `out`.
pub fn push_all(out: &mut Vec<char>, t: &Vec<char>)
    ensures
        final(out)@ == old(out)@ + t@,
{
    let mut i: usize = 0;
    while i < t.len()
        invariant
            i <= t.len(),
            out@ == old(out)@ + t@.take(i as int),
        decreases t.len() - i,
    {
        out.push(t[i]);
        assert(t@.take(i + 1) =~= t@.take(i as int).push(t@[i as int]));
        i = i + 1;
    }
    assert(t@.take(t.len() as int) =~= t@);
}

/// Appends the characters of the string `t` to `out`.
pub fn push_str_chars(out: &mut Vec<char>, t: &str)
    ensures
        final(out)@ == old(out)@ + t@,
{
    let tv = chars_of(t);
    push_all(out, &tv);
}

/// Whether `p` occurs in `s` at position `i`.
pub fn occurs_at_exec(s: &Vec<char>, p: &Vec<char>, i: usize) -> (r: bool)
    requires
        i + p.len() <= s.len(),
    ensures
        r == occurs_at(s@, p@, i as int),
{
    let mut j: usize = 0;
    while j < p.len()
        invariant
            i + p.len() <= s.len(),
            j <= p.len(),
            forall|m: int| 0 <= m < j ==> s@[i + m] == p@[m],
        decreases p.len() - j,
    {
        if s[i + j] != p[j] {
            assert(s@.subrange(i as int, i + p.len())[j as int] != p@[j as int]);
            return false;
        }
        j = j + 1;
    }
    assert(s@.subrange(i as int, i + p.len()) =~= p@);
    true
}

/// Whether two character vectors are equal.
pub fn chars_eq(a: &Vec<char>, b: &Vec<char>) -> (r: bool)
    ensures
        r == (a@ == b@),
{
    if a.len() != b.len() {
        return false;
    }
    let r = occurs_at_exec(a, b, 0);
    assert(a@.subrange(0, b@.len() as int) =~= a@);
    r
}

/// Whether two strings are equal.
pub fn str_eq(a: &str, b: &str) -> (r: bool)
    ensures
        r == (a@ == b@),
{
    let av = chars_of(a);
    let bv = chars_of(b);
    chars_eq(&av, &bv)
}

/// Whether `p` occurs anywhere in `s` (`str::contains`).
pub fn contains_exec(s: &Vec<char>, p: &Vec<char>) -> (r: bool)
    ensures
        r == seq_contains(s@, p@),
{
    if p.len() == 0 {
        assert(s@.subrange(0, 0) =~= p@);
        assert(occurs_at(s@, p@, 0));
        return true;
    }
    if p.len() > s.len() {
        return false;
    }
    let n = s.len() - p.len();
    let mut i: usize = 0;
    while i <= n
        invariant
            p.len() <= s.len(),
            n == s.len() - p.len(),
            n < s.len(),
            i <= n + 1,
            forall|k: int| 0 <= k < i ==> !occurs_at(s@, p@, k),
        decreases n + 1 - i,
    {
        if occurs_at_exec(s, p, i) {
            return true;
        }
        i = i + 1;
    }
    false
}

/// Whether the string `p` occurs in the string `s`.
pub fn str_contains(s: &str, p: &str) -> (r: bool)
    ensures
        r == seq_contains(s@, p@),
{
    let sv = chars_of(s);
    let pv = chars_of(p);
    contains_exec(&sv, &pv)
}

/// `s` with leading repetitions of the non-empty pattern `p` removed.
pub fn trim_start_exec(s: &Vec<char>, p: &Vec<char>) -> (r: Vec<char>)
    ensures
        r@ == trim_start_matches(s@, p@),
{
    let mut i: usize = 0;
    assert(s@.skip(0) =~= s@);
    while p.len() > 0 && p.len() <= s.len() - i && occurs_at_exec(s, p, i)
        invariant
            i <= s.len(),
            trim_start_matches(s@, p@) == trim_start_matches(s@.skip(i as int), p@),
        decreases s.len() - i,
    {
        proof {
            lemma_trim_start_step(s@, p@, i as int);
        }
        i = i + p.len();
    }
    proof {
        let t = s@.skip(i as int);
        if p.len() > 0 && has_prefix(t, p@) {
            assert(t.subrange(0, p.len() as int) =~= s@.subrange(i as int, i + p.len()));
        }
    }
    let mut r: Vec<char> = Vec::new();
    let mut k = i;
    while k < s.len()
        invariant
            i <= k <= s.len(),
            r@ == s@.subrange(i as int, k as int),
        decreases s.len() - k,
    {
        r.push(s[k]);
        assert(s@.subrange(i as int, k + 1) =~= s@.subrange(i as int, k as int).push(s@[k as int]));
        k = k + 1;
    }
    assert(r@ =~= s@.skip(i as int));
    r
}

/// `s` with trailing repetitions of the non-empty pattern `p` removed.
pub fn trim_end_exec(s: &Vec<char>, p: &Vec<char>) -> (r: Vec<char>)
    ensures
        r@ == trim_end_matches(s@, p@),
{
    let mut i: usize = s.len();
    assert(s@.take(s.len() as int) =~= s@);
    while p.len() > 0 && p.len() <= i && occurs_at_exec(s, p, i - p.len())
        invariant
            i <= s.len(),
            trim_end_matches(s@, p@) == trim_end_matches(s@.take(i as int), p@),
        decreases i,
    {
        proof {
            let t = s@.take(i as int);
            assert(t.subrange(t.len() - p.len(), t.len() as int) =~= s@.subrange(
                i - p.len(),
                i as int,
            ));
            assert(t.take(t.len() - p.len()) =~= s@.take(i - p.len()));
        }
        i = i - p.len();
    }
    proof {
        let t = s@.take(i as int);
        if p.len() > 0 && has_suffix(t, p@) {
            assert(t.subrange(t.len() - p.len(), t.len() as int) =~= s@.subrange(
                i - p.len(),
                i as int,
            ));
        }
    }
    let mut r: Vec<char> = Vec::new();
    let mut k: usize = 0;
    while k < i
        invariant
            k <= i <= s.len(),
            r@ == s@.take(k as int),
        decreases i - k,
    {
        r.push(s[k]);
        assert(s@.take(k + 1) =~= s@.take(k as int).push(s@[k as int]));
        k = k + 1;
    }
    r
}

/// The pieces of `s` between occurrences of `sep`.
pub fn split_exec(s: &Vec<char>, sep: char) -> (r: Vec<Vec<char>>)
    ensures
        vec_views(r@) == split_on(s@, sep),
{
    let mut pieces: Vec<Vec<char>> = Vec::new();
    let mut cur: Vec<char> = Vec::new();
    let mut i: usize = 0;
    assert(s@.take(0) =~= Seq::<char>::empty());
    assert(vec_views(pieces@).push(cur@) =~= seq![Seq::<char>::empty()]);
    while i < s.len()
        invariant
            i <= s.len(),
            split_on(s@.take(i as int), sep) == vec_views(pieces@).push(cur@),
        decreases s.len() - i,
    {
        let ghost before = vec_views(pieces@);
        let ghost cur_before = cur@;
        assert(s@.take(i + 1).drop_last() =~= s@.take(i as int));
        if s[i] == sep {
            pieces.push(cur);
            cur = Vec::new();
            assert(vec_views(pieces@) =~= before.push(cur_before));
        } else {
            cur.push(s[i]);
            assert(vec_views(pieces@).push(cur@) =~= before.push(cur_before).update(
                before.len() as int,
                cur_before.push(s@[i as int]),
            ));
        }
        i = i + 1;
    }
    assert(s@.take(s.len() as int) =~= s@);
    let ghost before = vec_views(pieces@);
    pieces.push(cur);
    assert(vec_views(pieces@) =~= before.push(cur@));
    pieces
}

/// ASCII lower case of `s` (`str::to_ascii_lowercase`).
pub fn ascii_lower_exec(s: &Vec<char>) -> (r: Vec<char>)
    ensures
        r@ == ascii_lower(s@),
{
    let mut r: Vec<char> = Vec::new();
    let mut i: usize = 0;
    while i < s.len()
        invariant
            i <= s.len(),
            r@ == ascii_lower(s@.take(i as int)),
        decreases s.len() - i,
    {
        let c = s[i];
        let l = if 'A' <= c && c <= 'Z' {
            ((c as u32 + 32) as u8) as char
        } else {
            c
        };
        assert(l == ascii_lower_char(c));
        r.push(l);
        assert(ascii_lower(s@.take(i + 1)) =~= ascii_lower(s@.take(i as int)).push(
            ascii_lower_char(s@[i as int]),
        ));
        i = i + 1;
    }
    assert(s@.take(s.len() as int) =~= s@);
    r
}

/// The digit character for `d < 10`.
pub fn digit_char_exec(d: u64) -> (c: char)
    requires
        d < 10,
    ensures
        c == digit_char(d as nat),
{
    if d == 0 { '0' }
    else if d == 1 { '1' }
    else if d == 2 { '2' }
    else if d == 3 { '3' }
    else if d == 4 { '4' }
    else if d == 5 { '5' }
    else if d == 6 { '6' }
    else if d == 7 { '7' }
    else if d == 8 { '8' }
    else { '9' }
}

/// Appends the decimal notation of `n`.
pub fn push_decimal(n: u64, out: &mut Vec<char>)
    ensures
        final(out)@ == old(out)@ + nat_decimal(n as nat),
    decreases n,
{
    if n >= 10 {
        push_decimal(n / 10, out);
    }
    let d = digit_char_exec(n % 10);
    out.push(d);
    if n >= 10 {
        assert(nat_decimal(n as nat) == nat_decimal((n / 10) as nat).push(d));
    } else {
        assert(nat_decimal(n as nat) == seq![d]);
    }
}

/// Decimal notation of an unsigned number.
pub fn u64_decimal(n: u64) -> (r: Vec<char>)
    ensures
        r@ == nat_decimal(n as nat),
{
    let mut r: Vec<char> = Vec::new();
    push_decimal(n, &mut r);
    assert(r@ =~= nat_decimal(n as nat));
    r
}

/// Decimal notation of a signed number, as `i64::to_string` writes it.
pub fn i64_decimal(v: i64) -> (r: Vec<char>)
    ensures
        r@ == int_decimal(v as int),
{
    if v < 0 {
        let mag: u64 = if v == i64::MIN {
            9223372036854775808u64
        } else {
            (-v) as u64
        };
        let mut r: Vec<char> = Vec::new();
        r.push('-');
        push_decimal(mag, &mut r);
        assert(r@ =~= seq!['-'] + nat_decimal((-(v as int)) as nat));
        r
    } else {
        u64_decimal(v as u64)
    }
}

/// Decimal notation of a signed number as a `String`.
pub fn i64_to_string(v: i64) -> (r: String)
    ensures
        r@ == int_decimal(v as int),
{
    let d = i64_decimal(v);
    string_from_chars(&d)
}

/// Parses a decimal `i64` as `str::parse::<i64>` does.
pub fn parse_i64_exec(s: &Vec<char>) -> (r: Option<i64>)
    ensures
        r == parse_i64_spec(s@),
{
    if s.len() == 0 {
        return None;
    }
    let neg = s[0] == '-';
    let start: usize = if s[0] == '-' || s[0] == '+' { 1 } else { 0 };
    let ghost digits = if s@[0] == '-' || s@[0] == '+' { s@.skip(1) } else { s@ };
    assert(digits =~= s@.skip(start as int));
    if start == s.len() {
        return None;
    }
    let limit: u128 = if neg { 9223372036854775808u128 } else { 9223372036854775807u128 };
    let mut acc: u128 = 0;
    let mut i: usize = start;
    while i < s.len()
        invariant
            start <= i <= s.len(),
            start < s.len(),
            s.len() > 0,
            neg == (s@[0] == '-'),
            digits == (if s@[0] == '-' || s@[0] == '+' { s@.skip(1) } else { s@ }),
            digits =~= s@.skip(start as int),
            limit == (if neg { 9223372036854775808u128 } else { 9223372036854775807u128 }),
            all_digits(digits.take(i - start)),
            acc as int == digits_value(digits.take(i - start)),
            acc <= limit,
        decreases s.len() - i,
    {
        let c = s[i];
        let ghost k = (i - start) as int;
        assert(digits[k] == c);
        if !('0' <= c && c <= '9') {
            assert(!all_digits(digits));
            return None;
        }
        let d = (c as u32 - '0' as u32) as u128;
        assert(digits.take(k + 1).drop_last() =~= digits.take(k));
        assert(all_digits(digits.take(k + 1)));
        acc = acc * 10 + d;
        if acc > limit {
            proof {
                // Either a later character is not a digit, or the whole
                // value is at least `acc`: both make the parse fail.
                if all_digits(digits) {
                    lemma_digits_value_prefix(digits, k + 1);
                }
            }
            return None;
        }
        i = i + 1;
    }
    assert(digits.take(digits.len() as int) =~= digits);
    if neg {
        if acc == 9223372036854775808u128 {
            Some(i64::MIN)
        } else {
            Some(-(acc as i64))
        }
    } else {
        Some(acc as i64)
    }
}

} // verus!
