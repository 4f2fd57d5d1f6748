//! Character-level text utilities with exact specifications.

use vstd::prelude::*;

verus! {

broadcast use vstd::string::group_string_axioms;

/// Unicode `White_Space` property (the set that `char::is_whitespace` tests).
pub open spec fn is_ws(c: char) -> bool {
    let u = c as u32;
    (0x09 <= u <= 0x0D) || u == 0x20 || u == 0x85 || u == 0xA0 || u == 0x1680
        || (0x2000 <= u <= 0x200A) || u == 0x2028 || u == 0x2029 || u == 0x202F
        || u == 0x205F || u == 0x3000
}

/// Whether `c` is Unicode whitespace.
pub fn is_whitespace(c: char) -> (b: bool)
    ensures
        b == is_ws(c),
{
    let u = c as u32;
    (0x09 <= u && u <= 0x0D) || u == 0x20 || u == 0x85 || u == 0xA0 || u == 0x1680
        || (0x2000 <= u && u <= 0x200A) || u == 0x2028 || u == 0x2029 || u == 0x202F
        || u == 0x205F || u == 0x3000
}

/// The characters of a string slice.
pub fn chars_of(s: &str) -> (v: Vec<char>)
    ensures
        v@ == s@,
{
    let mut v: Vec<char> = Vec::new();
    for c in it: s.chars()
        invariant
            v@ == it.seq().take(it.index() as int),
    {
        v.push(c);
    }
    v
}


/// Appends `c` to `s` (`String::push`).
#[verifier::external_body]
fn push_char(s: &mut String, c: char)
    ensures
        final(s)@ == old(s)@.push(c),
{
    s.push(c);
}

/// A string holding exactly the given characters.
pub fn string_of(v: &[char]) -> (s: String)
    ensures
        s@ == v@,
{
    let mut s = String::new();
    for i in 0..v.len()
        invariant
            s@ == v@.take(i as int),
    {
        push_char(&mut s, v[i]);
        assert(v@.take(i as int).push(v@[i as int]) =~= v@.take(i + 1));
    }
    assert(v@.take(v@.len() as int) =~= v@);
    s
}

/// `s` with leading whitespace removed.
pub open spec fn trim_start_seq(s: Seq<char>) -> Seq<char>
    decreases s.len(),
{
    if s.len() > 0 && is_ws(s[0]) {
        trim_start_seq(s.drop_first())
    } else {
        s
    }
}

/// `s` with trailing whitespace removed.
pub open spec fn trim_end_seq(s: Seq<char>) -> Seq<char>
    decreases s.len(),
{
    if s.len() > 0 && is_ws(s.last()) {
        trim_end_seq(s.drop_last())
    } else {
        s
    }
}

/// `s` with leading and trailing whitespace removed (`str::trim`).
pub open spec fn trim_seq(s: Seq<char>) -> Seq<char> {
    trim_end_seq(trim_start_seq(s))
}

/// The characters of `v` with leading and trailing whitespace removed.
pub fn trim_chars(v: &[char]) -> (r: Vec<char>)
    ensures
        r@ == trim_seq(v@),
{
    let n = v.len();
    let mut i: usize = 0;
    assert(v@.subrange(0, n as int) =~= v@);
    while i < n && is_whitespace(v[i])
        invariant
            i <= n,
            n == v@.len(),
            trim_start_seq(v@) == trim_start_seq(v@.subrange(i as int, n as int)),
        decreases n - i,
    {
        assert(v@.subrange(i as int, n as int).drop_first() =~= v@.subrange(i + 1, n as int));
        i += 1;
    }
    let ghost t = v@.subrange(i as int, n as int);
    assert(trim_start_seq(t) == t);
    let mut j: usize = n;
    while j > i && is_whitespace(v[j - 1])
        invariant
            i <= j <= n,
            n == v@.len(),
            t == v@.subrange(i as int, n as int),
            trim_end_seq(t) == trim_end_seq(v@.subrange(i as int, j as int)),
        decreases j,
    {
        assert(v@.subrange(i as int, j as int).drop_last() =~= v@.subrange(i as int, j - 1));
        j -= 1;
    }
    let mut r: Vec<char> = Vec::new();
    let mut k: usize = i;
    while k < j
        invariant
            i <= k <= j,
            j <= n,
            n == v@.len(),
            r@ == v@.subrange(i as int, k as int),
        decreases j - k,
    {
        r.push(v[k]);
        assert(v@.subrange(i as int, k as int).push(v@[k as int]) =~= v@.subrange(i as int, k + 1));
        k += 1;
    }
    r
}

/// The characters of `s` with leading and trailing whitespace removed.
pub fn trim_str(s: &str) -> (r: Vec<char>)
    ensures
        r@ == trim_seq(s@),
{
    let v = chars_of(s);
    trim_chars(v.as_slice())
}

/// ASCII lowercase of one character (`char::to_ascii_lowercase`).
pub open spec fn lower_char(c: char) -> char {
    if 'A' <= c <= 'Z' {
        ((c as u32) + 32) as char
    } else {
        c
    }
}

/// ASCII lowercase of a character sequence.
pub open spec fn lower_seq(s: Seq<char>) -> Seq<char> {
    s.map_values(|c: char| lower_char(c))
}

/// The ASCII lowercase of `c`.
pub fn to_lower_char(c: char) -> (r: char)
    ensures
        r == lower_char(c),
{
    if 'A' <= c && c <= 'Z' {
        let b = (c as u8) + 32;
        b as char
    } else {
        c
    }
}

/// The ASCII lowercase of `v`.
pub fn to_lower_chars(v: &[char]) -> (r: Vec<char>)
    ensures
        r@ == lower_seq(v@),
{
    let mut r: Vec<char> = Vec::new();
    for i in 0..v.len()
        invariant
            r@ == lower_seq(v@.take(i as int)),
    {
        r.push(to_lower_char(v[i]));
        assert(lower_seq(v@.take(i as int)).push(lower_char(v@[i as int])) =~= lower_seq(v@.take(i + 1)));
    }
    assert(v@.take(v@.len() as int) =~= v@);
    r
}

/// Whether two character sequences are equal.
pub fn chars_eq(a: &[char], b: &[char]) -> (r: bool)
    ensures
        r == (a@ == b@),
{
    if a.len() != b.len() {
        return false;
    }
    for i in 0..a.len()
        invariant
            a@.len() == b@.len(),
            forall|k: int| 0 <= k < i ==> a@[k] == b@[k],
    {
        if a[i] != b[i] {
            return false;
        }
    }
    assert(a@ =~= b@);
    true
}

/// Whether the characters `v` spell the literal `lit`.
pub fn chars_eq_str(v: &[char], lit: &str) -> (r: bool)
    ensures
        r == (v@ == lit@),
{
    let l = chars_of(lit);
    chars_eq(v, l.as_slice())
}


/// An ASCII decimal digit.
pub open spec fn is_digit(c: char) -> bool {
    '0' <= c <= '9'
}

/// The value of an ASCII decimal digit.
pub open spec fn digit_val(c: char) -> nat {
    ((c as u32) - 48) as nat
}

/// Every character of `s` is an ASCII decimal digit.
pub open spec fn all_digits(s: Seq<char>) -> bool {
    forall|i: int| 0 <= i < s.len() ==> is_digit(#[trigger] s[i])
}

/// The number that the decimal digits `s` spell (0 for the empty sequence).
pub open spec fn dec_value(s: Seq<char>) -> nat
    decreases s.len(),
{
    if s.len() == 0 {
        0
    } else {
        dec_value(s.drop_last()) * 10 + digit_val(s.last())
    }
}

/// What `str::parse` into an unsigned integer type whose largest value is `max`
/// gives: an optional `+`, then at least one ASCII digit, and a value that fits.
pub open spec fn parse_unsigned_spec(s: Seq<char>, max: nat) -> Option<nat> {
    let d = if s.len() > 0 && s[0] == '+' { s.drop_first() } else { s };
    if d.len() > 0 && all_digits(d) && dec_value(d) <= max {
        Some(dec_value(d))
    } else {
        None
    }
}

/// What `str::parse::<i64>` gives.
pub open spec fn parse_i64_spec(s: Seq<char>) -> Option<int> {
    if s.len() > 0 && s[0] == '-' {
        let d = s.drop_first();
        if d.len() > 0 && all_digits(d) && dec_value(d) <= 0x8000_0000_0000_0000 {
            Some(-(dec_value(d) as int))
        } else {
            None
        }
    } else {
        match parse_unsigned_spec(s, 0x7fff_ffff_ffff_ffff) {
            Some(v) => Some(v as int),
            None => None,
        }
    }
}

/// A longer prefix of digits never spells a smaller number.
pub proof fn lemma_dec_value_prefix_mono(s: Seq<char>, i: int, j: int)
    requires
        0 <= i <= j <= s.len(),
    ensures
        dec_value(s.take(i)) <= dec_value(s.take(j)),
    decreases j - i,
{
    if i < j {
        lemma_dec_value_prefix_mono(s, i, j - 1);
        assert(s.take(j).drop_last() =~= s.take(j - 1));
    }
}

/// Whether `c` is an ASCII decimal digit.
pub fn is_ascii_digit(c: char) -> (b: bool)
    ensures
        b == is_digit(c),
{
    '0' <= c && c <= '9'
}

/// Whether every character of `v` is an ASCII decimal digit (true when `v` is empty).
pub fn all_ascii_digits(v: &[char]) -> (b: bool)
    ensures
        b == all_digits(v@),
{
    for i in 0..v.len()
        invariant
            forall|k: int| 0 <= k < i ==> is_digit(#[trigger] v@[k]),
    {
        if !is_ascii_digit(v[i]) {
            return false;
        }
    }
    true
}

/// The value of the digits `v[from..]` when it is at most `max`.
fn digits_value_upto(v: &[char], from: usize, max: u64) -> (r: Option<u64>)
    requires
        from <= v@.len(),
    ensures
        ({
            let d = v@.subrange(from as int, v@.len() as int);
            match r {
                Some(x) => d.len() > 0 && all_digits(d) && dec_value(d) <= max && x == dec_value(d),
                None => !(d.len() > 0 && all_digits(d) && dec_value(d) <= max),
            }
        }),
{
    let ghost d = v@.subrange(from as int, v@.len() as int);
    if from == v.len() {
        return None;
    }
    let mut acc: u64 = 0;
    let mut i: usize = from;
    assert(d.take(0) =~= Seq::<char>::empty());
    while i < v.len()
        invariant
            from <= i <= v@.len(),
            d == v@.subrange(from as int, v@.len() as int),
            all_digits(d.take(i - from)),
            acc == dec_value(d.take(i - from)),
            acc <= max,
        decreases v@.len() - i,
    {
        let c = v[i];
        assert(d[i - from] == c);
        if !is_ascii_digit(c) {
            assert(!is_digit(d[i - from]));
            return None;
        }
        let dv = (c as u32 - 48) as u64;
        assert(d.take(i - from + 1).drop_last() =~= d.take(i - from));
        assert(d.take(i - from + 1).last() == c);
        if dv > max || acc > (max - dv) / 10 {
            assert(dec_value(d.take(i - from + 1)) > max) by (nonlinear_arith)
                requires
                    dec_value(d.take(i - from + 1)) == acc * 10 + dv,
                    dv > max || acc > (max - dv) / 10,
            {
            }
            proof {
                lemma_dec_value_prefix_mono(d, i - from + 1, d.len() as int);
                assert(d.take(d.len() as int) =~= d);
            }
            return None;
        }
        assert(acc * 10 + dv <= max) by (nonlinear_arith)
            requires
                acc <= (max - dv) / 10,
                dv <= max,
        {
        }
        acc = acc * 10 + dv;
        assert(all_digits(d.take(i - from + 1)));
        i += 1;
    }
    assert(d.take(d.len() as int) =~= d);
    Some(acc)
}

/// `str::parse` into an unsigned integer type whose largest value is `max`.
pub fn parse_unsigned(v: &[char], max: u64) -> (r: Option<u64>)
    ensures
        r matches Some(x) ==> parse_unsigned_spec(v@, max as nat) == Some(x as nat),
        r is None ==> parse_unsigned_spec(v@, max as nat) is None,
{
    let from: usize = if v.len() > 0 && v[0] == '+' { 1 } else { 0 };
    assert(v@.subrange(from as int, v@.len() as int) =~= (if v@.len() > 0 && v@[0] == '+' {
        v@.drop_first()
    } else {
        v@
    }));
    digits_value_upto(v, from, max)
}

/// `str::parse::<i64>`.
pub fn parse_i64(v: &[char]) -> (r: Option<i64>)
    ensures
        r matches Some(x) ==> parse_i64_spec(v@) == Some(x as int),
        r is None ==> parse_i64_spec(v@) is None,
{
    if v.len() > 0 && v[0] == '-' {
        assert(v@.subrange(1, v@.len() as int) =~= v@.drop_first());
        match digits_value_upto(v, 1, 0x8000_0000_0000_0000) {
            Some(x) => {
                if x == 0x8000_0000_0000_0000 {
                    Some(i64::MIN)
                } else {
                    Some(-(x as i64))
                }
            },
            None => None,
        }
    } else {
        match parse_unsigned(v, 0x7fff_ffff_ffff_ffff) {
            Some(x) => Some(x as i64),
            None => None,
        }
    }
}

/// The decimal digit character for `d < 10`.
pub open spec fn digit_char(d: nat) -> char {
    ((d + 48) as u32) as char
}

/// The decimal representation of `n` (`Display` of an unsigned integer).
pub open spec fn dec_string(n: nat) -> Seq<char>
    decreases n,
{
    if n < 10 {
        seq![digit_char(n)]
    } else {
        dec_string(n / 10).push(digit_char(n % 10))
    }
}

/// The decimal digits of `n`.
pub fn u64_to_dec(n: u64) -> (r: Vec<char>)
    ensures
        r@ == dec_string(n as nat),
    decreases n,
{
    let d = (n % 10) as u8;
    let c = (48u8 + d) as char;
    if n < 10 {
        let mut r: Vec<char> = Vec::new();
        r.push(c);
        assert(r@ =~= seq![digit_char(n as nat)]);
        r
    } else {
        let mut r = u64_to_dec(n / 10);
        r.push(c);
        r
    }
}

/// The decimal representation of `n` as a string.
pub fn u64_to_string(n: u64) -> (s: String)
    ensures
        s@ == dec_string(n as nat),
{
    let v = u64_to_dec(n);
    string_of(v.as_slice())
}


/// The pieces of `s` between separators (`str::split` with a set of separator
/// characters): always at least one piece, empty pieces kept.
pub open spec fn split_seq(s: Seq<char>, seps: Seq<char>) -> Seq<Seq<char>>
    decreases s.len(),
{
    if s.len() == 0 {
        seq![Seq::<char>::empty()]
    } else {
        let p = split_seq(s.drop_last(), seps);
        if seps.contains(s.last()) {
            p.push(Seq::<char>::empty())
        } else {
            p.update(p.len() - 1, p.last().push(s.last()))
        }
    }
}

/// The views of a list of character vectors.
pub open spec fn views(v: Seq<Vec<char>>) -> Seq<Seq<char>> {
    v.map_values(|p: Vec<char>| p@)
}

/// A split result is never empty.
pub proof fn lemma_split_nonempty(s: Seq<char>, seps: Seq<char>)
    ensures
        split_seq(s, seps).len() >= 1,
    decreases s.len(),
{
    if s.len() > 0 {
        lemma_split_nonempty(s.drop_last(), seps);
    }
}

/// Whether `c` is one of `seps`.
pub fn is_one_of(c: char, seps: &[char]) -> (b: bool)
    ensures
        b == seps@.contains(c),
{
    for i in 0..seps.len()
        invariant
            forall|k: int| 0 <= k < i ==> seps@[k] != c,
    {
        if seps[i] == c {
            return true;
        }
    }
    false
}

/// Splits `v` at every character of `seps`.
pub fn split_chars(v: &[char], seps: &[char]) -> (r: Vec<Vec<char>>)
    ensures
        views(r@) == split_seq(v@, seps@),
{
    let mut parts: Vec<Vec<char>> = Vec::new();
    let mut cur: Vec<char> = Vec::new();
    assert(v@.take(0) =~= Seq::<char>::empty());
    assert(views(parts@).push(cur@) =~= split_seq(v@.take(0), seps@));
    for i in 0..v.len()
        invariant
            views(parts@).push(cur@) == split_seq(v@.take(i as int), seps@),
    {
        let c = v[i];
        let ghost prev = views(parts@).push(cur@);
        assert(v@.take(i + 1).drop_last() =~= v@.take(i as int));
        assert(v@.take(i + 1).last() == c);
        if is_one_of(c, seps) {
            parts.push(cur);
            cur = Vec::new();
            assert(views(parts@).push(cur@) =~= prev.push(Seq::<char>::empty()));
        } else {
            cur.push(c);
            assert(views(parts@).push(cur@) =~= prev.update(prev.len() - 1, prev.last().push(c)));
        }
    }
    assert(v@.take(v@.len() as int) =~= v@);
    parts.push(cur);
    parts
}


/// Splitting at a separator splits the two sides independently.
pub proof fn lemma_split_concat(s: Seq<char>, d: char, t: Seq<char>, seps: Seq<char>)
    requires
        seps.contains(d),
    ensures
        split_seq(s + seq![d] + t, seps) == split_seq(s, seps) + split_seq(t, seps),
    decreases t.len(),
{
    if t.len() == 0 {
        assert((s + seq![d] + t).drop_last() =~= s);
        assert(split_seq(t, seps) =~= seq![Seq::<char>::empty()]);
        assert(split_seq(s + seq![d] + t, seps) =~= split_seq(s, seps) + split_seq(t, seps));
    } else {
        let t2 = t.drop_last();
        lemma_split_concat(s, d, t2, seps);
        lemma_split_nonempty(t2, seps);
        assert((s + seq![d] + t).drop_last() =~= s + seq![d] + t2);
        assert((s + seq![d] + t).last() == t.last());
        let a = split_seq(s, seps);
        let b = split_seq(t2, seps);
        if seps.contains(t.last()) {
            assert((a + b).push(Seq::<char>::empty()) =~= a + b.push(Seq::<char>::empty()));
        } else {
            assert((a + b).update((a + b).len() - 1, (a + b).last().push(t.last())) =~= a + b.update(
                b.len() - 1,
                b.last().push(t.last()),
            ));
        }
    }
}

/// A sequence holding no separator is a single piece.
pub proof fn lemma_split_no_sep(s: Seq<char>, seps: Seq<char>)
    requires
        forall|i: int| 0 <= i < s.len() ==> !seps.contains(#[trigger] s[i]),
    ensures
        split_seq(s, seps) == seq![s],
    decreases s.len(),
{
    if s.len() > 0 {
        lemma_split_no_sep(s.drop_last(), seps);
        assert(!seps.contains(s[s.len() - 1]));
        assert(s.drop_last().push(s.last()) =~= s);
        assert(seq![s.drop_last()].update(0, s.drop_last().push(s.last())) =~= seq![s]);
    } else {
        assert(s =~= Seq::<char>::empty());
    }
}

/// A digit character has the value it was made from.
pub proof fn lemma_digit_char_val(d: nat)
    requires
        d < 10,
    ensures
        is_digit(digit_char(d)),
        digit_val(digit_char(d)) == d,
{
    assert(((d + 48) as u32) as char as u32 == (d + 48) as u32);
}

/// The decimal text of a number is a non-empty run of digits that spells it.
pub proof fn lemma_dec_string(n: nat)
    ensures
        dec_string(n).len() > 0,
        all_digits(dec_string(n)),
        dec_value(dec_string(n)) == n,
    decreases n,
{
    lemma_digit_char_val((n % 10) as nat);
    if n < 10 {
        assert(n % 10 == n);
        assert(dec_string(n).drop_last() =~= Seq::<char>::empty());
        assert(dec_value(Seq::<char>::empty()) == 0);
        assert(dec_string(n).last() == digit_char(n));
        assert(dec_value(dec_string(n)) == 0 * 10 + digit_val(digit_char(n)));
    } else {
        lemma_dec_string(n / 10);
        let p = dec_string(n / 10);
        assert(dec_string(n).drop_last() =~= p);
        assert((n / 10) * 10 + n % 10 == n) by (nonlinear_arith);
        assert(dec_value(dec_string(n)) == dec_value(p) * 10 + digit_val(digit_char((n % 10) as nat)));
        assert forall|i: int| 0 <= i < dec_string(n).len() implies is_digit(#[trigger] dec_string(n)[i]) by {
            if i < p.len() {
                assert(dec_string(n)[i] == p[i]);
            }
        }
    }
}

/// The decimal text of a number parses back to it.
pub proof fn lemma_parse_dec_string(n: nat, max: nat)
    requires
        n <= max,
    ensures
        parse_unsigned_spec(dec_string(n), max) == Some(n),
{
    lemma_dec_string(n);
    assert(is_digit(dec_string(n)[0]));
}


/// `s` begins with `p`.
pub open spec fn starts_with(s: Seq<char>, p: Seq<char>) -> bool {
    p.len() <= s.len() && s.take(p.len() as int) == p
}

/// Whether `v` begins with `p`.
pub fn starts_with_chars(v: &[char], p: &[char]) -> (r: bool)
    ensures
        r == starts_with(v@, p@),
{
    if p.len() > v.len() {
        return false;
    }
    for i in 0..p.len()
        invariant
            p@.len() <= v@.len(),
            forall|k: int| 0 <= k < i ==> v@[k] == p@[k],
    {
        if v[i] != p[i] {
            assert(v@.take(p@.len() as int)[i as int] != p@[i as int]);
            return false;
        }
    }
    assert(v@.take(p@.len() as int) =~= p@);
    true
}

/// The characters of `v` from index `from` on.
pub fn skip_chars(v: &[char], from: usize) -> (r: Vec<char>)
    requires
        from <= v@.len(),
    ensures
        r@ == v@.skip(from as int),
{
    let mut r: Vec<char> = Vec::new();
    let mut i = from;
    while i < v.len()
        invariant
            from <= i <= v@.len(),
            r@ == v@.subrange(from as int, i as int),
        decreases v@.len() - i,
    {
        r.push(v[i]);
        assert(v@.subrange(from as int, i as int).push(v@[i as int]) =~= v@.subrange(from as int, i + 1));
        i += 1;
    }
    assert(v@.subrange(from as int, v@.len() as int) =~= v@.skip(from as int));
    r
}

/// A sequence that neither begins nor ends with whitespace is its own trim.
pub proof fn lemma_trim_noop(s: Seq<char>)
    requires
        s.len() > 0 ==> !is_ws(s[0]) && !is_ws(s.last()),
    ensures
        trim_seq(s) == s,
{
}


/// Whether two string slices hold the same characters.
pub fn str_eq(a: &str, b: &str) -> (r: bool)
    ensures
        r == (a@ == b@),
{
    let va = chars_of(a);
    let vb = chars_of(b);
    chars_eq(va.as_slice(), vb.as_slice())
}

/// Whether `a` and `b` are equal up to ASCII case (`str::eq_ignore_ascii_case`).
pub fn eq_ignore_ascii_case(a: &str, b: &str) -> (r: bool)
    ensures
        r == (lower_seq(a@) == lower_seq(b@)),
{
    let la = to_lower_chars(chars_of(a).as_slice());
    let lb = to_lower_chars(chars_of(b).as_slice());
    chars_eq(la.as_slice(), lb.as_slice())
}

/// The `Display` text of a `bool`.
pub open spec fn bool_text(b: bool) -> Seq<char> {
    if b { "true"@ } else { "false"@ }
}

/// The `Display` text of a `bool` as a string.
pub fn bool_to_string(b: bool) -> (s: String)
    ensures
        s@ == bool_text(b),
{
    if b { String::from_str("true") } else { String::from_str("false") }
}

/// The views of a list of strings.
pub open spec fn strings_view(v: Seq<String>) -> Seq<Seq<char>> {
    v.map_values(|x: String| x@)
}

/// The pieces joined with `sep` between them (`[String]::join`).
pub open spec fn join_seq(parts: Seq<Seq<char>>, sep: Seq<char>) -> Seq<char>
    decreases parts.len(),
{
    if parts.len() == 0 {
        Seq::<char>::empty()
    } else if parts.len() == 1 {
        parts[0]
    } else {
        join_seq(parts.drop_last(), sep) + sep + parts.last()
    }
}

/// The strings of `v` joined with `sep` between them.
pub fn join_strings(v: &[String], sep: &str) -> (s: String)
    ensures
        s@ == join_seq(strings_view(v@), sep@),
{
    let sepc = chars_of(sep);
    let mut out: Vec<char> = Vec::new();
    for i in 0..v.len()
        invariant
            sepc@ == sep@,
            out@ == join_seq(strings_view(v@.take(i as int)), sep@),
    {
        let piece = chars_of(v[i].as_str());
        let ghost before = out@;
        if i > 0 {
            out.extend_from_slice(sepc.as_slice());
        }
        out.extend_from_slice(piece.as_slice());
        proof {
            let t = strings_view(v@.take(i + 1));
            assert(t.drop_last() =~= strings_view(v@.take(i as int)));
            assert(t.last() == v@[i as int]@);
            if i == 0 {
                assert(before =~= Seq::<char>::empty());
                assert(out@ =~= t[0]);
            } else {
                assert(out@ =~= join_seq(t.drop_last(), sep@) + sep@ + t.last());
            }
        }
    }
    assert(v@.take(v@.len() as int) =~= v@);
    string_of(out.as_slice())
}

/// The trimmed, non-empty pieces of `parts`, in order.
pub open spec fn nonempty_trimmed(parts: Seq<Seq<char>>) -> Seq<Seq<char>>
    decreases parts.len(),
{
    if parts.len() == 0 {
        Seq::<Seq<char>>::empty()
    } else {
        let rest = nonempty_trimmed(parts.drop_last());
        let t = trim_seq(parts.last());
        if t.len() == 0 { rest } else { rest.push(t) }
    }
}

/// A list typed as text: split at any of `seps`, each item trimmed, empty
/// items dropped.
pub open spec fn list_spec(s: Seq<char>, seps: Seq<char>) -> Seq<Seq<char>> {
    nonempty_trimmed(split_seq(s, seps))
}

/// Removing leading whitespace keeps a suffix.
proof fn lemma_trim_start_suffix(s: Seq<char>)
    ensures
        trim_start_seq(s).len() <= s.len(),
        trim_start_seq(s) == s.skip(s.len() - trim_start_seq(s).len()),
    decreases s.len(),
{
    if s.len() > 0 && is_ws(s[0]) {
        lemma_trim_start_suffix(s.drop_first());
        let t = trim_start_seq(s.drop_first());
        assert(s.drop_first().skip(s.drop_first().len() - t.len()) =~= s.skip(s.len() - t.len()));
    } else {
        assert(s.skip(0) =~= s);
    }
}

/// Trimming keeps a run of the text's own characters.
proof fn lemma_trim_within(s: Seq<char>)
    ensures
        exists|k: int| 0 <= k && k + trim_seq(s).len() <= s.len()
            && trim_seq(s) == #[trigger] s.subrange(k, k + trim_seq(s).len()),
{
    let a = trim_start_seq(s);
    lemma_trim_start_suffix(s);
    lemma_trim_end_shape(a);
    let t = trim_end_seq(a);
    let k = s.len() - a.len();
    assert(t =~= s.subrange(k, k + t.len()));
    assert(trim_seq(s) == s.subrange(k, k + trim_seq(s).len()));
}

/// No piece of a split holds a separator.
proof fn lemma_split_parts_no_sep(s: Seq<char>, seps: Seq<char>)
    ensures
        forall|p: int, i: int| 0 <= p < split_seq(s, seps).len() && 0 <= i < split_seq(s, seps)[p].len()
            ==> !seps.contains(#[trigger] split_seq(s, seps)[p][i]),
    decreases s.len(),
{
    if s.len() > 0 {
        lemma_split_parts_no_sep(s.drop_last(), seps);
        lemma_split_nonempty(s.drop_last(), seps);
        let prev = split_seq(s.drop_last(), seps);
        let cur = split_seq(s, seps);
        assert forall|p: int, i: int| 0 <= p < cur.len() && 0 <= i < cur[p].len() implies !seps.contains(#[trigger] cur[p][i]) by {
            if seps.contains(s.last()) {
                if p < prev.len() {
                    assert(cur[p] == prev[p]);
                }
            } else {
                if p < prev.len() - 1 {
                    assert(cur[p] == prev[p]);
                } else {
                    assert(cur[p] == prev.last().push(s.last()));
                    if i < prev.last().len() {
                        assert(cur[p][i] == prev[prev.len() - 1][i]);
                    }
                }
            }
        }
    }
}

/// Whether every item is non-empty, its own trim, and free of `seps`.
pub open spec fn clean_items(items: Seq<Seq<char>>, seps: Seq<char>) -> bool {
    forall|p: int| 0 <= p < items.len() ==> {
        &&& (#[trigger] items[p]).len() > 0
        &&& trim_seq(items[p]) == items[p]
        &&& forall|i: int| 0 <= i < items[p].len() ==> !seps.contains(#[trigger] items[p][i])
    }
}

/// Trimming and dropping empty pieces of separator-free pieces gives clean items.
proof fn lemma_nonempty_trimmed_clean(parts: Seq<Seq<char>>, seps: Seq<char>)
    requires
        forall|p: int, i: int| 0 <= p < parts.len() && 0 <= i < parts[p].len() ==> !seps.contains(#[trigger] parts[p][i]),
    ensures
        clean_items(nonempty_trimmed(parts), seps),
    decreases parts.len(),
{
    if parts.len() > 0 {
        lemma_nonempty_trimmed_clean(parts.drop_last(), seps);
        let last = parts.last();
        let t = trim_seq(last);
        lemma_trim_idempotent(last);
        lemma_trim_within(last);
        let k = choose|k: int| 0 <= k && k + t.len() <= last.len() && t == #[trigger] last.subrange(k, k + t.len());
        assert forall|i: int| 0 <= i < t.len() implies !seps.contains(#[trigger] t[i]) by {
            assert(t[i] == last[k + i]);
            assert(parts[parts.len() - 1][k + i] == last[k + i]);
        }
    }
}

/// The items of a typed list are non-empty, trimmed and free of separators.
pub proof fn lemma_list_items_clean(s: Seq<char>, seps: Seq<char>)
    ensures
        clean_items(list_spec(s, seps), seps),
{
    lemma_split_parts_no_sep(s, seps);
    lemma_nonempty_trimmed_clean(split_seq(s, seps), seps);
}

/// Clean items joined with one separator `d` read back as the same items.
pub proof fn lemma_list_join_roundtrip(items: Seq<Seq<char>>, seps: Seq<char>, d: char)
    requires
        seps.contains(d),
        clean_items(items, seps),
    ensures
        list_spec(join_seq(items, seq![d]), seps) == items,
    decreases items.len(),
{
    if items.len() == 0 {
        assert(split_seq(Seq::<char>::empty(), seps) =~= seq![Seq::<char>::empty()]);
        assert(trim_seq(Seq::<char>::empty()) =~= Seq::<char>::empty());
        let pe = seq![Seq::<char>::empty()];
        assert(pe.drop_last() =~= Seq::<Seq<char>>::empty());
        assert(pe.last() == Seq::<char>::empty());
        assert(trim_seq(pe.last()).len() == 0);
        assert(nonempty_trimmed(Seq::<Seq<char>>::empty()) == Seq::<Seq<char>>::empty());
        assert(nonempty_trimmed(pe) =~= Seq::<Seq<char>>::empty());
    } else {
        let last = items.last();
        assert(last == items[items.len() - 1]);
        assert forall|i: int| 0 <= i < last.len() implies !seps.contains(#[trigger] last[i]) by {
            assert(items[items.len() - 1][i] == last[i]);
        }
        lemma_split_no_sep(last, seps);
        if items.len() == 1 {
            assert(join_seq(items, seq![d]) == items[0]);
            assert(seq![last].drop_last() =~= Seq::<Seq<char>>::empty());
            assert(seq![last].last() == last);
            assert(trim_seq(items[0]) == items[0] && items[0].len() > 0);
            assert(nonempty_trimmed(Seq::<Seq<char>>::empty()) == Seq::<Seq<char>>::empty());
            assert(nonempty_trimmed(seq![last]) =~= items);
        } else {
            let dl = items.drop_last();
            assert(clean_items(dl, seps)) by {
                assert forall|p: int| 0 <= p < dl.len() implies #[trigger] dl[p] == items[p] by {}
            }
            lemma_list_join_roundtrip(dl, seps, d);
            let j = join_seq(dl, seq![d]);
            assert(join_seq(items, seq![d]) == j + seq![d] + last);
            lemma_split_concat(j, d, last, seps);
            let sp = split_seq(j, seps) + seq![last];
            assert(sp.drop_last() =~= split_seq(j, seps));
            assert(nonempty_trimmed(sp) == nonempty_trimmed(split_seq(j, seps)).push(last));
            assert(dl.push(last) =~= items);
        }
    }
}

/// Splits `s` at any of `seps`, trims each item and keeps the non-empty ones.
pub fn parse_list(s: &str, seps: &[char]) -> (r: Vec<String>)
    ensures
        strings_view(r@) == list_spec(s@, seps@),
{
    let parts = split_chars(chars_of(s).as_slice(), seps);
    let mut r: Vec<String> = Vec::new();
    for i in 0..parts.len()
        invariant
            views(parts@) == split_seq(s@, seps@),
            strings_view(r@) == nonempty_trimmed(views(parts@).take(i as int)),
    {
        let t = trim_chars(parts[i].as_slice());
        proof {
            let w = views(parts@).take(i + 1);
            assert(w.drop_last() =~= views(parts@).take(i as int));
            assert(w.last() == parts@[i as int]@);
        }
        if t.len() > 0 {
            let item = string_of(t.as_slice());
            r.push(item);
            assert(strings_view(r@) =~= nonempty_trimmed(views(parts@).take(i as int)).push(t@));
        }
    }
    assert(views(parts@).take(parts@.len() as int) =~= views(parts@));
    r
}


/// What remains after removing leading whitespace starts with a non-space.
pub proof fn lemma_trim_start_shape(s: Seq<char>)
    ensures
        trim_start_seq(s).len() > 0 ==> !is_ws(trim_start_seq(s)[0]),
    decreases s.len(),
{
    if s.len() > 0 && is_ws(s[0]) {
        lemma_trim_start_shape(s.drop_first());
    }
}

/// Removing trailing whitespace keeps a prefix that ends with a non-space.
pub proof fn lemma_trim_end_shape(s: Seq<char>)
    ensures
        trim_end_seq(s).len() <= s.len(),
        trim_end_seq(s) == s.take(trim_end_seq(s).len() as int),
        trim_end_seq(s).len() > 0 ==> !is_ws(trim_end_seq(s).last()),
    decreases s.len(),
{
    if s.len() > 0 && is_ws(s.last()) {
        lemma_trim_end_shape(s.drop_last());
        let t = trim_end_seq(s.drop_last());
        assert(s.drop_last().take(t.len() as int) =~= s.take(t.len() as int));
    } else {
        assert(s.take(s.len() as int) =~= s);
    }
}

/// Trimming twice is trimming once.
pub proof fn lemma_trim_idempotent(s: Seq<char>)
    ensures
        trim_seq(trim_seq(s)) == trim_seq(s),
{
    let a = trim_start_seq(s);
    let b = trim_end_seq(a);
    lemma_trim_start_shape(s);
    lemma_trim_end_shape(a);
    if b.len() > 0 {
        assert(b[0] == a[0]);
    }
    lemma_trim_noop(b);
}


/// ASCII uppercase of one character (`char::to_ascii_uppercase`).
pub open spec fn upper_char(c: char) -> char {
    if 'a' <= c <= 'z' {
        ((c as u32) - 32) as char
    } else {
        c
    }
}

/// ASCII uppercase of a character sequence.
pub open spec fn upper_seq(s: Seq<char>) -> Seq<char> {
    s.map_values(|c: char| upper_char(c))
}

/// The ASCII uppercase of `v`.
pub fn to_upper_chars(v: &[char]) -> (r: Vec<char>)
    ensures
        r@ == upper_seq(v@),
{
    let mut r: Vec<char> = Vec::new();
    for i in 0..v.len()
        invariant
            r@ == upper_seq(v@.take(i as int)),
    {
        let c = v[i];
        let u = if 'a' <= c && c <= 'z' { ((c as u8) - 32) as char } else { c };
        r.push(u);
        assert(upper_seq(v@.take(i as int)).push(upper_char(v@[i as int])) =~= upper_seq(v@.take(i + 1)));
    }
    assert(v@.take(v@.len() as int) =~= v@);
    r
}


/// A trimmed text neither starts nor ends with whitespace.
pub proof fn lemma_trim_shape(s: Seq<char>)
    ensures
        trim_seq(s).len() > 0 ==> !is_ws(trim_seq(s)[0]) && !is_ws(trim_seq(s).last()),
{
    let a = trim_start_seq(s);
    lemma_trim_start_shape(s);
    lemma_trim_end_shape(a);
    let b = trim_end_seq(a);
    if b.len() > 0 {
        assert(b[0] == a[0]);
    }
}

/// Lowercasing twice is lowercasing once.
pub proof fn lemma_lower_idempotent(s: Seq<char>)
    ensures
        lower_seq(lower_seq(s)) == lower_seq(s),
{
    assert(lower_seq(lower_seq(s)) =~= lower_seq(s));
}

/// Lowercasing a trimmed text leaves it trimmed.
pub proof fn lemma_trim_lower(s: Seq<char>)
    ensures
        trim_seq(lower_seq(trim_seq(s))) == lower_seq(trim_seq(s)),
{
    let t = trim_seq(s);
    lemma_trim_shape(s);
    let l = lower_seq(t);
    if l.len() > 0 {
        assert(l[0] == lower_char(t[0]));
        assert(l.last() == lower_char(t.last()));
    }
    lemma_trim_noop(l);
}

} // verus!
