//! Text handling over sequences of characters: white space, trimming,
//! splitting into fields, decimal numbers and substring search.
//!
//! Every function is specified over `Seq<char>`, the view of a string.

use vstd::prelude::*;

verus! {

/// `String::push` of the standard library appends one character: the string
/// holds afterwards what it held before, followed by `c`.
pub assume_specification[ String::push ](s: &mut String, c: char)
    ensures
        final(s)@ == old(s)@.push(c),
;

/// The characters with the Unicode property `White_Space`.
pub open spec fn is_space(c: char) -> bool {
    let n = c as u32;
    ||| 0x09 <= n <= 0x0D
    ||| n == 0x20
    ||| n == 0x85
    ||| n == 0xA0
    ||| n == 0x1680
    ||| 0x2000 <= n <= 0x200A
    ||| n == 0x2028
    ||| n == 0x2029
    ||| n == 0x202F
    ||| n == 0x205F
    ||| n == 0x3000
}

/// The first index at or after `from` whose character is not white space,
/// or the length of `s` when only white space follows.
pub open spec fn skip_spaces(s: Seq<char>, from: int) -> int
    decreases s.len() - from,
{
    if 0 <= from < s.len() && is_space(s[from]) {
        skip_spaces(s, from + 1)
    } else {
        from
    }
}

/// The first index at or after `from` whose character is white space, or
/// the length of `s` when none follows.
pub open spec fn skip_word(s: Seq<char>, from: int) -> int
    decreases s.len() - from,
{
    if 0 <= from < s.len() && !is_space(s[from]) {
        skip_word(s, from + 1)
    } else {
        from
    }
}

/// The first index at or after `from` that holds `c`, or the length of `s`
/// when `c` does not occur there.
pub open spec fn find_char(s: Seq<char>, c: char, from: int) -> int
    decreases s.len() - from,
{
    if 0 <= from < s.len() && s[from] != c {
        find_char(s, c, from + 1)
    } else {
        from
    }
}

/// The index behind the last character before `to` that is not white space,
/// or 0 when only white space precedes `to`.
pub open spec fn trim_end_index(s: Seq<char>, to: int) -> int
    decreases to,
{
    if 0 < to <= s.len() && is_space(s[to - 1]) {
        trim_end_index(s, to - 1)
    } else {
        to
    }
}

/// `s` without its leading and trailing white space.
pub open spec fn trimmed(s: Seq<char>) -> Seq<char> {
    let a = skip_spaces(s, 0);
    let b = trim_end_index(s, s.len() as int);
    if a < b {
        s.subrange(a, b)
    } else {
        Seq::empty()
    }
}

/// The maximal runs of characters other than white space that start at or
/// after `from`, in order.
pub open spec fn words_from(s: Seq<char>, from: int) -> Seq<Seq<char>>
    decreases s.len() - from,
{
    let a = skip_spaces(s, from);
    if 0 <= from && a < s.len() {
        let b = skip_word(s, a);
        proof {
            lemma_skip_spaces(s, from);
            lemma_skip_word(s, a);
        }
        seq![s.subrange(a, b)] + words_from(s, b)
    } else {
        Seq::empty()
    }
}

/// The fields of `s` that white space separates; none of them is empty.
pub open spec fn words(s: Seq<char>) -> Seq<Seq<char>> {
    words_from(s, 0)
}

/// The pieces of `s` from index `from` on that the separator `c` delimits.
/// Two separators in a row delimit an empty piece, and so does a separator
/// at the end.
pub open spec fn split_from(s: Seq<char>, c: char, from: int) -> Seq<Seq<char>>
    decreases s.len() - from,
{
    let e = find_char(s, c, from);
    if 0 <= from && e < s.len() {
        proof {
            lemma_find_char(s, c, from);
        }
        seq![s.subrange(from, e)] + split_from(s, c, e + 1)
    } else {
        seq![s.subrange(from, s.len() as int)]
    }
}

/// The pieces of `s` that the separator `c` delimits: one more than `c`
/// occurs in `s`.
pub open spec fn split(s: Seq<char>, c: char) -> Seq<Seq<char>> {
    split_from(s, c, 0)
}

/// Up to the index that `skip_spaces` gives there is only white space, and
/// none stands at that index.
pub proof fn lemma_skip_spaces(s: Seq<char>, from: int)
    requires
        0 <= from <= s.len(),
    ensures
        from <= skip_spaces(s, from) <= s.len(),
        skip_spaces(s, from) < s.len() ==> !is_space(s[skip_spaces(s, from)]),
        forall|k: int| from <= k < skip_spaces(s, from) ==> is_space(#[trigger] s[k]),
    decreases s.len() - from,
{
    if from < s.len() && is_space(s[from]) {
        lemma_skip_spaces(s, from + 1);
    }
}

/// Up to the index that `skip_word` gives there is no white space, and
/// white space stands at that index, unless it is the end.
pub proof fn lemma_skip_word(s: Seq<char>, from: int)
    requires
        0 <= from <= s.len(),
    ensures
        from <= skip_word(s, from) <= s.len(),
        from < s.len() && !is_space(s[from]) ==> from < skip_word(s, from),
        skip_word(s, from) < s.len() ==> is_space(s[skip_word(s, from)]),
        forall|k: int| from <= k < skip_word(s, from) ==> !is_space(#[trigger] s[k]),
    decreases s.len() - from,
{
    if from < s.len() && !is_space(s[from]) {
        lemma_skip_word(s, from + 1);
    }
}

/// Up to the index that `find_char` gives `c` does not occur, and `c` stands
/// at that index, unless it is the end.
pub proof fn lemma_find_char(s: Seq<char>, c: char, from: int)
    requires
        0 <= from <= s.len(),
    ensures
        from <= find_char(s, c, from) <= s.len(),
        find_char(s, c, from) < s.len() ==> s[find_char(s, c, from)] == c,
        forall|k: int| from <= k < find_char(s, c, from) ==> #[trigger] s[k] != c,
    decreases s.len() - from,
{
    if from < s.len() && s[from] != c {
        lemma_find_char(s, c, from + 1);
    }
}

/// From the index that `trim_end_index` gives up to `to` there is only white
/// space, and none stands before that index.
pub proof fn lemma_trim_end_index(s: Seq<char>, to: int)
    requires
        0 <= to <= s.len(),
    ensures
        0 <= trim_end_index(s, to) <= to,
        0 < trim_end_index(s, to) ==> !is_space(s[trim_end_index(s, to) - 1]),
        forall|k: int| trim_end_index(s, to) <= k < to ==> is_space(#[trigger] s[k]),
    decreases to,
{
    if 0 < to && is_space(s[to - 1]) {
        lemma_trim_end_index(s, to - 1);
    }
}

/// Whether `c` is white space, as `char::is_whitespace` tells it.
pub fn is_whitespace(c: char) -> (b: bool)
    ensures
        b == is_space(c),
{
    let n: u32 = c as u32;
    (0x09 <= n && n <= 0x0D) || n == 0x20 || n == 0x85 || n == 0xA0 || n == 0x1680 || (0x2000 <= n
        && n <= 0x200A) || n == 0x2028 || n == 0x2029 || n == 0x202F || n == 0x205F || n == 0x3000
}

/// The characters of `s`, in order.
pub fn to_chars(s: &str) -> (v: Vec<char>)
    ensures
        v@ == s@,
{
    let mut v: Vec<char> = Vec::new();
    for c in it: s.chars()
        invariant
            v@ == it.seq().take(it.index() as int),
            it.seq() == s@,
    {
        v.push(c);
    }
    v
}

/// The string made of the characters of `s` from index `a` up to `b`.
pub(crate) fn string_from_range(s: &Vec<char>, a: usize, b: usize) -> (r: String)
    requires
        a <= b <= s.len(),
    ensures
        r@ == s@.subrange(a as int, b as int),
{
    let mut r = String::new();
    let mut i: usize = a;
    while i < b
        invariant
            a <= i <= b <= s.len(),
            r@ == s@.subrange(a as int, i as int),
        decreases b - i,
    {
        r.push(s[i]);
        i += 1;
    }
    r
}

/// The index that `skip_spaces` gives.
pub(crate) fn skip_spaces_at(s: &Vec<char>, from: usize) -> (r: usize)
    requires
        from <= s.len(),
    ensures
        r == skip_spaces(s@, from as int),
        from <= r <= s.len(),
{
    let mut i: usize = from;
    while i < s.len() && is_whitespace(s[i])
        invariant
            from <= i <= s.len(),
            skip_spaces(s@, i as int) == skip_spaces(s@, from as int),
        decreases s.len() - i,
    {
        i += 1;
    }
    i
}

/// The index that `skip_word` gives.
pub(crate) fn skip_word_at(s: &Vec<char>, from: usize) -> (r: usize)
    requires
        from <= s.len(),
    ensures
        r == skip_word(s@, from as int),
        from <= r <= s.len(),
{
    let mut i: usize = from;
    while i < s.len() && !is_whitespace(s[i])
        invariant
            from <= i <= s.len(),
            skip_word(s@, i as int) == skip_word(s@, from as int),
        decreases s.len() - i,
    {
        i += 1;
    }
    i
}

/// The index that `find_char` gives.
pub(crate) fn find_char_at(s: &Vec<char>, c: char, from: usize) -> (r: usize)
    requires
        from <= s.len(),
    ensures
        r == find_char(s@, c, from as int),
        from <= r <= s.len(),
{
    let mut i: usize = from;
    while i < s.len() && s[i] != c
        invariant
            from <= i <= s.len(),
            find_char(s@, c, i as int) == find_char(s@, c, from as int),
        decreases s.len() - i,
    {
        i += 1;
    }
    i
}

/// The index that `trim_end_index` gives.
pub(crate) fn trim_end_at(s: &Vec<char>, to: usize) -> (r: usize)
    requires
        to <= s.len(),
    ensures
        r == trim_end_index(s@, to as int),
        r <= to,
{
    let mut i: usize = to;
    while i > 0 && is_whitespace(s[i - 1])
        invariant
            i <= to <= s.len(),
            trim_end_index(s@, i as int) == trim_end_index(s@, to as int),
        decreases i,
    {
        i -= 1;
    }
    i
}

/// `s` without its leading and trailing white space, as `str::trim` gives it.
pub fn trim(s: &str) -> (r: String)
    ensures
        r@ == trimmed(s@),
{
    let v = to_chars(s);
    let a = skip_spaces_at(&v, 0);
    let b = trim_end_at(&v, v.len());
    if a < b {
        string_from_range(&v, a, b)
    } else {
        String::new()
    }
}

/// The fields of `s` that white space separates, as `str::split_whitespace`
/// gives them.
pub fn split_whitespace(s: &str) -> (r: Vec<String>)
    ensures
        r.deep_view() == words(s@),
{
    let v = to_chars(s);
    let mut out: Vec<String> = Vec::new();
    let mut i: usize = 0;
    assert(out.deep_view() =~= Seq::<Seq<char>>::empty());
    loop
        invariant
            i <= v.len(),
            out.deep_view() + words_from(v@, i as int) == words(v@),
        ensures
            out.deep_view() == words(v@),
        decreases v.len() - i,
    {
        let a = skip_spaces_at(&v, i);
        if a >= v.len() {
            break ;
        }
        let b = skip_word_at(&v, a);
        proof {
            lemma_skip_spaces(v@, i as int);
            lemma_skip_word(v@, a as int);
        }
        let word = string_from_range(&v, a, b);
        let ghost before = out.deep_view();
        out.push(word);
        assert(out.deep_view() =~= before + seq![v@.subrange(a as int, b as int)]);
        i = b;
    }
    out
}

/// The pieces of `s` that the separator `c` delimits, as `str::split` gives
/// them.
pub fn split_at_char(s: &str, c: char) -> (r: Vec<String>)
    ensures
        r.deep_view() == split(s@, c),
{
    let v = to_chars(s);
    let mut out: Vec<String> = Vec::new();
    let mut i: usize = 0;
    assert(out.deep_view() =~= Seq::<Seq<char>>::empty());
    loop
        invariant_except_break
            i <= v.len(),
            out.deep_view() + split_from(v@, c, i as int) == split(v@, c),
        ensures
            out.deep_view() == split(v@, c),
        decreases v.len() - i,
    {
        let e = find_char_at(&v, c, i);
        let piece = string_from_range(&v, i, e);
        let ghost before = out.deep_view();
        out.push(piece);
        if e >= v.len() {
            assert(out.deep_view() =~= before + seq![v@.subrange(i as int, v.len() as int)]);
            break ;
        }
        assert(out.deep_view() =~= before + seq![v@.subrange(i as int, e as int)]);
        i = e + 1;
    }
    out
}


/// The decimal digits, `0` to `9`.
pub open spec fn is_digit(c: char) -> bool {
    0x30 <= c as u32 <= 0x39
}

/// The number that the digit `c` stands for.
pub open spec fn digit_value(c: char) -> nat {
    (c as u32 - 0x30) as nat
}

/// The digit that stands for `d`, which is below ten.
pub open spec fn digit_char(d: nat) -> char {
    if d == 0 {
        '0'
    } else if d == 1 {
        '1'
    } else if d == 2 {
        '2'
    } else if d == 3 {
        '3'
    } else if d == 4 {
        '4'
    } else if d == 5 {
        '5'
    } else if d == 6 {
        '6'
    } else if d == 7 {
        '7'
    } else if d == 8 {
        '8'
    } else {
        '9'
    }
}

/// Whether `s` holds decimal digits only.
pub open spec fn all_digits(s: Seq<char>) -> bool {
    forall|i: int| 0 <= i < s.len() ==> is_digit(#[trigger] s[i])
}

/// The number that the digits of `s` write in base ten, the first digit
/// counting most.
pub open spec fn decimal_value(s: Seq<char>) -> nat
    decreases s.len(),
{
    if s.len() == 0 {
        0
    } else {
        10 * decimal_value(s.drop_last()) + digit_value(s.last())
    }
}

/// `s` without the plus sign that may stand in front of a number.
pub open spec fn unsigned_digits(s: Seq<char>) -> Seq<char> {
    if s.len() > 0 && s[0] == '+' {
        s.drop_first()
    } else {
        s
    }
}

/// The number up to `max` that `s` writes: one digit or more, after at most
/// one plus sign. Anything else writes no number.
pub open spec fn parsed_unsigned(s: Seq<char>, max: nat) -> Option<nat> {
    let d = unsigned_digits(s);
    if d.len() > 0 && all_digits(d) && decimal_value(d) <= max {
        Some(decimal_value(d))
    } else {
        None
    }
}

/// `n` in base ten, without leading zeros.
pub open spec fn decimal(n: nat) -> Seq<char>
    decreases n,
{
    if n < 10 {
        seq![digit_char(n)]
    } else {
        decimal(n / 10).push(digit_char(n % 10))
    }
}

/// Whether `needle` stands in `hay` at index `i`.
pub open spec fn occurs_at(hay: Seq<char>, needle: Seq<char>, i: int) -> bool {
    0 <= i && i + needle.len() <= hay.len() && hay.subrange(i, i + needle.len()) == needle
}

/// Whether `needle` stands somewhere in `hay`.
pub open spec fn contains(hay: Seq<char>, needle: Seq<char>) -> bool {
    exists|i: int| occurs_at(hay, needle, i)
}

/// A number written with more digits is no smaller than the one that its
/// first `k` digits write.
pub proof fn lemma_decimal_value_prefix(s: Seq<char>, k: int)
    requires
        0 <= k <= s.len(),
    ensures
        decimal_value(s.take(k)) <= decimal_value(s),
    decreases s.len() - k,
{
    if k < s.len() {
        lemma_decimal_value_prefix(s, k + 1);
        assert(s.take(k + 1).drop_last() == s.take(k));
    } else {
        assert(s.take(k) == s);
    }
}

/// Reading what `decimal` wrote gives the number back.
pub proof fn lemma_decimal_round_trip(n: nat, max: nat)
    requires
        n <= max,
    ensures
        parsed_unsigned(decimal(n), max) == Some(n),
        decimal(n).len() > 0,
        all_digits(decimal(n)),
        decimal_value(decimal(n)) == n,
    decreases n,
{
    let d = decimal(n);
    if n < 10 {
        assert(d.drop_last() == Seq::<char>::empty());
        assert(decimal_value(d.drop_last()) == 0);
    } else {
        lemma_decimal_round_trip(n / 10, max);
        assert(d.drop_last() == decimal(n / 10));
    }
    assert(d[0] != '+');
}

fn digit_of(d: u128) -> (c: char)
    requires
        d < 10,
    ensures
        c == digit_char(d as nat),
{
    if d == 0 {
        '0'
    } else if d == 1 {
        '1'
    } else if d == 2 {
        '2'
    } else if d == 3 {
        '3'
    } else if d == 4 {
        '4'
    } else if d == 5 {
        '5'
    } else if d == 6 {
        '6'
    } else if d == 7 {
        '7'
    } else if d == 8 {
        '8'
    } else {
        '9'
    }
}

/// Appends `n` in base ten to `out`.
pub fn push_decimal(out: &mut String, n: u128)
    ensures
        final(out)@ == old(out)@ + decimal(n as nat),
    decreases n,
{
    if n >= 10 {
        push_decimal(out, n / 10);
    }
    out.push(digit_of(n % 10));
}

/// `n` in base ten, as `u64::to_string` writes it.
pub fn decimal_string(n: u64) -> (r: String)
    ensures
        r@ == decimal(n as nat),
{
    let mut r = String::new();
    push_decimal(&mut r, n as u128);
    r
}

fn parse_unsigned_chars(v: &Vec<char>, max: u64) -> (r: Option<u64>)
    ensures
        match r {
            Some(n) => parsed_unsigned(v@, max as nat) == Some(n as nat),
            None => parsed_unsigned(v@, max as nat) is None,
        },
{
    let start: usize = if v.len() > 0 && v[0] == '+' {
        1
    } else {
        0
    };
    let ghost d = unsigned_digits(v@);
    assert(d == v@.subrange(start as int, v.len() as int));
    if start >= v.len() {
        return None;
    }
    let mut acc: u64 = 0;
    let mut i: usize = start;
    assert(d.take(0) == Seq::<char>::empty());
    while i < v.len()
        invariant
            start <= i <= v.len(),
            d == v@.subrange(start as int, v.len() as int),
            d == unsigned_digits(v@),
            all_digits(d.take(i - start)),
            acc == decimal_value(d.take(i - start)),
            acc <= max,
        decreases v.len() - i,
    {
        let n: u32 = v[i] as u32;
        if n < 0x30 || n > 0x39 {
            assert(!is_digit(d[i - start]));
            return None;
        }
        let dv: u64 = (n - 0x30) as u64;
        proof {
            lemma_decimal_value_prefix(d, i - start + 1);
            assert(d.take(i - start + 1).drop_last() == d.take(i - start));
        }
        if dv > max || acc > (max - dv) / 10 {
            return None;
        }
        acc = acc * 10 + dv;
        i += 1;
    }
    assert(d.take(i - start) == d);
    Some(acc)
}

/// The number that `s` writes in base ten, as `str::parse::<u64>` reads it.
pub fn parse_u64(s: &str) -> (r: Option<u64>)
    ensures
        match r {
            Some(n) => parsed_unsigned(s@, u64::MAX as nat) == Some(n as nat),
            None => parsed_unsigned(s@, u64::MAX as nat) is None,
        },
{
    let v = to_chars(s);
    parse_unsigned_chars(&v, u64::MAX)
}

/// The number that `s` writes in base ten, as `str::parse::<u8>` reads it.
pub fn parse_u8(s: &str) -> (r: Option<u8>)
    ensures
        match r {
            Some(n) => parsed_unsigned(s@, u8::MAX as nat) == Some(n as nat),
            None => parsed_unsigned(s@, u8::MAX as nat) is None,
        },
{
    let v = to_chars(s);
    match parse_unsigned_chars(&v, 255) {
        Some(n) => Some(n as u8),
        None => None,
    }
}

fn occurs_at_index(hay: &Vec<char>, needle: &Vec<char>, i: usize) -> (b: bool)
    requires
        i + needle.len() <= hay.len(),
    ensures
        b == occurs_at(hay@, needle@, i as int),
{
    let mut k: usize = 0;
    while k < needle.len()
        invariant
            k <= needle.len(),
            i + needle.len() <= hay.len(),
            forall|j: int| 0 <= j < k ==> hay@[i + j] == needle@[j],
        decreases needle.len() - k,
    {
        if hay[i + k] != needle[k] {
            assert(hay@.subrange(i as int, i + needle.len())[k as int] != needle@[k as int]);
            return false;
        }
        k += 1;
    }
    assert(hay@.subrange(i as int, i + needle.len()) =~= needle@);
    true
}

/// Whether `needle` stands somewhere in `hay`, as `str::contains` tells it.
pub fn contains_text(hay: &str, needle: &str) -> (b: bool)
    ensures
        b == contains(hay@, needle@),
{
    let h = to_chars(hay);
    let n = to_chars(needle);
    if n.len() > h.len() {
        return false;
    }
    let last: usize = h.len() - n.len();
    let mut i: usize = 0;
    loop
        invariant
            h@ == hay@,
            n@ == needle@,
            last == h.len() - n.len(),
            i <= last,
            forall|j: int| 0 <= j < i ==> !occurs_at(h@, n@, j),
        decreases last - i,
    {
        if occurs_at_index(&h, &n, i) {
            return true;
        }
        if i == last {
            return false;
        }
        i += 1;
    }
}

/// Whether `a` and `b` hold the same characters.
pub fn same_text(a: &str, b: &str) -> (r: bool)
    ensures
        r == (a@ == b@),
{
    a.to_owned() == b.to_owned()
}


/// A trimmed text neither starts nor ends with white space, and trimming it
/// once more changes nothing about that: it is a part of `s`.
pub proof fn lemma_trimmed_has_no_outer_space(s: Seq<char>)
    ensures
        trimmed(s).len() > 0 ==> !is_space(trimmed(s)[0]) && !is_space(trimmed(s).last()),
        trimmed(s).len() <= s.len(),
        trimmed(s).len() == 0 <==> forall|k: int| 0 <= k < s.len() ==> is_space(#[trigger] s[k]),
{
    lemma_skip_spaces(s, 0);
    lemma_trim_end_index(s, s.len() as int);
    let a = skip_spaces(s, 0);
    let b = trim_end_index(s, s.len() as int);
    if a < b {
        assert(!is_space(s[a]));
        assert(!is_space(s[b - 1]));
        assert(trimmed(s)[0] == s[a]);
        assert(trimmed(s).last() == s[b - 1]);
    } else {
        assert forall|k: int| 0 <= k < s.len() implies is_space(#[trigger] s[k]) by {
            if k >= a {
                if a < s.len() {
                    assert(!is_space(s[a]));
                    assert(b > a);
                }
            }
        }
    }
}

/// Every field that white space separates holds a character, and none of
/// its characters is white space.
pub proof fn lemma_words_hold_no_space(s: Seq<char>, from: int)
    requires
        0 <= from <= s.len(),
    ensures
        forall|i: int, k: int|
            0 <= i < words_from(s, from).len() && 0 <= k < words_from(s, from)[i].len()
                ==> !is_space(#[trigger] words_from(s, from)[i][k]),
        forall|i: int|
            0 <= i < words_from(s, from).len() ==> (#[trigger] words_from(s, from)[i]).len() > 0,
    decreases s.len() - from,
{
    lemma_skip_spaces(s, from);
    let a = skip_spaces(s, from);
    if a < s.len() {
        lemma_skip_word(s, a);
        let b = skip_word(s, a);
        lemma_words_hold_no_space(s, b);
        let first = s.subrange(a, b);
        let rest = words_from(s, b);
        assert(words_from(s, from) == seq![first] + rest);
        assert forall|i: int, k: int|
            0 <= i < words_from(s, from).len() && 0 <= k < words_from(s, from)[i].len()
                implies !is_space(#[trigger] words_from(s, from)[i][k]) by {
            if i == 0 {
                assert(first[k] == s[a + k]);
            } else {
                assert(words_from(s, from)[i] == rest[i - 1]);
            }
        }
        assert forall|i: int| 0 <= i < words_from(s, from).len() implies (
        #[trigger] words_from(s, from)[i]).len() > 0 by {
            if i > 0 {
                assert(words_from(s, from)[i] == rest[i - 1]);
            }
        }
    }
}

} // verus!
