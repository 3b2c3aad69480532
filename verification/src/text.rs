//! Character-level text handling shared by the parsers and formatters of the
//! file manager: trimming, searching, number formatting and parsing.
use vstd::prelude::*;

verus! {

// ---------------------------------------------------------------------------
// Conversions between strings and character vectors
// ---------------------------------------------------------------------------

/// The characters of `s`, in order.
pub fn chars_of(s: &str) -> (r: Vec<char>)
    ensures
        r@ == s@,
{
    let mut v: Vec<char> = Vec::new();
    for c in it: s.chars()
        invariant
            v@ == it.seq().take(it.index() as int),
    {
        v.push(c);
    }
    v
}

/// Collects characters into a `String` (std's `FromIterator<&char> for String`);
/// the contract claims that the string holds exactly these characters, in order.
#[verifier::external_body]
pub fn string_of(v: &Vec<char>) -> (r: String)
    ensures
        r@ == v@,
{
    v.iter().collect()
}

/// A `String` holding the characters of `s`.
pub fn owned(s: &str) -> (r: String)
    ensures
        r@ == s@,
{
    s.to_owned()
}

/// `a` followed by `b`.
pub fn concat(a: &str, b: &str) -> (r: String)
    ensures
        r@ == a@ + b@,
{
    let mut v = chars_of(a);
    let w = chars_of(b);
    append_chars(&mut v, &w);
    string_of(&v)
}

/// `a`, `b` and `c` one after the other.
pub fn concat3(a: &str, b: &str, c: &str) -> (r: String)
    ensures
        r@ == a@ + b@ + c@,
{
    let ab = concat(a, b);
    concat(ab.as_str(), c)
}

/// Appends every character of `w` to `v`.
pub fn append_chars(v: &mut Vec<char>, w: &Vec<char>)
    ensures
        final(v)@ == old(v)@ + w@,
{
    let mut i: usize = 0;
    while i < w.len()
        invariant
            i <= w.len(),
            v@ == old(v)@ + w@.take(i as int),
        decreases w.len() - i,
    {
        v.push(w[i]);
        i = i + 1;
        assert(w@.take(i as int) == w@.take((i - 1) as int).push(w@[i - 1]));
    }
    assert(w@.take(w.len() as int) == w@);
}

/// Lower-case form of a string, as std's `str::to_lowercase` computes it
/// (Unicode case mapping).
pub uninterp spec fn str_lowercase(s: Seq<char>) -> Seq<char>;

/// std's `str::to_lowercase`; the contract only names its result, which
/// depends on the argument alone.
#[verifier::external_body]
pub fn lowercase(s: &str) -> (r: String)
    ensures
        r@ == str_lowercase(s@),
{
    s.to_lowercase()
}

// ---------------------------------------------------------------------------
// Prefixes, suffixes, trimming and searching
// ---------------------------------------------------------------------------

/// `s` without any trailing `c`.
pub open spec fn trim_end(s: Seq<char>, c: char) -> Seq<char>
    decreases s.len(),
{
    if s.len() > 0 && s.last() == c {
        trim_end(s.drop_last(), c)
    } else {
        s
    }
}

/// The trimmed sequence is a prefix of the original, and ends in something other than `c`.
pub proof fn lemma_trim_end_prefix(s: Seq<char>, c: char)
    ensures
        trim_end(s, c).len() <= s.len(),
        trim_end(s, c) == s.take(trim_end(s, c).len() as int),
        trim_end(s, c).len() > 0 ==> trim_end(s, c).last() != c,
        forall|i: int| trim_end(s, c).len() <= i < s.len() ==> s[i] == c,
    decreases s.len(),
{
    if s.len() > 0 && s.last() == c {
        lemma_trim_end_prefix(s.drop_last(), c);
        let t = trim_end(s.drop_last(), c);
        assert(s.drop_last().take(t.len() as int) == s.take(t.len() as int));
        assert forall|i: int| t.len() <= i < s.len() implies s[i] == c by {
            if i < s.len() - 1 {
                assert(s.drop_last()[i] == s[i]);
            }
        }
    } else {
        assert(s.take(s.len() as int) == s);
    }
}

/// Length of `s` once every trailing `c` is removed.
pub fn trim_end_len(s: &Vec<char>, c: char) -> (n: usize)
    ensures
        n <= s.len(),
        s@.take(n as int) == trim_end(s@, c),
{
    let mut n = s.len();
    assert(s@.take(n as int) == s@);
    while n > 0 && s[n - 1] == c
        invariant
            n <= s.len(),
            trim_end(s@.take(n as int), c) == trim_end(s@, c),
        decreases n,
    {
        assert(s@.take(n as int).drop_last() == s@.take(n - 1));
        n = n - 1;
    }
    n
}

/// `s` without trailing `c`, as a `String`.
pub fn trim_end_char(s: &str, c: char) -> (r: String)
    ensures
        r@ == trim_end(s@, c),
{
    let v = chars_of(s);
    let n = trim_end_len(&v, c);
    let mut w: Vec<char> = Vec::new();
    let mut i: usize = 0;
    while i < n
        invariant
            i <= n <= v.len(),
            w@ == v@.take(i as int),
        decreases n - i,
    {
        w.push(v[i]);
        i = i + 1;
        assert(v@.take(i as int) == v@.take((i - 1) as int).push(v@[i - 1]));
    }
    string_of(&w)
}

/// Whether `s` ends with the character `c`.
pub open spec fn ends_with_char(s: Seq<char>, c: char) -> bool {
    s.len() > 0 && s.last() == c
}

/// Whether `s` starts with the character `c`.
pub open spec fn starts_with_char(s: Seq<char>, c: char) -> bool {
    s.len() > 0 && s[0] == c
}

pub fn str_ends_with_char(s: &str, c: char) -> (b: bool)
    ensures
        b == ends_with_char(s@, c),
{
    let v = chars_of(s);
    v.len() > 0 && v[v.len() - 1] == c
}

pub fn str_starts_with_char(s: &str, c: char) -> (b: bool)
    ensures
        b == starts_with_char(s@, c),
{
    let v = chars_of(s);
    v.len() > 0 && v[0] == c
}

/// Whether `needle` occurs in `hay` at position `i`.
pub open spec fn occurs_at(hay: Seq<char>, needle: Seq<char>, i: int) -> bool {
    0 <= i && i + needle.len() <= hay.len() && hay.subrange(i, i + needle.len()) == needle
}

/// Whether `needle` occurs anywhere in `hay` (std's `str::contains` with a string pattern).
pub open spec fn contains_seq(hay: Seq<char>, needle: Seq<char>) -> bool {
    exists|i: int| occurs_at(hay, needle, i)
}

/// The first position at or after `from` where `needle` occurs in `hay`.
pub open spec fn find_from(hay: Seq<char>, needle: Seq<char>, from: int) -> Option<int>
    decreases hay.len() + 1 - from,
{
    if from < 0 || from + needle.len() > hay.len() {
        None
    } else if occurs_at(hay, needle, from) {
        Some(from)
    } else {
        find_from(hay, needle, from + 1)
    }
}

/// A found position is an occurrence, and no earlier position (from `from` on) is one.
pub proof fn lemma_find_from(hay: Seq<char>, needle: Seq<char>, from: int)
    requires
        0 <= from,
    ensures
        find_from(hay, needle, from) is Some ==> {
            let p = find_from(hay, needle, from)->0;
            &&& from <= p
            &&& occurs_at(hay, needle, p)
            &&& forall|j: int| from <= j < p ==> !occurs_at(hay, needle, j)
        },
        find_from(hay, needle, from) is None ==> forall|j: int|
            from <= j ==> !occurs_at(hay, needle, j),
    decreases hay.len() + 1 - from,
{
    if from + needle.len() > hay.len() {
    } else if occurs_at(hay, needle, from) {
    } else {
        lemma_find_from(hay, needle, from + 1);
    }
}

/// Whether `needle` matches `hay` at `i` on its first `j` characters.
pub open spec fn matches_prefix(hay: Seq<char>, needle: Seq<char>, i: int, j: int) -> bool {
    forall|k: int| 0 <= k < j ==> hay[i + k] == needle[k]
}

/// Whether `needle` occurs in `hay` at `i`, compared character by character.
fn occurs_at_exec(hay: &Vec<char>, needle: &Vec<char>, i: usize) -> (b: bool)
    requires
        i + needle.len() <= hay.len(),
    ensures
        b == occurs_at(hay@, needle@, i as int),
{
    let mut j: usize = 0;
    while j < needle.len()
        invariant
            j <= needle.len(),
            i + needle.len() <= hay.len(),
            matches_prefix(hay@, needle@, i as int, j as int),
        decreases needle.len() - j,
    {
        if hay[i + j] != needle[j] {
            assert(hay@.subrange(i as int, i + needle.len())[j as int] != needle@[j as int]);
            return false;
        }
        j = j + 1;
    }
    assert(hay@.subrange(i as int, i + needle.len()) =~= needle@);
    true
}

/// Position of the first occurrence of `needle` in `hay`, if any.
pub fn find_chars(hay: &Vec<char>, needle: &Vec<char>) -> (r: Option<usize>)
    ensures
        r matches Some(p) ==> find_from(hay@, needle@, 0) == Some(p as int),
        r is None ==> find_from(hay@, needle@, 0) is None,
{
    if needle.len() > hay.len() {
        return None;
    }
    let last = hay.len() - needle.len();
    let mut i: usize = 0;
    loop
        invariant
            last == hay.len() - needle.len(),
            i <= last,
            find_from(hay@, needle@, 0) == find_from(hay@, needle@, i as int),
        decreases last - i,
    {
        if occurs_at_exec(hay, needle, i) {
            return Some(i);
        }
        if i == last {
            assert(find_from(hay@, needle@, i + 1) is None);
            return None;
        }
        i = i + 1;
    }
}

/// Whether `needle` occurs in `hay`.
pub fn contains_chars(hay: &Vec<char>, needle: &Vec<char>) -> (b: bool)
    ensures
        b == contains_seq(hay@, needle@),
{
    proof { lemma_find_from(hay@, needle@, 0); }
    match find_chars(hay, needle) {
        Some(_) => true,
        None => false,
    }
}

/// Whether `needle` occurs in `hay`, on strings.
pub fn str_contains(hay: &str, needle: &str) -> (b: bool)
    ensures
        b == contains_seq(hay@, needle@),
{
    let h = chars_of(hay);
    let n = chars_of(needle);
    contains_chars(&h, &n)
}

/// The part of `s` before the first occurrence of `sep`, or all of `s` when
/// `sep` does not occur (the first item of std's `str::split`).
pub open spec fn before_first(s: Seq<char>, sep: Seq<char>) -> Seq<char> {
    match find_from(s, sep, 0) {
        Some(p) => s.take(p),
        None => s,
    }
}

// ---------------------------------------------------------------------------
// Numbers as text
// ---------------------------------------------------------------------------

/// The ASCII digit for `d` (`d` below 10).
pub open spec fn digit_char(d: nat) -> char {
    (d + 48) as char
}

/// Decimal notation of `n`, without leading zeros (as std's `{}` formats an integer).
pub open spec fn decimal(n: nat) -> Seq<char>
    decreases n,
{
    if n < 10 {
        seq![digit_char(n)]
    } else {
        decimal(n / 10).push(digit_char(n % 10))
    }
}

/// Octal notation of `n`, without leading zeros (as std's `{:o}` formats an integer).
pub open spec fn octal(n: nat) -> Seq<char>
    decreases n,
{
    if n < 8 {
        seq![digit_char(n)]
    } else {
        octal(n / 8).push(digit_char(n % 8))
    }
}

fn digit(d: u64) -> (c: char)
    requires
        d < 10,
    ensures
        c == digit_char(d as nat),
{
    let b: u8 = (d as u8) + 48;
    b as char
}

/// Decimal digits of `n`.
pub fn decimal_chars(n: u64) -> (r: Vec<char>)
    ensures
        r@ == decimal(n as nat),
    decreases n,
{
    if n < 10 {
        let mut v: Vec<char> = Vec::new();
        v.push(digit(n));
        assert(v@ == seq![digit_char(n as nat)]);
        v
    } else {
        let mut v = decimal_chars(n / 10);
        v.push(digit(n % 10));
        v
    }
}

/// Octal digits of `n`.
pub fn octal_chars(n: u64) -> (r: Vec<char>)
    ensures
        r@ == octal(n as nat),
    decreases n,
{
    if n < 8 {
        let mut v: Vec<char> = Vec::new();
        v.push(digit(n));
        assert(v@ == seq![digit_char(n as nat)]);
        v
    } else {
        let mut v = octal_chars(n / 8);
        v.push(digit(n % 8));
        v
    }
}

/// `n` in decimal, as a `String`.
pub fn decimal_string(n: u64) -> (r: String)
    ensures
        r@ == decimal(n as nat),
{
    let v = decimal_chars(n);
    string_of(&v)
}

/// `n` in octal, as a `String`.
pub fn octal_string(n: u64) -> (r: String)
    ensures
        r@ == octal(n as nat),
{
    let v = octal_chars(n);
    string_of(&v)
}

// ---------------------------------------------------------------------------
// Parsing unsigned integers (std's `from_str_radix` / `str::parse` for unsigned types)
// ---------------------------------------------------------------------------

/// Whether `c` is a digit of the given radix (radix at most 10).
pub open spec fn is_radix_digit(c: char, radix: nat) -> bool {
    48 <= (c as int) && (c as int) < 48 + radix
}

/// Whether every character of `s` is a digit of the given radix.
pub open spec fn all_radix_digits(s: Seq<char>, radix: nat) -> bool {
    forall|i: int| 0 <= i < s.len() ==> is_radix_digit(#[trigger] s[i], radix)
}

/// The value of a digit string, most significant digit first.
pub open spec fn digits_value(s: Seq<char>, radix: nat) -> nat
    decreases s.len(),
{
    if s.len() == 0 {
        0
    } else {
        digits_value(s.drop_last(), radix) * radix + ((s.last() as int) - 48) as nat
    }
}

/// The digits that follow an optional leading `+`.
pub open spec fn unsigned_body(s: Seq<char>) -> Seq<char> {
    if s.len() > 0 && s[0] == '+' {
        s.drop_first()
    } else {
        s
    }
}

/// What std's `from_str_radix` gives for an unsigned type whose largest value
/// is `max`: an optional `+`, then one digit or more, and a value no larger
/// than `max`; anything else (signs, spaces, other characters, overflow) is an error.
pub open spec fn parse_unsigned(s: Seq<char>, radix: nat, max: nat) -> Option<nat> {
    let b = unsigned_body(s);
    if b.len() > 0 && all_radix_digits(b, radix) && digits_value(b, radix) <= max {
        Some(digits_value(b, radix))
    } else {
        None
    }
}

/// A longer digit string is worth at least as much as its prefix.
pub proof fn lemma_digits_value_prefix(s: Seq<char>, radix: nat, k: int)
    requires
        0 <= k <= s.len(),
        radix >= 1,
        all_radix_digits(s, radix),
    ensures
        digits_value(s.take(k), radix) <= digits_value(s, radix),
    decreases s.len() - k,
{
    if k < s.len() {
        lemma_digits_value_prefix(s, radix, k + 1);
        let t = s.take(k + 1);
        assert(t.drop_last() == s.take(k));
        let v = digits_value(s.take(k), radix);
        let d = ((t.last() as int) - 48) as nat;
        assert(v * radix + d >= v) by (nonlinear_arith)
            requires
                radix >= 1,
        ;
    } else {
        assert(s.take(k) == s);
    }
}

/// Parses `s` as std's `from_str_radix(s, radix)` does for an unsigned type
/// whose largest value is `max`.
pub fn parse_unsigned_str(s: &str, radix: u64, max: u64) -> (r: Option<u64>)
    requires
        2 <= radix <= 10,
    ensures
        r matches Some(n) ==> parse_unsigned(s@, radix as nat, max as nat) == Some(n as nat),
        r is None ==> parse_unsigned(s@, radix as nat, max as nat) is None,
{
    let v = chars_of(s);
    let start: usize = if v.len() > 0 && v[0] == '+' { 1 } else { 0 };
    let ghost b = unsigned_body(s@);
    assert(b == v@.skip(start as int));
    if start >= v.len() {
        return None;
    }
    let mut acc: u64 = 0;
    let mut i: usize = start;
    while i < v.len()
        invariant
            start <= i <= v.len(),
            b == v@.skip(start as int),
            b == unsigned_body(s@),
            2 <= radix <= 10,
            acc as nat == digits_value(b.take(i - start), radix as nat),
            acc <= max,
            all_radix_digits(b.take(i - start), radix as nat),
        decreases v.len() - i,
    {
        let c = v[i];
        let code: u32 = char_code(c);
        assert(b[i - start] == c);
        if code < 48 || (code as u64) >= 48 + radix {
            assert(!is_radix_digit(b[i - start], radix as nat));
            return None;
        }
        let d: u64 = (code as u64) - 48;
        assert((acc as u128) * (radix as u128) <= 10 * 0xFFFF_FFFF_FFFF_FFFFu128) by (nonlinear_arith)
            requires
                acc <= 0xFFFF_FFFF_FFFF_FFFFu64,
                radix <= 10,
        ;
        let next: u128 = (acc as u128) * (radix as u128) + (d as u128);
        let ghost t = b.take(i - start + 1);
        assert(t.drop_last() == b.take(i - start));
        assert(t.last() == c);
        assert(all_radix_digits(t, radix as nat)) by {
            assert forall|k: int| 0 <= k < t.len() implies is_radix_digit(#[trigger] t[k], radix as nat) by {
                if k < t.len() - 1 {
                    assert(t[k] == b.take(i - start)[k]);
                } else {
                    assert(t[k] == c);
                }
            }
        }
        assert(next as nat == digits_value(t, radix as nat));
        if next > max as u128 {
            proof {
                if all_radix_digits(b, radix as nat) {
                    lemma_digits_value_prefix(b, radix as nat, i - start + 1);
                }
            }
            return None;
        }
        acc = next as u64;
        i = i + 1;
    }
    assert(b.take(i - start) == b);
    Some(acc)
}

// ---------------------------------------------------------------------------
// Whitespace splitting and joining (std's `split_whitespace` and `join`)
// ---------------------------------------------------------------------------

/// Unicode `White_Space`, which std's `char::is_whitespace` tests.
pub open spec fn is_ws(c: char) -> bool {
    let u = c as int;
    (0x9 <= u <= 0xD) || u == 0x20 || u == 0x85 || u == 0xA0 || u == 0x1680 || (0x2000 <= u
        <= 0x200A) || u == 0x2028 || u == 0x2029 || u == 0x202F || u == 0x205F || u == 0x3000
}

/// The code point of `c`.
pub fn char_code(c: char) -> (r: u32)
    ensures
        r as int == c as int,
{
    c as u32
}

pub fn is_whitespace(c: char) -> (b: bool)
    ensures
        b == is_ws(c),
{
    let u = char_code(c);
    (0x9 <= u && u <= 0xD) || u == 0x20 || u == 0x85 || u == 0xA0 || u == 0x1680 || (0x2000 <= u
        && u <= 0x200A) || u == 0x2028 || u == 0x2029 || u == 0x202F || u == 0x205F || u
        == 0x3000
}

/// Length of the run of non-whitespace characters that starts `s`.
pub open spec fn word_len(s: Seq<char>) -> nat
    decreases s.len(),
{
    if s.len() == 0 || is_ws(s[0]) {
        0
    } else {
        1 + word_len(s.drop_first())
    }
}

pub proof fn lemma_word_len_bound(s: Seq<char>)
    ensures
        word_len(s) <= s.len(),
    decreases s.len(),
{
    if s.len() > 0 && !is_ws(s[0]) {
        lemma_word_len_bound(s.drop_first());
    }
}

/// `word_len` is the position of the first whitespace (or the length).
pub proof fn lemma_word_len_exact(s: Seq<char>, k: int)
    requires
        0 <= k <= s.len(),
        forall|m: int| 0 <= m < k ==> !is_ws(#[trigger] s[m]),
        k == s.len() || is_ws(s[k]),
    ensures
        word_len(s) == k,
    decreases k,
{
    if k > 0 {
        assert forall|m: int| 0 <= m < k - 1 implies !is_ws(#[trigger] s.drop_first()[m]) by {
            assert(s.drop_first()[m] == s[m + 1]);
        }
        lemma_word_len_exact(s.drop_first(), k - 1);
    }
}

/// The whitespace-separated words of `s`, in order (std's `str::split_whitespace`).
pub open spec fn split_ws(s: Seq<char>) -> Seq<Seq<char>>
    decreases s.len(),
{
    if s.len() == 0 {
        seq![]
    } else if is_ws(s[0]) {
        split_ws(s.drop_first())
    } else {
        proof {
            lemma_word_len_bound(s);
        }
        seq![s.take(word_len(s) as int)] + split_ws(s.skip(word_len(s) as int))
    }
}

/// The character sequences held by a vector of character vectors.
pub open spec fn views(v: Seq<Vec<char>>) -> Seq<Seq<char>> {
    Seq::new(v.len(), |i: int| v[i]@)
}

/// Splits `s` into its whitespace-separated words.
pub fn split_whitespace_chars(s: &Vec<char>) -> (r: Vec<Vec<char>>)
    ensures
        views(r@) == split_ws(s@),
{
    let mut words: Vec<Vec<char>> = Vec::new();
    let mut i: usize = 0;
    assert(s@.skip(0) == s@);
    while i < s.len()
        invariant
            i <= s.len(),
            views(words@) + split_ws(s@.skip(i as int)) == split_ws(s@),
        decreases s.len() - i,
    {
        let ghost rest = s@.skip(i as int);
        if is_whitespace(s[i]) {
            assert(rest.drop_first() == s@.skip(i + 1));
            i = i + 1;
        } else {
            let mut j: usize = i;
            let mut w: Vec<char> = Vec::new();
            while j < s.len() && !is_whitespace(s[j])
                invariant
                    i <= j <= s.len(),
                    w@ == s@.subrange(i as int, j as int),
                    forall|m: int| i <= m < j ==> !is_ws(#[trigger] s@[m]),
                decreases s.len() - j,
            {
                w.push(s[j]);
                j = j + 1;
                assert(w@ == s@.subrange(i as int, j as int));
            }
            proof {
                assert forall|m: int| 0 <= m < j - i implies !is_ws(#[trigger] rest[m]) by {
                    assert(rest[m] == s@[i + m]);
                }
                if j < s.len() {
                    assert(rest[j - i] == s@[j as int]);
                }
                lemma_word_len_exact(rest, j - i);
                assert(rest.take(j - i) == w@);
                assert(rest.skip(j - i) == s@.skip(j as int));
                assert(split_ws(rest) == seq![w@] + split_ws(s@.skip(j as int)));
            }
            let ghost before = views(words@);
            words.push(w);
            assert(views(words@) =~= before.push(w@));
            assert(before + split_ws(rest) == before.push(w@) + split_ws(s@.skip(j as int)));
            i = j;
        }
    }
    assert(s@.skip(i as int) == Seq::<char>::empty());
    assert(views(words@) + Seq::<Seq<char>>::empty() == views(words@));
    words
}

/// The parts joined with `sep` between consecutive parts (std's `join`).
pub open spec fn join(parts: Seq<Seq<char>>, sep: Seq<char>) -> Seq<char>
    decreases parts.len(),
{
    if parts.len() == 0 {
        seq![]
    } else if parts.len() == 1 {
        parts[0]
    } else {
        join(parts.drop_last(), sep) + sep + parts.last()
    }
}

/// Joins `parts[from..]` with `sep` in between.
pub fn join_from(parts: &Vec<Vec<char>>, from: usize, sep: &Vec<char>) -> (r: Vec<char>)
    requires
        from <= parts.len(),
    ensures
        r@ == join(views(parts@).skip(from as int), sep@),
{
    let ghost ps = views(parts@).skip(from as int);
    let mut out: Vec<char> = Vec::new();
    let mut i: usize = from;
    assert(ps.take(0) == Seq::<Seq<char>>::empty());
    while i < parts.len()
        invariant
            from <= i <= parts.len(),
            ps == views(parts@).skip(from as int),
            out@ == join(ps.take(i - from), sep@),
        decreases parts.len() - i,
    {
        let ghost t = ps.take(i - from + 1);
        assert(t.drop_last() == ps.take(i - from));
        assert(t.last() == parts[i as int]@);
        if i > from {
            append_chars(&mut out, sep);
        } else {
            assert(t.len() == 1);
        }
        append_chars(&mut out, &parts[i]);
        i = i + 1;
    }
    assert(ps.take(i - from) == ps);
    out
}

// ---------------------------------------------------------------------------
// Lexicographic order (std's `Ord for str`: byte order of UTF-8, which is the
// order of the characters' code points)
// ---------------------------------------------------------------------------

/// `a` sorts strictly before `b`.
pub open spec fn lex_lt(a: Seq<char>, b: Seq<char>) -> bool
    decreases a.len(),
{
    if a.len() == 0 {
        b.len() > 0
    } else if b.len() == 0 {
        false
    } else if a[0] != b[0] {
        (a[0] as int) < (b[0] as int)
    } else {
        lex_lt(a.drop_first(), b.drop_first())
    }
}

/// `a` sorts before `b` or equals it.
pub open spec fn lex_le(a: Seq<char>, b: Seq<char>) -> bool {
    a == b || lex_lt(a, b)
}

pub proof fn lemma_lex_lt_irreflexive(a: Seq<char>)
    ensures
        !lex_lt(a, a),
    decreases a.len(),
{
    if a.len() > 0 {
        lemma_lex_lt_irreflexive(a.drop_first());
    }
}

pub proof fn lemma_lex_lt_total(a: Seq<char>, b: Seq<char>)
    ensures
        a == b || lex_lt(a, b) || lex_lt(b, a),
        !(lex_lt(a, b) && lex_lt(b, a)),
    decreases a.len(),
{
    if a.len() > 0 && b.len() > 0 && a[0] == b[0] {
        lemma_lex_lt_total(a.drop_first(), b.drop_first());
        if a.drop_first() == b.drop_first() {
            assert forall|i: int| 0 <= i < a.len() implies a[i] == b[i] by {
                if i > 0 {
                    assert(a[i] == a.drop_first()[i - 1]);
                    assert(b[i] == b.drop_first()[i - 1]);
                }
            }
            assert(a =~= b);
        }
    } else if a.len() == 0 && b.len() == 0 {
        assert(a =~= b);
    }
}

pub proof fn lemma_lex_lt_transitive(a: Seq<char>, b: Seq<char>, c: Seq<char>)
    requires
        lex_lt(a, b),
        lex_lt(b, c),
    ensures
        lex_lt(a, c),
    decreases a.len(),
{
    if a.len() > 0 && b.len() > 0 && c.len() > 0 && a[0] == b[0] && b[0] == c[0] {
        lemma_lex_lt_transitive(a.drop_first(), b.drop_first(), c.drop_first());
    }
}

/// `lex_le` is a total order.
pub proof fn lemma_lex_le_total_ordering()
    ensures
        vstd::relations::total_ordering(|a: Seq<char>, b: Seq<char>| lex_le(a, b)),
{
    let r = |a: Seq<char>, b: Seq<char>| lex_le(a, b);
    assert forall|x: Seq<char>, y: Seq<char>| #[trigger] r(x, y) && #[trigger] r(y, x) implies x
        == y by {
        lemma_lex_lt_total(x, y);
    }
    assert forall|x: Seq<char>, y: Seq<char>, z: Seq<char>| #[trigger] r(x, y) && #[trigger] r(
        y,
        z,
    ) implies r(x, z) by {
        if x != y && y != z {
            lemma_lex_lt_transitive(x, y, z);
        }
    }
    assert forall|x: Seq<char>, y: Seq<char>| #[trigger] r(x, y) || #[trigger] r(y, x) by {
        lemma_lex_lt_total(x, y);
    }
}

/// Whether `a` sorts strictly before `b`.
pub fn lex_less(a: &Vec<char>, b: &Vec<char>) -> (r: bool)
    ensures
        r == lex_lt(a@, b@),
{
    let mut i: usize = 0;
    assert(a@.skip(0) == a@ && b@.skip(0) == b@);
    loop
        invariant
            i <= a.len(),
            i <= b.len(),
            lex_lt(a@, b@) == lex_lt(a@.skip(i as int), b@.skip(i as int)),
        decreases a.len() - i,
    {
        if i == a.len() {
            return i < b.len();
        }
        if i == b.len() {
            return false;
        }
        if a[i] != b[i] {
            return a[i] < b[i];
        }
        assert(a@.skip(i as int).drop_first() == a@.skip(i + 1));
        assert(b@.skip(i as int).drop_first() == b@.skip(i + 1));
        i = i + 1;
    }
}

/// The strings of `s` in ascending order.
pub open spec fn sorted_strs(s: Seq<Seq<char>>) -> Seq<Seq<char>> {
    s.sort_by(|a: Seq<char>, b: Seq<char>| lex_le(a, b))
}

/// Sorts strings in ascending order (std's `sort` on `String`s).
pub fn sort_strings(v: Vec<String>) -> (r: Vec<String>)
    ensures
        r.deep_view() == sorted_strs(v.deep_view()),
        r.len() == v.len(),
{
    let r = sort_strings_by_insertion(v);
    proof {
        let leq = |a: Seq<char>, b: Seq<char>| lex_le(a, b);
        lemma_lex_le_total_ordering();
        v.deep_view().lemma_sort_by_ensures(leq);
        vstd::seq_lib::lemma_sorted_unique(r.deep_view(), sorted_strs(v.deep_view()), leq);
    }
    r
}

/// Sorts strings in ascending order by inserting each into a sorted prefix.
fn sort_strings_by_insertion(v: Vec<String>) -> (r: Vec<String>)
    ensures
        vstd::relations::sorted_by(r.deep_view(), |a: Seq<char>, b: Seq<char>| lex_le(a, b)),
        r.deep_view().to_multiset() == v.deep_view().to_multiset(),
        r.len() == v.len(),
{
    let mut out: Vec<String> = Vec::new();
    let mut keys: Vec<Vec<char>> = Vec::new();
    let mut i: usize = 0;
    proof {
        lemma_lex_le_total_ordering();
        broadcast use vstd::seq_lib::group_to_multiset_ensures;
        assert(v.deep_view().take(0) =~= Seq::<Seq<char>>::empty());
        assert(out.deep_view() =~= Seq::<Seq<char>>::empty());
        assert(views(keys@) =~= Seq::<Seq<char>>::empty());
    }
    while i < v.len()
        invariant
            i <= v.len(),
            out.len() == i,
            keys.len() == i,
            views(keys@) == out.deep_view(),
            vstd::relations::sorted_by(out.deep_view(), |a: Seq<char>, b: Seq<char>| lex_le(a, b)),
            out.deep_view().to_multiset() == v.deep_view().take(i as int).to_multiset(),
            vstd::relations::total_ordering(|a: Seq<char>, b: Seq<char>| lex_le(a, b)),
        decreases v.len() - i,
    {
        let x = v[i].clone();
        let xk = chars_of(x.as_str());
        let mut p: usize = 0;
        while p < keys.len() && !lex_less(&xk, &keys[p])
            invariant
                p <= keys.len(),
                views(keys@) == out.deep_view(),
                forall|k: int| 0 <= k < p ==> lex_le(#[trigger] views(keys@)[k], xk@),
            decreases keys.len() - p,
        {
            proof {
                lemma_lex_lt_total(xk@, keys@[p as int]@);
            }
            p = p + 1;
        }
        let ghost old_view = out.deep_view();
        proof {
            assert(forall|k: int| 0 <= k < p ==> lex_le(#[trigger] old_view[k], xk@));
            if p < keys.len() {
                assert(views(keys@)[p as int] == keys@[p as int]@);
                assert(lex_lt(xk@, old_view[p as int]));
            }
        }
        out.insert(p, x);
        keys.insert(p, xk);
        assert(out.deep_view() =~= old_view.insert(p as int, xk@));
        assert(views(keys@) =~= out.deep_view());
        proof {
            let nv = out.deep_view();
            let leq = |a: Seq<char>, b: Seq<char>| lex_le(a, b);
            assert forall|a: int, b: int| 0 <= a < b < nv.len() implies #[trigger] leq(nv[a], nv[b]) by {
                if b < p {
                    assert(nv[a] == old_view[a] && nv[b] == old_view[b]);
                    assert(leq(old_view[a], old_view[b]));
                } else if b == p {
                    assert(nv[a] == old_view[a]);
                    assert(lex_le(old_view[a], xk@));
                } else if a == p {
                    assert(nv[b] == old_view[b - 1]);
                    if b - 1 > p {
                        assert(leq(old_view[p as int], old_view[b - 1]));
                        if old_view[p as int] != old_view[b - 1] {
                            lemma_lex_lt_transitive(xk@, old_view[p as int], old_view[b - 1]);
                        }
                    }
                } else if a < p {
                    assert(nv[a] == old_view[a] && nv[b] == old_view[b - 1]);
                    assert(leq(old_view[a], old_view[b - 1]));
                } else {
                    assert(nv[a] == old_view[a - 1] && nv[b] == old_view[b - 1]);
                    assert(leq(old_view[a - 1], old_view[b - 1]));
                }
            }
            assert(old_view.insert(p as int, xk@) =~= old_view.take(p as int).push(xk@) + old_view.skip(p as int));
            vstd::seq_lib::lemma_multiset_commutative(old_view.take(p as int).push(xk@), old_view.skip(p as int));
            vstd::seq_lib::lemma_multiset_commutative(old_view.take(p as int), old_view.skip(p as int));
            assert(old_view =~= old_view.take(p as int) + old_view.skip(p as int));
            broadcast use vstd::seq_lib::group_to_multiset_ensures;
            assert(v.deep_view().take(i + 1) =~= v.deep_view().take(i as int).push(xk@));
        }
        i = i + 1;
    }
    assert(v.deep_view().take(i as int) == v.deep_view());
    out
}

// ---------------------------------------------------------------------------
// Trimming whitespace (std's `str::trim`)
// ---------------------------------------------------------------------------

/// `s` without trailing whitespace.
pub open spec fn trim_ws_end(s: Seq<char>) -> Seq<char>
    decreases s.len(),
{
    if s.len() > 0 && is_ws(s.last()) {
        trim_ws_end(s.drop_last())
    } else {
        s
    }
}

/// `s` without leading whitespace.
pub open spec fn trim_ws_start(s: Seq<char>) -> Seq<char>
    decreases s.len(),
{
    if s.len() > 0 && is_ws(s[0]) {
        trim_ws_start(s.drop_first())
    } else {
        s
    }
}

/// `s` without leading or trailing whitespace.
pub open spec fn trim_ws(s: Seq<char>) -> Seq<char> {
    trim_ws_start(trim_ws_end(s))
}

/// `s` without leading or trailing whitespace.
pub fn trim_whitespace(s: &str) -> (r: Vec<char>)
    ensures
        r@ == trim_ws(s@),
{
    let v = chars_of(s);
    let mut n = v.len();
    assert(v@.take(n as int) == v@);
    while n > 0 && is_whitespace(v[n - 1])
        invariant
            n <= v.len(),
            trim_ws_end(v@.take(n as int)) == trim_ws_end(v@),
        decreases n,
    {
        assert(v@.take(n as int).drop_last() == v@.take(n - 1));
        n = n - 1;
    }
    let mut k: usize = 0;
    assert(v@.take(n as int).skip(0) == v@.take(n as int));
    while k < n && is_whitespace(v[k])
        invariant
            k <= n <= v.len(),
            trim_ws_start(v@.take(n as int).skip(k as int)) == trim_ws(v@),
            trim_ws_end(v@.take(n as int)) == trim_ws_end(v@),
            !(n > 0 && is_ws(v@[n - 1])),
        decreases n - k,
    {
        assert(v@.take(n as int).skip(k as int).drop_first() == v@.take(n as int).skip(k + 1));
        k = k + 1;
    }
    proof {
        assert(trim_ws_end(v@.take(n as int)) == v@.take(n as int));
    }
    let mut out: Vec<char> = Vec::new();
    let mut i = k;
    while i < n
        invariant
            k <= i <= n <= v.len(),
            out@ == v@.subrange(k as int, i as int),
        decreases n - i,
    {
        out.push(v[i]);
        i = i + 1;
        assert(out@ == v@.subrange(k as int, i as int));
    }
    assert(v@.take(n as int).skip(k as int) == v@.subrange(k as int, n as int));
    out
}

// ---------------------------------------------------------------------------
// Decoding bytes
// ---------------------------------------------------------------------------

/// std's `String::from_utf8`: the text that the bytes encode when they are
/// valid UTF-8, none otherwise.
#[verifier::external_body]
pub fn utf8_text(data: Vec<u8>) -> (r: Option<String>)
    ensures
        r matches Some(s) ==> vstd::utf8::valid_utf8(data@) && s@ == vstd::utf8::decode_utf8(data@),
        r is None ==> !vstd::utf8::valid_utf8(data@),
{
    String::from_utf8(data).ok()
}

// ---------------------------------------------------------------------------
// Editing strings
// ---------------------------------------------------------------------------

/// Appends a character to a string.
pub fn push_char(s: &mut String, c: char)
    ensures
        final(s)@ == old(s)@.push(c),
{
    let mut v = chars_of(s.as_str());
    v.push(c);
    *s = string_of(&v);
}

/// Removes the last character of a string, if any, and returns it.
pub fn pop_char(s: &mut String) -> (r: Option<char>)
    ensures
        old(s)@.len() == 0 ==> r is None && final(s)@ == old(s)@,
        old(s)@.len() > 0 ==> r == Some(old(s)@.last()) && final(s)@ == old(s)@.drop_last(),
{
    let mut v = chars_of(s.as_str());
    let r = v.pop();
    if r.is_some() {
        *s = string_of(&v);
    }
    r
}

/// Whether two strings hold the same characters.
pub fn same_text(a: &str, b: &str) -> (r: bool)
    ensures
        r == (a@ == b@),
{
    let x = chars_of(a);
    let y = chars_of(b);
    if x.len() != y.len() {
        return false;
    }
    let mut i: usize = 0;
    while i < x.len()
        invariant
            i <= x.len() == y.len(),
            x@ == a@,
            y@ == b@,
            forall|k: int| 0 <= k < i ==> x@[k] == y@[k],
        decreases x.len() - i,
    {
        if x[i] != y[i] {
            assert(x@[i as int] != y@[i as int]);
            return false;
        }
        i = i + 1;
    }
    assert(x@ =~= y@);
    true
}

/// `s` with every trailing repetition of `pat` removed (std's
/// `trim_end_matches` with a string pattern).
pub open spec fn trim_end_pat(s: Seq<char>, pat: Seq<char>) -> Seq<char>
    decreases s.len(),
{
    if pat.len() > 0 && s.len() >= pat.len() && s.skip(s.len() - pat.len()) == pat {
        trim_end_pat(s.take(s.len() - pat.len()), pat)
    } else {
        s
    }
}

/// `s` with every trailing repetition of `pat` removed.
pub fn trim_end_matches_str(s: &str, pat: &str) -> (r: String)
    ensures
        r@ == trim_end_pat(s@, pat@),
{
    let v = chars_of(s);
    let p = chars_of(pat);
    let mut n = v.len();
    assert(v@.take(n as int) == v@);
    if p.len() == 0 {
        return owned(s);
    }
    loop
        invariant
            n <= v.len(),
            p.len() > 0,
            trim_end_pat(v@.take(n as int), p@) == trim_end_pat(v@, p@),
        ensures
            n <= v.len(),
            trim_end_pat(v@.take(n as int), p@) == trim_end_pat(v@, p@),
            trim_end_pat(v@.take(n as int), p@) == v@.take(n as int),
        decreases n,
    {
        if n < p.len() {
            break;
        }
        let start = n - p.len();
        let mut k: usize = 0;
        let mut same = true;
        while k < p.len()
            invariant
                k <= p.len(),
                start + p.len() == n <= v.len(),
                same == forall|j: int| 0 <= j < k ==> v@[start + j] == p@[j],
            decreases p.len() - k,
        {
            if v[start + k] != p[k] {
                same = false;
            }
            k = k + 1;
        }
        let ghost t = v@.take(n as int);
        if same {
            assert(t.skip(t.len() - p@.len()) =~= p@) by {
                assert forall|j: int| 0 <= j < p@.len() implies t.skip(t.len() - p@.len())[j] == p@[j] by {
                    assert(t.skip(t.len() - p@.len())[j] == v@[start + j]);
                }
            }
            assert(t.take(t.len() - p@.len()) == v@.take(start as int));
            n = start;
        } else {
            assert(t.skip(t.len() - p@.len()) != p@) by {
                let j = choose|j: int| 0 <= j < p.len() && v@[start + j] != p@[j];
                assert(t.skip(t.len() - p@.len())[j] == v@[start + j]);
            }
            break;
        }
    }
    let r = crate::backend::substring(&v, 0, n);
    assert(v@.subrange(0, n as int) == v@.take(n as int));
    r
}

} // verus!
