//! Text helpers with exact contracts: decimal numbers, joining, slicing, and
//! the small scanners that the parsers of command output share.

use vstd::prelude::*;
use vstd::string::*;

verus! {

/// The character of one decimal digit.
pub open spec fn digit_char(d: nat) -> char {
    if d == 0 {
        '0'
    } else if d == 1 {
        '1'
    } else if d == 2 {
        '2'
    } else if d == 3 {
        '3'
    } else if d == 4 {
        '4'
    } else if d == 5 {
        '5'
    } else if d == 6 {
        '6'
    } else if d == 7 {
        '7'
    } else if d == 8 {
        '8'
    } else {
        '9'
    }
}

/// The decimal numeral of `n`, without sign or leading zeros.
pub open spec fn decimal(n: nat) -> Seq<char>
    decreases n,
{
    if n < 10 {
        seq![digit_char(n)]
    } else {
        decimal(n / 10).push(digit_char(n % 10))
    }
}

/// A numeral has at least one digit.
pub proof fn lemma_decimal_is_not_empty(n: nat)
    ensures
        decimal(n).len() > 0,
{
}

/// `parts` written one after the other with `sep` between neighbours.
pub open spec fn join(parts: Seq<Seq<char>>, sep: Seq<char>) -> Seq<char>
    decreases parts.len(),
{
    if parts.len() == 0 {
        Seq::empty()
    } else if parts.len() == 1 {
        parts[0]
    } else {
        join(parts.drop_last(), sep) + sep + parts.last()
    }
}

/// The texts of a vector of strings.
pub open spec fn texts(v: Seq<String>) -> Seq<Seq<char>> {
    Seq::new(v.len(), |i: int| v[i]@)
}

fn digit_str(d: u64) -> (s: &'static str)
    requires
        d < 10,
    ensures
        s@ == seq![digit_char(d as nat)],
{
    proof {
        reveal_strlit("0");
        reveal_strlit("1");
        reveal_strlit("2");
        reveal_strlit("3");
        reveal_strlit("4");
        reveal_strlit("5");
        reveal_strlit("6");
        reveal_strlit("7");
        reveal_strlit("8");
        reveal_strlit("9");
    }
    let s = if d == 0 {
        "0"
    } else if d == 1 {
        "1"
    } else if d == 2 {
        "2"
    } else if d == 3 {
        "3"
    } else if d == 4 {
        "4"
    } else if d == 5 {
        "5"
    } else if d == 6 {
        "6"
    } else if d == 7 {
        "7"
    } else if d == 8 {
        "8"
    } else {
        "9"
    };
    assert(s@ =~= seq![digit_char(d as nat)]);
    s
}

/// Writes `n` in decimal.
pub fn decimal_string(n: u64) -> (s: String)
    ensures
        s@ == decimal(n as nat),
    decreases n,
{
    if n < 10 {
        String::from_str(digit_str(n))
    } else {
        let head = decimal_string(n / 10);
        let s = head.concat(digit_str(n % 10));
        assert(s@ =~= decimal((n / 10) as nat).push(digit_char((n % 10) as nat)));
        s
    }
}

/// The characters of `s`, one element each.
pub fn to_chars(s: &str) -> (v: Vec<char>)
    ensures
        v@ == s@,
{
    let mut v: Vec<char> = Vec::new();
    for c in it: s.chars()
        invariant
            v@ == it.seq().take(it.index() as int),
    {
        v.push(c);
    }
    v
}

/// The part of `s` from character `from` up to, not including, character `to`.
pub fn slice_string(s: &str, from: usize, to: usize) -> (r: String)
    requires
        from <= to <= s@.len(),
    ensures
        r@ == s@.subrange(from as int, to as int),
{
    String::from_str(s.substring_char(from, to))
}

/// Joins `parts` with `sep` between neighbours.
pub fn join_strings(parts: &Vec<String>, sep: &str) -> (s: String)
    ensures
        s@ == join(texts(parts@), sep@),
{
    let mut s = String::new();
    let mut i: usize = 0;
    while i < parts.len()
        invariant
            i <= parts.len(),
            s@ == join(texts(parts@).take(i as int), sep@),
        decreases parts.len() - i,
    {
        let ghost before = texts(parts@).take(i as int);
        let ghost after = texts(parts@).take(i + 1);
        assert(after.drop_last() =~= before);
        assert(after.last() == parts@[i as int]@);
        if i > 0 {
            s.append(sep);
        }
        s.append(parts[i].as_str());
        assert(s@ =~= join(after, sep@)) by {
            if i == 0 {
                assert(before =~= Seq::<Seq<char>>::empty());
            }
        }
        i = i + 1;
    }
    assert(texts(parts@).take(i as int) =~= texts(parts@));
    s
}

/// A copy of a vector of strings.
pub fn clone_strings(v: &Vec<String>) -> (r: Vec<String>)
    ensures
        texts(r@) == texts(v@),
{
    let mut r: Vec<String> = Vec::new();
    let mut i: usize = 0;
    while i < v.len()
        invariant
            i <= v.len(),
            r@.len() == i,
            forall|k: int| 0 <= k < i ==> r@[k]@ == v@[k]@,
        decreases v.len() - i,
    {
        r.push(v[i].clone());
        i = i + 1;
    }
    assert(texts(r@) =~= texts(v@));
    r
}

/// Whether `c` is white space in the sense of Unicode.
pub open spec fn is_whitespace(c: char) -> bool {
    let n = c as u32;
    (0x09 <= n <= 0x0d) || n == 0x20 || n == 0x85 || n == 0xa0 || n == 0x1680 || (0x2000 <= n
        <= 0x200a) || n == 0x2028 || n == 0x2029 || n == 0x202f || n == 0x205f || n == 0x3000
}

/// `s` without the white space at its start.
pub open spec fn trim_start(s: Seq<char>) -> Seq<char>
    decreases s.len(),
{
    if s.len() > 0 && is_whitespace(s[0]) {
        trim_start(s.drop_first())
    } else {
        s
    }
}

/// `s` without the white space at its end.
pub open spec fn trim_end(s: Seq<char>) -> Seq<char>
    decreases s.len(),
{
    if s.len() > 0 && is_whitespace(s.last()) {
        trim_end(s.drop_last())
    } else {
        s
    }
}

/// `s` without the white space at both ends.
pub open spec fn trimmed(s: Seq<char>) -> Seq<char> {
    trim_end(trim_start(s))
}

/// The position of the first `c` in `s`, or the length of `s` if there is none.
pub open spec fn first_index(s: Seq<char>, c: char) -> nat
    decreases s.len(),
{
    if s.len() == 0 || s[0] == c {
        0
    } else {
        1 + first_index(s.drop_first(), c)
    }
}

/// Whether `needle` stands in `hay` at position `i`.
pub open spec fn occurs_at(hay: Seq<char>, needle: Seq<char>, i: int) -> bool {
    0 <= i && i + needle.len() <= hay.len() && hay.subrange(i, i + needle.len()) == needle
}

/// Whether `needle` stands somewhere in `hay`.
pub open spec fn contains(hay: Seq<char>, needle: Seq<char>) -> bool {
    exists|i: int| occurs_at(hay, needle, i)
}

/// The longest end of `s` that holds no white space.
pub open spec fn last_run(s: Seq<char>) -> Seq<char>
    decreases s.len(),
{
    if s.len() == 0 || is_whitespace(s.last()) {
        Seq::empty()
    } else {
        last_run(s.drop_last()).push(s.last())
    }
}

/// The last of the words of `s` that white space separates, if it has a word.
pub open spec fn last_word(s: Seq<char>) -> Option<Seq<char>> {
    let word = last_run(trim_end(s));
    if word.len() == 0 {
        None
    } else {
        Some(word)
    }
}

/// What stands between the first `sep` of `s` and the next one, or the end;
/// nothing if `s` holds no `sep`.
pub open spec fn second_field(s: Seq<char>, sep: char) -> Option<Seq<char>> {
    let a = first_index(s, sep);
    if a >= s.len() {
        None
    } else {
        let rest = s.subrange(a as int + 1, s.len() as int);
        Some(rest.subrange(0, first_index(rest, sep) as int))
    }
}

/// A line without the carriage return that stood before its line feed.
pub open spec fn strip_cr(line: Seq<char>) -> Seq<char> {
    if line.len() > 0 && line.last() == '\r' {
        line.drop_last()
    } else {
        line
    }
}

/// The lines of `s`. A line ends at a line feed, or at a carriage return
/// followed by one, or at the end of the text; the text after the last line
/// feed is a line unless it is empty.
pub open spec fn lines_of(s: Seq<char>) -> Seq<Seq<char>>
    decreases s.len(),
{
    if s.len() == 0 {
        Seq::empty()
    } else {
        let k = first_index(s, '\n');
        if k >= s.len() {
            seq![s]
        } else {
            seq![strip_cr(s.subrange(0, k as int))] + lines_of(s.subrange(k as int + 1, s.len() as int))
        }
    }
}

/// The value of a decimal digit, if `c` is one.
pub open spec fn digit_value(c: char) -> Option<nat> {
    let n = c as u32;
    if 0x30 <= n <= 0x39 {
        Some((n - 0x30) as nat)
    } else {
        None
    }
}

/// Whether `s` holds decimal digits only.
pub open spec fn all_digits(s: Seq<char>) -> bool {
    forall|i: int| 0 <= i < s.len() ==> digit_value(#[trigger] s[i]) is Some
}

/// The number that the decimal digits of `s` write.
pub open spec fn number_of(s: Seq<char>) -> nat
    decreases s.len(),
{
    if s.len() == 0 {
        0
    } else {
        number_of(s.drop_last()) * 10 + digit_value(s.last()).unwrap_or(0)
    }
}

/// The number that `s` writes, as the standard parser of unsigned 32-bit
/// numbers reads it: decimal digits, at least one, after an optional plus
/// sign, and no more than the type holds.
pub open spec fn parse_u32(s: Seq<char>) -> Option<u32> {
    if s.len() > 0 && s[0] == '+' {
        parse_digits(s.drop_first())
    } else {
        parse_digits(s)
    }
}

/// The number that the digits write, if there is at least one, nothing else,
/// and an unsigned 32-bit number holds it.
pub open spec fn parse_digits(digits: Seq<char>) -> Option<u32> {
    if digits.len() == 0 || !all_digits(digits) || number_of(digits) > u32::MAX {
        None
    } else {
        Some(number_of(digits) as u32)
    }
}

/// Whether `c` is white space in the sense of Unicode.
pub fn is_whitespace_char(c: char) -> (b: bool)
    ensures
        b == is_whitespace(c),
{
    let n: u32 = c as u32;
    (0x09 <= n && n <= 0x0d) || n == 0x20 || n == 0x85 || n == 0xa0 || n == 0x1680 || (0x2000 <= n
        && n <= 0x200a) || n == 0x2028 || n == 0x2029 || n == 0x202f || n == 0x205f || n == 0x3000
}

/// The first `c` is where no `c` stands before and one stands, or the text ends.
pub proof fn lemma_first_index(s: Seq<char>, c: char, k: nat)
    requires
        k <= s.len(),
        forall|j: int| 0 <= j < k ==> s[j] != c,
        k == s.len() || s[k as int] == c,
    ensures
        first_index(s, c) == k,
    decreases k,
{
    if k > 0 {
        let rest = s.drop_first();
        assert forall|j: int| 0 <= j < k - 1 implies rest[j] != c by {
            assert(rest[j] == s[j + 1]);
        }
        lemma_first_index(rest, c, (k - 1) as nat);
    }
}

/// Trimming the start removes exactly the leading white space.
pub proof fn lemma_trim_start(s: Seq<char>, k: nat)
    requires
        k <= s.len(),
        forall|j: int| 0 <= j < k ==> is_whitespace(s[j]),
        k == s.len() || !is_whitespace(s[k as int]),
    ensures
        trim_start(s) == s.subrange(k as int, s.len() as int),
    decreases k,
{
    if k > 0 {
        let rest = s.drop_first();
        assert forall|j: int| 0 <= j < k - 1 implies is_whitespace(rest[j]) by {
            assert(rest[j] == s[j + 1]);
        }
        lemma_trim_start(rest, (k - 1) as nat);
        assert(rest.subrange(k - 1, rest.len() as int) =~= s.subrange(k as int, s.len() as int));
    } else {
        assert(s.subrange(0, s.len() as int) =~= s);
    }
}

/// Trimming the end removes exactly the trailing white space.
pub proof fn lemma_trim_end(s: Seq<char>, k: nat)
    requires
        k <= s.len(),
        forall|j: int| k <= j < s.len() ==> is_whitespace(s[j]),
        k == 0 || !is_whitespace(s[k - 1]),
    ensures
        trim_end(s) == s.subrange(0, k as int),
    decreases s.len() - k,
{
    if k < s.len() {
        let rest = s.drop_last();
        lemma_trim_end(rest, k);
        assert(rest.subrange(0, k as int) =~= s.subrange(0, k as int));
    } else {
        assert(s.subrange(0, s.len() as int) =~= s);
    }
}

/// The last run is what follows the last white space.
pub proof fn lemma_last_run(s: Seq<char>, k: nat)
    requires
        k <= s.len(),
        forall|j: int| k <= j < s.len() ==> !is_whitespace(s[j]),
        k == 0 || is_whitespace(s[k - 1]),
    ensures
        last_run(s) == s.subrange(k as int, s.len() as int),
    decreases s.len() - k,
{
    if k < s.len() {
        let rest = s.drop_last();
        lemma_last_run(rest, k);
        assert(rest.subrange(k as int, rest.len() as int).push(s.last()) =~= s.subrange(
            k as int,
            s.len() as int,
        ));
    } else {
        assert(s.subrange(s.len() as int, s.len() as int) =~= Seq::<char>::empty());
    }
}

/// The position of the first `c` in `v[from..to]`, or `to` if there is none.
pub fn find_char(v: &Vec<char>, from: usize, to: usize, c: char) -> (k: usize)
    requires
        from <= to <= v.len(),
    ensures
        from <= k <= to,
        k == from + first_index(v@.subrange(from as int, to as int), c),
{
    let mut k: usize = from;
    while k < to && v[k] != c
        invariant
            from <= k <= to <= v.len(),
            forall|j: int| from <= j < k ==> v@[j] != c,
        decreases to - k,
    {
        k = k + 1;
    }
    proof {
        lemma_first_index(v@.subrange(from as int, to as int), c, (k - from) as nat);
    }
    k
}

/// Where `v[from..to]` begins once the white space at its start is left out.
pub fn skip_whitespace(v: &Vec<char>, from: usize, to: usize) -> (k: usize)
    requires
        from <= to <= v.len(),
    ensures
        from <= k <= to,
        v@.subrange(k as int, to as int) == trim_start(v@.subrange(from as int, to as int)),
{
    let mut k: usize = from;
    while k < to && is_whitespace_char(v[k])
        invariant
            from <= k <= to <= v.len(),
            forall|j: int| from <= j < k ==> is_whitespace(v@[j]),
        decreases to - k,
    {
        k = k + 1;
    }
    proof {
        let s = v@.subrange(from as int, to as int);
        lemma_trim_start(s, (k - from) as nat);
        assert(s.subrange(k - from, s.len() as int) =~= v@.subrange(k as int, to as int));
    }
    k
}

/// Where `v[from..to]` ends once the white space at its end is left out.
pub fn skip_whitespace_back(v: &Vec<char>, from: usize, to: usize) -> (k: usize)
    requires
        from <= to <= v.len(),
    ensures
        from <= k <= to,
        v@.subrange(from as int, k as int) == trim_end(v@.subrange(from as int, to as int)),
{
    let mut k: usize = to;
    while k > from && is_whitespace_char(v[k - 1])
        invariant
            from <= k <= to <= v.len(),
            forall|j: int| k <= j < to ==> is_whitespace(v@[j]),
        decreases k,
    {
        k = k - 1;
    }
    proof {
        let s = v@.subrange(from as int, to as int);
        lemma_trim_end(s, (k - from) as nat);
        assert(s.subrange(0, k - from) =~= v@.subrange(from as int, k as int));
    }
    k
}

/// Where the last run without white space of `v[from..to]` begins.
pub fn run_start(v: &Vec<char>, from: usize, to: usize) -> (k: usize)
    requires
        from <= to <= v.len(),
    ensures
        from <= k <= to,
        v@.subrange(k as int, to as int) == last_run(v@.subrange(from as int, to as int)),
{
    let mut k: usize = to;
    while k > from && !is_whitespace_char(v[k - 1])
        invariant
            from <= k <= to <= v.len(),
            forall|j: int| k <= j < to ==> !is_whitespace(v@[j]),
        decreases k,
    {
        k = k - 1;
    }
    proof {
        let s = v@.subrange(from as int, to as int);
        lemma_last_run(s, (k - from) as nat);
        assert(s.subrange(k - from, s.len() as int) =~= v@.subrange(k as int, to as int));
    }
    k
}

/// Whether `needle` stands in `v` at position `start`.
pub fn holds_at(v: &Vec<char>, start: usize, needle: &Vec<char>) -> (b: bool)
    requires
        start + needle.len() <= v.len(),
    ensures
        b == (v@.subrange(start as int, start + needle.len()) == needle@),
{
    let mut i: usize = 0;
    while i < needle.len()
        invariant
            i <= needle.len(),
            start + needle.len() <= v.len(),
            forall|j: int| 0 <= j < i ==> v@[start + j] == needle@[j],
        decreases needle.len() - i,
    {
        if v[start + i] != needle[i] {
            assert(v@.subrange(start as int, start + needle.len())[i as int] != needle@[i as int]);
            return false;
        }
        i = i + 1;
    }
    assert(v@.subrange(start as int, start + needle.len()) =~= needle@);
    true
}

/// Whether `needle` stands somewhere in `v[from..to]`.
pub fn contains_in(v: &Vec<char>, from: usize, to: usize, needle: &Vec<char>) -> (b: bool)
    requires
        from <= to <= v.len(),
    ensures
        b == contains(v@.subrange(from as int, to as int), needle@),
{
    let ghost hay = v@.subrange(from as int, to as int);
    if needle.len() == 0 {
        assert(hay.subrange(0, 0) =~= needle@);
        assert(occurs_at(hay, needle@, 0));
        return true;
    }
    if needle.len() > to - from {
        assert(!contains(hay, needle@));
        return false;
    }
    let last: usize = to - needle.len();
    let mut i: usize = from;
    while i <= last
        invariant
            from <= i <= last + 1,
            needle.len() > 0,
            last + needle.len() == to,
            to <= v.len(),
            hay == v@.subrange(from as int, to as int),
            forall|j: int| 0 <= j < i - from ==> !occurs_at(hay, needle@, j),
        decreases last + 1 - i,
    {
        if holds_at(v, i, needle) {
            assert(hay.subrange(i - from, i - from + needle.len()) =~= v@.subrange(
                i as int,
                i + needle.len(),
            ));
            assert(occurs_at(hay, needle@, i - from));
            return true;
        }
        assert(!occurs_at(hay, needle@, i - from)) by {
            assert(hay.subrange(i - from, i - from + needle.len()) =~= v@.subrange(
                i as int,
                i + needle.len(),
            ));
        }
        i = i + 1;
    }
    assert(!contains(hay, needle@));
    false
}

/// The number that the text `v[from..to]` writes, if it writes one that an
/// unsigned 32-bit number holds.
pub fn parse_u32_in(v: &Vec<char>, from: usize, to: usize) -> (r: Option<u32>)
    requires
        from <= to <= v.len(),
    ensures
        r == parse_u32(v@.subrange(from as int, to as int)),
{
    let ghost s = v@.subrange(from as int, to as int);
    let start: usize = if from < to && v[from] == '+' {
        from + 1
    } else {
        from
    };
    let ghost digits = v@.subrange(start as int, to as int);
    assert(digits =~= if s.len() > 0 && s[0] == '+' {
        s.drop_first()
    } else {
        s
    });
    assert(parse_u32(s) == parse_digits(digits));
    if start == to {
        return None;
    }
    let mut value: u64 = 0;
    let mut i: usize = start;
    while i < to
        invariant
            from <= start <= i <= to <= v.len(),
            digits == v@.subrange(start as int, to as int),
            parse_u32(v@.subrange(from as int, to as int)) == parse_digits(digits),
            forall|j: int| 0 <= j < i - start ==> digit_value(#[trigger] digits[j]) is Some,
            value == number_of(digits.take(i - start)),
            value <= u32::MAX,
        decreases to - i,
    {
        let n: u32 = v[i] as u32;
        if n < 0x30 || n > 0x39 {
            assert(digit_value(digits[i - start]) is None);
            assert(!all_digits(digits));
            return None;
        }
        let ghost before = digits.take(i - start);
        let ghost after = digits.take(i - start + 1);
        assert(after.drop_last() =~= before);
        assert(after.last() == digits[i - start]);
        let next: u64 = value * 10 + (n - 0x30) as u64;
        assert(next == number_of(after));
        if next > 0xffff_ffff {
            proof {
                lemma_number_grows(digits, (i - start + 1) as nat);
            }
            return None;
        }
        value = next;
        i = i + 1;
    }
    assert(digits.take(to - start) =~= digits);
    Some(value as u32)
}

/// A longer numeral does not write a smaller number.
pub proof fn lemma_number_grows(s: Seq<char>, k: nat)
    requires
        k <= s.len(),
    ensures
        number_of(s.take(k as int)) <= number_of(s),
    decreases s.len() - k,
{
    if k < s.len() {
        lemma_number_grows(s, k + 1);
        let longer = s.take(k as int + 1);
        assert(longer.drop_last() =~= s.take(k as int));
    } else {
        assert(s.take(k as int) =~= s);
    }
}

/// The texts that the ranges cut out of `s`.
pub open spec fn range_texts(s: Seq<char>, ranges: Seq<(usize, usize)>) -> Seq<Seq<char>> {
    Seq::new(ranges.len(), |i: int| s.subrange(ranges[i].0 as int, ranges[i].1 as int))
}

/// The lines of `v`, each as the range of positions that it takes.
pub fn split_lines(v: &Vec<char>) -> (r: Vec<(usize, usize)>)
    ensures
        forall|i: int| 0 <= i < r.len() ==> (#[trigger] r[i]).0 <= r[i].1 <= v.len(),
        range_texts(v@, r@) == lines_of(v@),
{
    let len: usize = v.len();
    let mut r: Vec<(usize, usize)> = Vec::new();
    let mut p: usize = 0;
    assert(v@.subrange(0, len as int) =~= v@);
    assert(range_texts(v@, r@) =~= Seq::<Seq<char>>::empty());
    while p < len
        invariant
            p <= len,
            len == v.len(),
            forall|i: int| 0 <= i < r.len() ==> (#[trigger] r[i]).0 <= r[i].1 <= v.len(),
            lines_of(v@) == range_texts(v@, r@) + lines_of(v@.subrange(p as int, len as int)),
        decreases len - p,
    {
        let ghost rest = v@.subrange(p as int, len as int);
        let ghost done = range_texts(v@, r@);
        let k: usize = find_char(v, p, len, '\n');
        if k >= len {
            r.push((p, len));
            assert(range_texts(v@, r@) =~= done.push(rest));
            assert(v@.subrange(len as int, len as int) =~= Seq::<char>::empty());
            assert(lines_of(v@.subrange(len as int, len as int)) =~= Seq::<Seq<char>>::empty());
            assert(done + seq![rest] =~= done.push(rest) + Seq::<Seq<char>>::empty());
            p = len;
        } else {
            let end: usize = if k > p && v[k - 1] == '\r' {
                k - 1
            } else {
                k
            };
            let ghost line = rest.subrange(0, k - p);
            assert(line =~= v@.subrange(p as int, k as int));
            assert(strip_cr(line) =~= v@.subrange(p as int, end as int));
            assert(rest.subrange(k - p + 1, rest.len() as int) =~= v@.subrange(k + 1, len as int));
            r.push((p, end));
            assert(range_texts(v@, r@) =~= done.push(strip_cr(line)));
            assert(done + (seq![strip_cr(line)] + lines_of(v@.subrange(k + 1, len as int)))
                =~= done.push(strip_cr(line)) + lines_of(v@.subrange(k + 1, len as int)));
            p = k + 1;
        }
    }
    assert(v@.subrange(len as int, len as int) =~= Seq::<char>::empty());
    assert(range_texts(v@, r@) + Seq::<Seq<char>>::empty() =~= range_texts(v@, r@));
    r
}

/// The range of the last word of `v[from..to]`, if it has a word.
pub fn last_word_in(v: &Vec<char>, from: usize, to: usize) -> (r: Option<(usize, usize)>)
    requires
        from <= to <= v.len(),
    ensures
        r is Some <==> last_word(v@.subrange(from as int, to as int)) is Some,
        r is Some ==> from <= r.unwrap().0 <= r.unwrap().1 <= to && Some(
            v@.subrange(r.unwrap().0 as int, r.unwrap().1 as int),
        ) == last_word(v@.subrange(from as int, to as int)),
{
    let end: usize = skip_whitespace_back(v, from, to);
    let start: usize = run_start(v, from, end);
    if start == end {
        assert(v@.subrange(start as int, end as int) =~= Seq::<char>::empty());
        None
    } else {
        Some((start, end))
    }
}

/// The range of what stands in `v[from..to]` between the first `sep` and the
/// next one, or the end; nothing if there is no `sep`.
pub fn second_field_in(v: &Vec<char>, from: usize, to: usize, sep: char) -> (r: Option<
    (usize, usize),
>)
    requires
        from <= to <= v.len(),
    ensures
        r is Some <==> second_field(v@.subrange(from as int, to as int), sep) is Some,
        r is Some ==> from <= r.unwrap().0 <= r.unwrap().1 <= to && Some(
            v@.subrange(r.unwrap().0 as int, r.unwrap().1 as int),
        ) == second_field(v@.subrange(from as int, to as int), sep),
{
    let ghost s = v@.subrange(from as int, to as int);
    let a: usize = find_char(v, from, to, sep);
    if a >= to {
        None
    } else {
        let b: usize = find_char(v, a + 1, to, sep);
        proof {
            let rest = s.subrange(a - from + 1, s.len() as int);
            assert(rest =~= v@.subrange(a + 1, to as int));
            assert(rest.subrange(0, b - a - 1) =~= v@.subrange(a + 1, b as int));
        }
        Some((a + 1, b))
    }
}

/// The range of `v[from..to]` without the white space at both ends.
pub fn trim_in(v: &Vec<char>, from: usize, to: usize) -> (r: (usize, usize))
    requires
        from <= to <= v.len(),
    ensures
        from <= r.0 <= r.1 <= to,
        v@.subrange(r.0 as int, r.1 as int) == trimmed(v@.subrange(from as int, to as int)),
{
    let start: usize = skip_whitespace(v, from, to);
    let end: usize = skip_whitespace_back(v, start, to);
    (start, end)
}

/// The number that `s` writes once the white space at both ends is left out.
pub fn parse_trimmed_u32(s: &str) -> (r: Option<u32>)
    ensures
        r == parse_u32(trimmed(s@)),
{
    let v = to_chars(s);
    let range = trim_in(&v, 0, v.len());
    assert(v@.subrange(0, v.len() as int) =~= v@);
    parse_u32_in(&v, range.0, range.1)
}

} // verus!
