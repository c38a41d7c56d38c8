//! Text primitives over the characters of a string.
use vstd::prelude::*;
use vstd::utf8::*;

verus! {

broadcast use vstd::string::group_string_axioms;

/// Appends one character, as the documentation of `String::push` says.
pub assume_specification[ String::push ](s: &mut String, c: char)
    ensures
        final(s)@ == old(s)@.push(c),
;

/// The characters of an optional string.
pub open spec fn opt_text(o: Option<String>) -> Option<Seq<char>> {
    match o {
        Some(s) => Some(s@),
        None => None,
    }
}

/// The characters of each string of a list.
pub open spec fn texts(v: Seq<String>) -> Seq<Seq<char>> {
    v.map_values(|s: String| s@)
}

/// Whether two strings hold the same characters.
pub fn str_eq(a: &str, b: &str) -> (r: bool)
    ensures
        r == (a@ == b@),
{
    let x = a.as_bytes();
    let y = b.as_bytes();
    proof {
        encode_utf8_decode_utf8(a@);
        encode_utf8_decode_utf8(b@);
    }
    if x.len() != y.len() {
        return false;
    }
    let mut i: usize = 0;
    while i < x.len()
        invariant
            i <= x.len(),
            x.len() == y.len(),
            x@ == encode_utf8(a@),
            y@ == encode_utf8(b@),
            forall|j: int| 0 <= j < i ==> x@[j] == y@[j],
        decreases x.len() - i,
    {
        if x[i] != y[i] {
            assert(x@[i as int] != y@[i as int]);
            return false;
        }
        i += 1;
    }
    assert(x@ =~= y@);
    true
}

/// Whether two optional strings are both absent or hold the same characters.
pub fn opt_eq(a: &Option<String>, b: &Option<String>) -> (r: bool)
    ensures
        r == (opt_text(*a) == opt_text(*b)),
{
    match (a, b) {
        (Some(x), Some(y)) => str_eq(x.as_str(), y.as_str()),
        (None, None) => true,
        _ => false,
    }
}

/// The characters of a string, in order.
pub fn chars_of(s: &str) -> (r: Vec<char>)
    ensures
        r@ == s@,
{
    let mut r: Vec<char> = Vec::new();
    for c in it: s.chars()
        invariant
            r@ == it.seq().take(it.index() as int),
            it.seq() == s@,
    {
        r.push(c);
        assert(it.seq().take(it.index() + 1) =~= it.seq().take(it.index() as int).push(c));
    }
    assert(s@.take(s@.len() as int) =~= s@);
    r
}

/// The string made of the given characters.
pub fn string_of(chars: &Vec<char>, from: usize, to: usize) -> (r: String)
    requires
        from <= to <= chars@.len(),
    ensures
        r@ == chars@.subrange(from as int, to as int),
{
    let mut r = String::new();
    let mut i = from;
    while i < to
        invariant
            from <= i <= to <= chars@.len(),
            r@ == chars@.subrange(from as int, i as int),
        decreases to - i,
    {
        r.push(chars[i]);
        i += 1;
        assert(chars@.subrange(from as int, i as int) =~= chars@.subrange(
            from as int,
            i - 1,
        ).push(chars@[i - 1]));
    }
    r
}

/// The concatenation of two strings.
pub fn concat(a: &str, b: &str) -> (r: String)
    ensures
        r@ == a@ + b@,
{
    let mut r = a.to_owned();
    r.append(b);
    r
}

/// The concatenation of three strings.
pub fn concat3(a: &str, b: &str, c: &str) -> (r: String)
    ensures
        r@ == a@ + b@ + c@,
{
    let mut r = concat(a, b);
    r.append(c);
    r
}

/// Whether `needle` stands in `hay` at position `at`.
pub open spec fn occurs_at(hay: Seq<char>, needle: Seq<char>, at: int) -> bool {
    &&& 0 <= at
    &&& at + needle.len() <= hay.len()
    &&& hay.subrange(at, at + needle.len()) == needle
}

/// Whether `needle` stands anywhere in `hay`.
pub open spec fn occurs(hay: Seq<char>, needle: Seq<char>) -> bool {
    exists|at: int| #[trigger] occurs_at(hay, needle, at)
}

/// Whether `needle` stands in `hay` at position `at`.
fn matches_at(hay: &Vec<char>, needle: &Vec<char>, at: usize) -> (r: bool)
    requires
        at <= hay@.len(),
    ensures
        r == occurs_at(hay@, needle@, at as int),
{
    if needle.len() > hay.len() - at {
        return false;
    }
    let mut i: usize = 0;
    while i < needle.len()
        invariant
            i <= needle@.len(),
            at + needle@.len() <= hay.len(),
            forall|j: int| 0 <= j < i ==> hay@[at + j] == needle@[j],
        decreases needle@.len() - i,
    {
        if hay[at + i] != needle[i] {
            assert(hay@.subrange(at as int, at + needle@.len())[i as int] != needle@[i as int]);
            return false;
        }
        i += 1;
    }
    assert(hay@.subrange(at as int, at + needle@.len()) =~= needle@);
    true
}

/// Whether `needle` stands anywhere in `hay`.
pub fn contains(hay: &str, needle: &str) -> (r: bool)
    ensures
        r == occurs(hay@, needle@),
{
    let h = chars_of(hay);
    let n = chars_of(needle);
    let mut at: usize = 0;
    while at <= h.len()
        invariant
            h@ == hay@,
            n@ == needle@,
            at <= h@.len() + 1,
            forall|j: int| 0 <= j < at ==> !occurs_at(h@, n@, j),
        decreases h@.len() + 1 - at,
    {
        if matches_at(&h, &n, at) {
            return true;
        }
        if at == h.len() {
            assert(forall|j: int| 0 <= j <= at ==> !occurs_at(h@, n@, j));
            return false;
        }
        at += 1;
    }
    false
}

/// Whether `s` begins with `prefix`.
pub fn starts_with(s: &str, prefix: &str) -> (r: bool)
    ensures
        r == prefix@.is_prefix_of(s@),
{
    let h = chars_of(s);
    let n = chars_of(prefix);
    matches_at(&h, &n, 0)
}

/// The text in which each occurrence of `from`, read left to right without overlaps, is
/// replaced by `to`.
pub open spec fn replaced(s: Seq<char>, from: Seq<char>, to: Seq<char>) -> Seq<char>
    decreases s.len(),
{
    if s.len() == 0 || from.len() == 0 {
        s
    } else if occurs_at(s, from, 0) {
        to + replaced(s.skip(from.len() as int), from, to)
    } else {
        seq![s[0]] + replaced(s.skip(1), from, to)
    }
}

/// Replaces each occurrence of a non-empty text.
pub fn replace(s: &str, from: &str, to: &str) -> (r: String)
    requires
        from@.len() > 0,
    ensures
        r@ == replaced(s@, from@, to@),
{
    let h = chars_of(s);
    let n = chars_of(from);
    let mut r = String::new();
    let mut at: usize = 0;
    assert(s@.skip(0) =~= s@);
    while at < h.len()
        invariant
            h@ == s@,
            n@ == from@,
            n@.len() > 0,
            at <= h@.len(),
            r@ + replaced(s@.skip(at as int), from@, to@) == replaced(s@, from@, to@),
        decreases h@.len() - at,
    {
        let ghost rest = s@.skip(at as int);
        let hit = matches_at(&h, &n, at);
        assert(hit == occurs_at(rest, from@, 0)) by {
            if at + n@.len() <= h@.len() {
                assert(rest.subrange(0, from@.len() as int) =~= s@.subrange(
                    at as int,
                    at + from@.len(),
                ));
            }
        }
        if hit {
            r.append(to);
            at += n.len();
            assert(rest.skip(from@.len() as int) =~= s@.skip(at as int));
        } else {
            r.push(h[at]);
            at += 1;
            assert(rest.skip(1) =~= s@.skip(at as int));
        }
        assert(r@ + replaced(s@.skip(at as int), from@, to@) =~= replaced(s@, from@, to@));
    }
    assert(r@ + s@.skip(at as int) =~= r@);
    r
}

/// The ASCII lower-case form of a character; other characters stand for themselves.
pub open spec fn ascii_lower(c: char) -> char {
    if 'A' <= c && c <= 'Z' {
        ((c as u32) + 32) as char
    } else {
        c
    }
}

/// Whether two texts differ at most in the case of ASCII letters.
pub open spec fn same_ignoring_ascii_case(a: Seq<char>, b: Seq<char>) -> bool {
    &&& a.len() == b.len()
    &&& forall|i: int| 0 <= i < a.len() ==> ascii_lower(#[trigger] a[i]) == ascii_lower(b[i])
}

fn char_eq_ignore_ascii_case(a: char, b: char) -> (r: bool)
    ensures
        r == (ascii_lower(a) == ascii_lower(b)),
{
    let x: u32 = a as u32;
    let y: u32 = b as u32;
    let lx: u32 = if 65 <= x && x <= 90 { x + 32 } else { x };
    let ly: u32 = if 65 <= y && y <= 90 { y + 32 } else { y };
    lx == ly
}

/// Whether two strings differ at most in the case of ASCII letters.
pub fn eq_ignore_ascii_case(a: &str, b: &str) -> (r: bool)
    ensures
        r == same_ignoring_ascii_case(a@, b@),
{
    let x = chars_of(a);
    let y = chars_of(b);
    if x.len() != y.len() {
        return false;
    }
    let mut i: usize = 0;
    while i < x.len()
        invariant
            x@ == a@,
            y@ == b@,
            x@.len() == y@.len(),
            i <= x@.len(),
            forall|j: int| 0 <= j < i ==> ascii_lower(#[trigger] x@[j]) == ascii_lower(y@[j]),
        decreases x@.len() - i,
    {
        if !char_eq_ignore_ascii_case(x[i], y[i]) {
            assert(ascii_lower(a@[i as int]) != ascii_lower(b@[i as int]));
            return false;
        }
        i += 1;
    }
    true
}

/// The Unicode `White_Space` property.
pub open spec fn is_white(c: char) -> bool {
    let u = c as u32;
    ||| 0x9 <= u <= 0xd
    ||| u == 0x20
    ||| u == 0x85
    ||| u == 0xa0
    ||| u == 0x1680
    ||| 0x2000 <= u <= 0x200a
    ||| u == 0x2028
    ||| u == 0x2029
    ||| u == 0x202f
    ||| u == 0x205f
    ||| u == 0x3000
}

/// Whether a character has the Unicode `White_Space` property.
pub fn is_white_space(c: char) -> (r: bool)
    ensures
        r == is_white(c),
{
    let u: u32 = c as u32;
    (0x9 <= u && u <= 0xd) || u == 0x20 || u == 0x85 || u == 0xa0 || u == 0x1680 || (0x2000 <= u
        && u <= 0x200a) || u == 0x2028 || u == 0x2029 || u == 0x202f || u == 0x205f || u == 0x3000
}

/// A text without the white space that it begins with.
pub open spec fn trimmed_start(s: Seq<char>) -> Seq<char>
    decreases s.len(),
{
    if s.len() > 0 && is_white(s[0]) {
        trimmed_start(s.skip(1))
    } else {
        s
    }
}

/// The first place from `at` on where no white space stands.
fn skip_white(s: &Vec<char>, at: usize) -> (r: usize)
    requires
        at <= s@.len(),
    ensures
        at <= r <= s@.len(),
        s@.skip(r as int) == trimmed_start(s@.skip(at as int)),
{
    let mut i: usize = at;
    while i < s.len() && is_white_space(s[i])
        invariant
            at <= i <= s@.len(),
            trimmed_start(s@.skip(i as int)) == trimmed_start(s@.skip(at as int)),
        decreases s@.len() - i,
    {
        assert(s@.skip(i as int).skip(1) =~= s@.skip(i + 1));
        i += 1;
    }
    i
}

/// Whether a text begins with a declaration that sets a property to a value: the two with a colon
/// between them, and white space around the colon at most.
pub open spec fn begins_declaration(s: Seq<char>, property: Seq<char>, value: Seq<char>) -> bool {
    &&& property.is_prefix_of(s)
    &&& {
        let rest = trimmed_start(s.skip(property.len() as int));
        &&& rest.len() > 0
        &&& rest[0] == ':'
        &&& value.is_prefix_of(trimmed_start(rest.skip(1)))
    }
}

/// Whether such a declaration stands anywhere in a text.
pub open spec fn declares(s: Seq<char>, property: Seq<char>, value: Seq<char>) -> bool {
    exists|at: int|
        0 <= at <= s.len() && #[trigger] begins_declaration(s.skip(at), property, value)
}

fn declares_at(s: &Vec<char>, at: usize, property: &Vec<char>, value: &Vec<char>) -> (r: bool)
    requires
        at <= s@.len(),
    ensures
        r == begins_declaration(s@.skip(at as int), property@, value@),
{
    let ghost here = s@.skip(at as int);
    let begins = matches_at(s, property, at);
    assert(begins == property@.is_prefix_of(here)) by {
        if at + property@.len() <= s@.len() {
            assert(s@.subrange(at as int, at + property@.len()) =~= here.subrange(
                0,
                property@.len() as int,
            ));
        }
    }
    if !begins {
        return false;
    }
    assert(at + property@.len() <= s.len());
    let colon = skip_white(s, at + property.len());
    assert(s@.skip(at + property@.len()) =~= here.skip(property@.len() as int));
    if colon == s.len() || s[colon] != ':' {
        return false;
    }
    let ghost rest = s@.skip(colon as int);
    assert(rest[0] == ':');
    assert(s@.skip(colon + 1) =~= rest.skip(1));
    let from = skip_white(s, colon + 1);
    let ghost tail = s@.skip(from as int);
    let ends = matches_at(s, value, from);
    assert(ends == value@.is_prefix_of(tail)) by {
        if from + value@.len() <= s@.len() {
            assert(s@.subrange(from as int, from + value@.len()) =~= tail.subrange(
                0,
                value@.len() as int,
            ));
        }
    }
    ends
}

/// Whether a style sets a property to a value.
pub fn sets_property(style: &str, property: &str, value: &str) -> (r: bool)
    ensures
        r == declares(style@, property@, value@),
{
    let s = chars_of(style);
    let p = chars_of(property);
    let v = chars_of(value);
    let mut at: usize = 0;
    while at < s.len()
        invariant
            s@ == style@,
            p@ == property@,
            v@ == value@,
            at <= s@.len(),
            forall|j: int|
                0 <= j < at ==> !(#[trigger] begins_declaration(s@.skip(j), p@, v@)),
        decreases s@.len() - at,
    {
        if declares_at(&s, at, &p, &v) {
            return true;
        }
        at += 1;
    }
    declares_at(&s, at, &p, &v)
}

/// How many characters stand before the first white space of a text.
pub open spec fn word_len(s: Seq<char>) -> nat
    decreases s.len(),
{
    if s.len() == 0 || is_white(s[0]) {
        0
    } else {
        1 + word_len(s.skip(1))
    }
}

/// The maximal runs of characters other than white space, in order.
pub open spec fn words(s: Seq<char>) -> Seq<Seq<char>>
    decreases s.len(),
{
    if s.len() == 0 {
        Seq::empty()
    } else if is_white(s[0]) {
        words(s.skip(1))
    } else {
        proof {
            lemma_word_len_bound(s);
        }
        seq![s.take(word_len(s) as int)] + words(s.skip(word_len(s) as int))
    }
}

/// A word is no longer than the text that it stands in.
pub proof fn lemma_word_len_bound(s: Seq<char>)
    ensures
        word_len(s) <= s.len(),
    decreases s.len(),
{
    if s.len() > 0 {
        lemma_word_len_bound(s.skip(1));
    }
}

proof fn lemma_word_len(s: Seq<char>, n: int)
    requires
        0 <= n <= s.len(),
        forall|i: int| 0 <= i < n ==> !is_white(#[trigger] s[i]),
        n < s.len() ==> is_white(s[n]),
    ensures
        word_len(s) == n,
    decreases n,
{
    if n > 0 {
        let t = s.skip(1);
        assert forall|i: int| 0 <= i < n - 1 implies !is_white(#[trigger] t[i]) by {
            assert(t[i] == s[i + 1]);
        }
        lemma_word_len(t, n - 1);
    }
}

/// Splits a string at runs of white space.
pub fn split_whitespace(s: &str) -> (r: Vec<String>)
    ensures
        texts(r@) == words(s@),
{
    let h = chars_of(s);
    let mut r: Vec<String> = Vec::new();
    let mut at: usize = 0;
    assert(s@.skip(0) =~= s@);
    assert(texts(r@) =~= Seq::<Seq<char>>::empty());
    assert(texts(r@) + words(s@) =~= words(s@));
    while at < h.len()
        invariant
            h@ == s@,
            at <= h@.len(),
            texts(r@) + words(s@.skip(at as int)) == words(s@),
        decreases h@.len() - at,
    {
        let ghost rest = s@.skip(at as int);
        if is_white_space(h[at]) {
            at += 1;
            assert(rest.skip(1) =~= s@.skip(at as int));
        } else {
            let start = at;
            let ghost before = texts(r@);
            while at < h.len() && !is_white_space(h[at])
                invariant
                    h@ == s@,
                    start <= at <= h@.len(),
                    start < h@.len(),
                    forall|i: int| start <= i < at ==> !is_white(#[trigger] h@[i]),
                decreases h@.len() - at,
            {
                at += 1;
            }
            assert(!is_white(h@[start as int]));
            assert(at > start);
            proof {
                let n = at - start;
                assert forall|i: int| 0 <= i < n implies !is_white(#[trigger] rest[i]) by {
                    assert(rest[i] == h@[start + i]);
                }
                lemma_word_len(rest, n);
                assert(rest.take(n) =~= h@.subrange(start as int, at as int));
                assert(rest.skip(n) =~= s@.skip(at as int));
            }
            let word = string_of(&h, start, at);
            r.push(word);
            assert(texts(r@) =~= before.push(word@));
            assert(before + (seq![word@] + words(s@.skip(at as int))) =~= texts(r@) + words(
                s@.skip(at as int),
            ));
        }
    }
    assert(texts(r@) + words(s@.skip(at as int)) =~= texts(r@));
    r
}

/// The decimal digit of a number below ten.
pub open spec fn digit_char(d: nat) -> char {
    (('0' as u32) + d) as char
}

/// The decimal notation of a number, without leading zeros.
pub open spec fn decimal(n: nat) -> Seq<char>
    decreases n,
{
    if n < 10 {
        seq![digit_char(n)]
    } else {
        decimal(n / 10).push(digit_char(n % 10))
    }
}

fn digit_of(d: u128) -> (c: char)
    requires
        d < 10,
    ensures
        c == digit_char(d as nat),
{
    if d == 0 {
        '0'
    } else if d == 1 {
        '1'
    } else if d == 2 {
        '2'
    } else if d == 3 {
        '3'
    } else if d == 4 {
        '4'
    } else if d == 5 {
        '5'
    } else if d == 6 {
        '6'
    } else if d == 7 {
        '7'
    } else if d == 8 {
        '8'
    } else {
        '9'
    }
}

/// The decimal notation of a number.
pub fn decimal_string(n: u128) -> (r: String)
    ensures
        r@ == decimal(n as nat),
    decreases n,
{
    if n < 10 {
        let mut r = String::new();
        r.push(digit_of(n));
        assert(r@ =~= decimal(n as nat));
        r
    } else {
        let mut r = decimal_string(n / 10);
        r.push(digit_of(n % 10));
        r
    }
}

/// Whether a character is an ASCII digit.
pub open spec fn is_digit(c: char) -> bool {
    '0' <= c && c <= '9'
}

/// Whether a text is one or more ASCII digits.
pub open spec fn is_number(s: Seq<char>) -> bool {
    &&& s.len() > 0
    &&& forall|i: int| 0 <= i < s.len() ==> is_digit(#[trigger] s[i])
}

/// The number that a text of ASCII digits denotes.
pub open spec fn number(s: Seq<char>) -> nat
    decreases s.len(),
{
    if s.len() == 0 {
        0
    } else {
        (10 * number(s.drop_last()) + ((s.last() as u32) - ('0' as u32))) as nat
    }
}

/// What a text denotes as an unsigned number of at most `max`: an optional `+`, then digits.
pub open spec fn unsigned(s: Seq<char>, max: nat) -> Option<nat> {
    let body = if s.len() > 0 && s[0] == '+' {
        s.skip(1)
    } else {
        s
    };
    if is_number(body) && number(body) <= max {
        Some(number(body))
    } else {
        None
    }
}

/// What a text denotes as a signed 64-bit number: an optional `+` or `-`, then digits.
pub open spec fn signed(s: Seq<char>) -> Option<int> {
    if s.len() > 0 && s[0] == '-' {
        if is_number(s.skip(1)) && number(s.skip(1)) <= 0x8000_0000_0000_0000 {
            Some(-(number(s.skip(1)) as int))
        } else {
            None
        }
    } else {
        match unsigned(s, 0x7fff_ffff_ffff_ffff) {
            Some(n) => Some(n as int),
            None => None,
        }
    }
}

proof fn lemma_number_grows(s: Seq<char>, i: int)
    requires
        0 <= i <= s.len(),
        forall|j: int| 0 <= j < s.len() ==> is_digit(#[trigger] s[j]),
    ensures
        number(s.take(i)) <= number(s),
    decreases s.len(),
{
    if i < s.len() {
        lemma_number_grows(s.drop_last(), i);
        assert(s.drop_last().take(i) =~= s.take(i));
    } else {
        assert(s.take(i) =~= s);
    }
}

fn digit_value(c: char) -> (r: Option<u64>)
    ensures
        match r {
            Some(d) => is_digit(c) && d == (c as u32) - ('0' as u32) && d < 10,
            None => !is_digit(c),
        },
{
    let u: u32 = c as u32;
    if u < 48 || u > 57 {
        None
    } else {
        Some((u - 48) as u64)
    }
}

/// Reads the digits from position `from` on.
fn parse_digits(chars: &Vec<char>, from: usize, max: u64) -> (r: Option<u64>)
    requires
        from <= chars@.len(),
    ensures
        ({
            let body = chars@.skip(from as int);
            match r {
                Some(n) => is_number(body) && number(body) <= max && n == number(body),
                None => !(is_number(body) && number(body) <= max),
            }
        }),
{
    let ghost body = chars@.skip(from as int);
    if from == chars.len() {
        return None;
    }
    let mut n: u64 = 0;
    let mut i = from;
    assert(body.take(0) =~= Seq::<char>::empty());
    while i < chars.len()
        invariant
            from <= i <= chars@.len(),
            body == chars@.skip(from as int),
            forall|j: int| 0 <= j < i - from ==> is_digit(#[trigger] body[j]),
            n == number(body.take(i - from)),
            n <= max,
        decreases chars@.len() - i,
    {
        assert(body[i - from] == chars@[i as int]);
        let d: u64 = match digit_value(chars[i]) {
            Some(d) => d,
            None => {
                return None;
            },
        };
        proof {
            assert(body.take(i + 1 - from).drop_last() =~= body.take(i - from));
            assert(number(body.take(i + 1 - from)) == 10 * n + d);
            if is_number(body) {
                lemma_number_grows(body, i + 1 - from);
            }
        }
        let wide: u128 = 10 * (n as u128) + (d as u128);
        if wide > max as u128 {
            return None;
        }
        n = wide as u64;
        i += 1;
    }
    assert(body.take(i - from) =~= body);
    Some(n)
}

/// Reads an unsigned number of at most `max`.
pub fn parse_unsigned(s: &str, max: u64) -> (r: Option<u64>)
    ensures
        match r {
            Some(n) => unsigned(s@, max as nat) == Some(n as nat),
            None => unsigned(s@, max as nat) is None,
        },
{
    let h = chars_of(s);
    assert(h@.skip(0) =~= h@);
    if h.len() > 0 && h[0] == '+' {
        parse_digits(&h, 1, max)
    } else {
        parse_digits(&h, 0, max)
    }
}

/// Reads a signed 64-bit number.
pub fn parse_signed(s: &str) -> (r: Option<i64>)
    ensures
        match r {
            Some(n) => signed(s@) == Some(n as int),
            None => signed(s@) is None,
        },
{
    let h = chars_of(s);
    if h.len() > 0 && h[0] == '-' {
        match parse_digits(&h, 1, 0x8000_0000_0000_0000) {
            Some(n) => {
                let wide: i128 = -(n as i128);
                Some(wide as i64)
            },
            None => None,
        }
    } else {
        match parse_unsigned(s, 0x7fff_ffff_ffff_ffff) {
            Some(n) => Some(n as i64),
            None => None,
        }
    }
}

/// A list of texts with one more where there is a reason for it.
pub open spec fn noted(list: Seq<Seq<char>>, reason: bool, text: Seq<char>) -> Seq<Seq<char>> {
    if reason {
        list.push(text)
    } else {
        list
    }
}

/// Adds a text to a list where there is a reason for it.
pub fn note(list: Vec<&'static str>, reason: bool, text: &'static str) -> (r: Vec<&'static str>)
    ensures
        r@.map_values(|t: &'static str| t@) == noted(
            list@.map_values(|t: &'static str| t@),
            reason,
            text@,
        ),
{
    let ghost before = list@;
    let mut list = list;
    if reason {
        list.push(text);
        assert(list@.map_values(|t: &'static str| t@) =~= before.map_values(
            |t: &'static str| t@,
        ).push(text@));
    }
    list
}

/// What an optional text says is the text, where there is one.
pub proof fn law_optional_text(text: String)
    ensures
        opt_text(Some(text)) == Some(text@),
        opt_text(None) is None,
{
}

/// A list of texts says what each of them says, in their order.
pub proof fn law_texts_are_in_order(list: Seq<String>)
    ensures
        texts(list).len() == list.len(),
        forall|i: int| 0 <= i < list.len() ==> #[trigger] texts(list)[i] == list[i]@,
{
}

/// A text stands in another exactly if the other is something, then the text, then something.
pub proof fn law_occurrence_splits(hay: Seq<char>, needle: Seq<char>)
    ensures
        occurs(hay, needle) <==> exists|before: Seq<char>, after: Seq<char>|
            hay == #[trigger] (before + needle + after),
{
    if occurs(hay, needle) {
        let at = choose|at: int| #[trigger] occurs_at(hay, needle, at);
        let before = hay.take(at);
        let after = hay.skip(at + needle.len());
        assert(hay =~= before + needle + after);
    }
    if exists|before: Seq<char>, after: Seq<char>| hay == #[trigger] (before + needle + after) {
        let (before, after) = choose|before: Seq<char>, after: Seq<char>|
            hay == #[trigger] (before + needle + after);
        let at = before.len() as int;
        assert(hay.subrange(at, at + needle.len()) =~= needle);
        assert(occurs_at(hay, needle, at));
    }
}

/// Replacing goes from left to right: what begins with the text sought loses it for the new one,
/// and what does not keeps its first character.
pub proof fn law_replacing_goes_left_to_right(
    from: Seq<char>,
    to: Seq<char>,
    rest: Seq<char>,
    c: char,
)
    requires
        from.len() > 0,
    ensures
        replaced(Seq::empty(), from, to) == Seq::<char>::empty(),
        replaced(from + rest, from, to) == to + replaced(rest, from, to),
        !from.is_prefix_of(seq![c] + rest) ==> replaced(seq![c] + rest, from, to) == seq![c]
            + replaced(rest, from, to),
{
    assert((from + rest).subrange(0, from.len() as int) =~= from);
    assert((from + rest).skip(from.len() as int) =~= rest);
    assert((seq![c] + rest).skip(1) =~= rest);
}

/// Two texts are the same but for case exactly if they are equally long and differ at most where
/// one has an ASCII capital and the other its small letter.
pub proof fn law_case_of_ascii_letters(a: Seq<char>, b: Seq<char>)
    ensures
        same_ignoring_ascii_case(a, b) <==> a.len() == b.len() && forall|i: int|
            0 <= i < a.len() ==> {
                ||| #[trigger] a[i] == b[i]
                ||| 65 <= (a[i] as u32) <= 90 && (b[i] as u32) == (a[i] as u32) + 32
                ||| 65 <= (b[i] as u32) <= 90 && (a[i] as u32) == (b[i] as u32) + 32
            },
{
    assert forall|c: char| #[trigger] ascii_lower(c) as u32 == (if 65 <= (c as u32) <= 90 {
        (c as u32) + 32
    } else {
        (c as u32) as int
    }) by {}
    if same_ignoring_ascii_case(a, b) {
        assert forall|i: int| 0 <= i < a.len() implies {
            ||| #[trigger] a[i] == b[i]
            ||| 65 <= (a[i] as u32) <= 90 && (b[i] as u32) == (a[i] as u32) + 32
            ||| 65 <= (b[i] as u32) <= 90 && (a[i] as u32) == (b[i] as u32) + 32
        } by {
            assert(ascii_lower(a[i]) == ascii_lower(b[i]));
            assert(ascii_lower(a[i]) as u32 == ascii_lower(b[i]) as u32);
        }
    } else if a.len() == b.len() {
        let i = choose|i: int|
            0 <= i < a.len() && ascii_lower(#[trigger] a[i]) != ascii_lower(b[i]);
        assert(ascii_lower(a[i]) as u32 != ascii_lower(b[i]) as u32);
    }
}

/// Of the ASCII characters the blank and the five controls from tab to carriage return are white
/// space.
pub proof fn law_ascii_white_space(c: char)
    requires
        (c as u32) < 128,
    ensures
        is_white(c) <==> (c as u32) == 32 || 9 <= (c as u32) <= 13,
{
}

/// Trimming takes white space away, and all of it that stands at the beginning.
pub proof fn law_trimming_takes_white_space(s: Seq<char>, white: Seq<char>)
    requires
        forall|i: int| 0 <= i < white.len() ==> is_white(#[trigger] white[i]),
        s.len() > 0 ==> !is_white(s[0]),
    ensures
        trimmed_start(white + s) == s,
    decreases white.len(),
{
    if white.len() == 0 {
        assert(white + s =~= s);
    } else {
        assert((white + s)[0] == white[0]);
        assert((white + s).skip(1) =~= white.skip(1) + s);
        law_trimming_takes_white_space(s, white.skip(1));
    }
}

/// The white space that a text begins with.
pub open spec fn leading_white(s: Seq<char>) -> Seq<char> {
    s.take(s.len() - trimmed_start(s).len())
}

proof fn lemma_trimmed_start(s: Seq<char>)
    ensures
        trimmed_start(s).len() <= s.len(),
        s == leading_white(s) + trimmed_start(s),
        forall|i: int| 0 <= i < leading_white(s).len() ==> is_white(#[trigger] leading_white(s)[i]),
    decreases s.len(),
{
    if s.len() > 0 && is_white(s[0]) {
        let rest = s.skip(1);
        lemma_trimmed_start(rest);
        assert(leading_white(s) =~= seq![s[0]] + leading_white(rest));
        assert(s =~= seq![s[0]] + rest);
    } else {
        assert(leading_white(s) =~= Seq::<char>::empty());
    }
    assert(s =~= leading_white(s) + trimmed_start(s));
}

/// A style sets a property to a value if it is something, then the property, white space, a
/// colon, white space, the value, and something.
pub proof fn law_declaration_is_found(
    before: Seq<char>,
    property: Seq<char>,
    white1: Seq<char>,
    white2: Seq<char>,
    value: Seq<char>,
    after: Seq<char>,
)
    requires
        value.len() > 0,
        !is_white(value[0]),
        forall|i: int| 0 <= i < white1.len() ==> is_white(#[trigger] white1[i]),
        forall|i: int| 0 <= i < white2.len() ==> is_white(#[trigger] white2[i]),
    ensures
        declares(before + property + white1 + seq![':'] + white2 + value + after, property, value),
{
    let s = before + property + white1 + seq![':'] + white2 + value + after;
    let at = before.len() as int;
    let tail = value + after;
    let rest = seq![':'] + (white2 + tail);
    assert(s.skip(at) =~= property + (white1 + rest));
    assert(s.skip(at).take(property.len() as int) =~= property);
    assert(s.skip(at).skip(property.len() as int) =~= white1 + rest);
    law_trimming_takes_white_space(rest, white1);
    assert(rest.skip(1) =~= white2 + tail);
    law_trimming_takes_white_space(tail, white2);
    assert(tail.take(value.len() as int) =~= value);
    assert(begins_declaration(s.skip(at), property, value));
}

/// And it does so in no other case.
pub proof fn law_nothing_else_declares(s: Seq<char>, property: Seq<char>, value: Seq<char>)
    requires
        declares(s, property, value),
    ensures
        exists|before: Seq<char>, white1: Seq<char>, white2: Seq<char>, after: Seq<char>|
            {
                &&& s == #[trigger] (before + property + white1 + seq![':'] + white2 + value
                    + after)
                &&& forall|i: int| 0 <= i < white1.len() ==> is_white(#[trigger] white1[i])
                &&& forall|i: int| 0 <= i < white2.len() ==> is_white(#[trigger] white2[i])
            },
{
    let at = choose|at: int|
        0 <= at <= s.len() && #[trigger] begins_declaration(s.skip(at), property, value);
    let here = s.skip(at);
    let past = here.skip(property.len() as int);
    let rest = trimmed_start(past);
    let more = rest.skip(1);
    let tail = trimmed_start(more);
    lemma_trimmed_start(past);
    lemma_trimmed_start(more);
    let before = s.take(at);
    let white1 = leading_white(past);
    let white2 = leading_white(more);
    let after = tail.skip(value.len() as int);
    assert(s =~= before + here);
    assert(here =~= property + past);
    assert(rest =~= seq![':'] + more);
    assert(tail =~= value + after);
    assert(s =~= before + property + white1 + seq![':'] + white2 + value + after);
}

/// A text without white space is one word, white space parts words, and there is no word in
/// nothing.
pub proof fn law_white_space_parts_words(word: Seq<char>, white: char, rest: Seq<char>)
    requires
        word.len() > 0,
        forall|i: int| 0 <= i < word.len() ==> !is_white(#[trigger] word[i]),
        is_white(white),
    ensures
        words(Seq::empty()) == Seq::<Seq<char>>::empty(),
        words(word) == seq![word],
        words(seq![white] + rest) == words(rest),
        words(word + seq![white] + rest) == seq![word] + words(rest),
{
    lemma_word_at_start(word, Seq::empty());
    assert(word + Seq::<char>::empty() =~= word);
    lemma_word_at_start(word, seq![white] + rest);
    assert(word + seq![white] + rest =~= word + (seq![white] + rest));
    assert((seq![white] + rest).skip(1) =~= rest);
    assert(words(word) =~= seq![word]);
    assert(words(word + (seq![white] + rest)) =~= seq![word] + words(seq![white] + rest));
}

proof fn lemma_word_length(word: Seq<char>, rest: Seq<char>)
    requires
        forall|i: int| 0 <= i < word.len() ==> !is_white(#[trigger] word[i]),
        rest.len() > 0 ==> is_white(rest[0]),
    ensures
        word_len(word + rest) == word.len(),
    decreases word.len(),
{
    if word.len() > 0 {
        assert((word + rest)[0] == word[0]);
        assert((word + rest).skip(1) =~= word.skip(1) + rest);
        lemma_word_length(word.skip(1), rest);
    } else {
        assert(word + rest =~= rest);
    }
}

proof fn lemma_word_at_start(word: Seq<char>, rest: Seq<char>)
    requires
        word.len() > 0,
        forall|i: int| 0 <= i < word.len() ==> !is_white(#[trigger] word[i]),
        rest.len() > 0 ==> is_white(rest[0]),
    ensures
        words(word + rest) == seq![word] + words(rest),
{
    lemma_word_length(word, rest);
    assert((word + rest)[0] == word[0]);
    assert((word + rest).take(word.len() as int) =~= word);
    assert((word + rest).skip(word.len() as int) =~= rest);
}

proof fn lemma_decimal(n: nat)
    ensures
        is_number(decimal(n)),
        number(decimal(n)) == n,
    decreases n,
{
    reveal_with_fuel(number, 3);
    if n < 10 {
        assert(decimal(n).drop_last() =~= Seq::<char>::empty());
        assert(decimal(n).last() == digit_char(n));
    } else {
        lemma_decimal(n / 10);
        let head = decimal(n / 10);
        let d = digit_char(n % 10);
        assert(decimal(n).drop_last() =~= head);
        assert(decimal(n).last() == d);
        assert forall|i: int| 0 <= i < decimal(n).len() implies is_digit(
            #[trigger] decimal(n)[i],
        ) by {
            if i < head.len() {
                assert(decimal(n)[i] == head[i]);
            }
        }
    }
}

/// A number that is written down reads as itself, with or without a plus sign, as long as it is
/// within the bound; beyond the bound it reads as no number.
pub proof fn law_numbers_read_as_written(n: nat, max: nat)
    ensures
        n <= max ==> unsigned(decimal(n), max) == Some(n),
        n <= max ==> unsigned("+"@ + decimal(n), max) == Some(n),
        n > max ==> unsigned(decimal(n), max) is None,
        n > max ==> unsigned("+"@ + decimal(n), max) is None,
{
    lemma_decimal(n);
    reveal_strlit("+");
    assert(is_digit(decimal(n)[0]));
    assert(("+"@ + decimal(n))[0] == '+');
    assert(("+"@ + decimal(n)).skip(1) =~= decimal(n));
}

/// A text with anything but digits behind an optional plus sign reads as no number, nor does one
/// without digits.
pub proof fn law_other_texts_are_no_numbers(s: Seq<char>, max: nat, i: int)
    requires
        0 <= i < s.len(),
        !(48 <= (s[i] as u32) <= 57),
        i > 0 || s[0] != '+' || s.len() == 1,
    ensures
        unsigned(s, max) is None,
        unsigned(Seq::empty(), max) is None,
{
    if s[0] == '+' {
        if i > 0 {
            assert(s.skip(1)[i - 1] == s[i]);
        }
    }
}

/// Reading goes digit by digit: one digit more makes ten times the number and the digit, and a
/// digit alone reads as itself, so leading zeros do not count.
pub proof fn law_reading_goes_digit_by_digit(s: Seq<char>, c: char, n: nat)
    requires
        48 <= (c as u32) <= 57,
        unsigned(s, n) == Some(n),
    ensures
        unsigned(seq![c], 9) == Some(((c as u32) - 48) as nat),
        unsigned(s.push(c), 10 * n + 9) == Some((10 * n + ((c as u32) - 48)) as nat),
{
    reveal_with_fuel(number, 2);
    assert(seq![c].drop_last() =~= Seq::<char>::empty());
    assert(number(seq![c]) == (c as u32) - 48);
    assert(is_digit(seq![c][0]));
    let body = if s[0] == '+' {
        s.skip(1)
    } else {
        s
    };
    assert(s.len() > 0);
    let more = if s.push(c)[0] == '+' {
        s.push(c).skip(1)
    } else {
        s.push(c)
    };
    assert(more =~= body.push(c));
    assert(more.drop_last() =~= body);
    assert forall|i: int| 0 <= i < more.len() implies is_digit(#[trigger] more[i]) by {
        if i < body.len() {
            assert(more[i] == body[i]);
        }
    }
}

/// A signed number reads as written within the range of 64 bits, and beyond it as no number.
pub proof fn law_signed_numbers_read_as_written(n: nat)
    ensures
        n < 0x8000_0000_0000_0000 ==> signed(decimal(n)) == Some(n as int),
        n >= 0x8000_0000_0000_0000 ==> signed(decimal(n)) is None,
        n <= 0x8000_0000_0000_0000 ==> signed("-"@ + decimal(n)) == Some(-n),
        n > 0x8000_0000_0000_0000 ==> signed("-"@ + decimal(n)) is None,
{
    lemma_decimal(n);
    reveal_strlit("-");
    assert(is_digit(decimal(n)[0]));
    assert(("-"@ + decimal(n))[0] == '-');
    assert(("-"@ + decimal(n)).skip(1) =~= decimal(n));
    law_numbers_read_as_written(n, 0x7fff_ffff_ffff_ffff);
}

/// A signed number that is read has digits alone behind its sign.
pub proof fn law_other_texts_are_no_signed_numbers(s: Seq<char>, i: int)
    requires
        0 <= i < s.len(),
        !(48 <= (s[i] as u32) <= 57),
        i > 0 || (s[0] != '+' && s[0] != '-') || s.len() == 1,
    ensures
        signed(s) is None,
        signed(Seq::empty()) is None,
{
    law_other_texts_are_no_numbers(s, 0x7fff_ffff_ffff_ffff, i);
    if s[0] == '-' {
        if i > 0 {
            assert(s.skip(1)[i - 1] == s[i]);
        }
    }
}

/// Different numbers are written differently.
pub proof fn law_decimals_differ(m: nat, n: nat)
    requires
        decimal(m) == decimal(n),
    ensures
        m == n,
{
    lemma_decimal(m);
    lemma_decimal(n);
}

/// The decimal notation has no leading zero: one digit for a number below ten, and otherwise the
/// notation of its tens with one digit more.
pub proof fn law_decimal_grows_by_a_digit(n: nat, d: nat)
    requires
        d < 10,
    ensures
        decimal(d).len() == 1,
        (decimal(d)[0] as u32) == 48 + d,
        n > 0 ==> decimal(10 * n + d) == decimal(n) + decimal(d),
{
    if n > 0 {
        assert((10 * n + d) / 10 == n);
        assert((10 * n + d) % 10 == d);
        assert(decimal(10 * n + d) =~= decimal(n) + decimal(d));
    }
}

/// A text is added to a list, at its end, exactly where there is a reason for it.
pub proof fn law_noted_where_there_is_a_reason(list: Seq<Seq<char>>, text: Seq<char>)
    ensures
        noted(list, true, text) == list + seq![text],
        noted(list, false, text) == list,
{
}

/// Beyond ASCII the white space is that of Unicode: the next line, the blanks that do not break or
/// have a width of their own, and the separators of lines and paragraphs.
pub proof fn law_other_white_space(c: char)
    requires
        (c as u32) >= 128,
    ensures
        is_white(c) <==> {
            let u = c as u32;
            ||| u == 0x85 || u == 0xa0 || u == 0x1680
            ||| 0x2000 <= u <= 0x200a
            ||| u == 0x2028 || u == 0x2029 || u == 0x202f || u == 0x205f || u == 0x3000
        },
{
}

} // verus!
