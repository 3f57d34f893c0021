use vstd::prelude::*;
use vstd::std_specs::iter::IteratorSpec;

verus! {

/// Relies on String::push: appends one character at the end.
#[verifier::external_body]
fn push_char(s: &mut String, c: char)
    ensures
        final(s)@ == old(s)@.push(c),
{
    s.push(c)
}

/// The characters of `s`, in order.
pub fn chars_of(s: &str) -> (r: Vec<char>)
    ensures
        r@ == s@,
{
    broadcast use vstd::string::group_string_axioms;
    let mut v: Vec<char> = Vec::new();
    for c in it: s.chars()
        invariant
            it.seq() == s@,
            v@ == it.seq().take(it.index() as int),
    {
        v.push(c);
    }
    v
}

/// The characters of `s` from `a` up to `b`, as a `String`.
pub fn string_of(s: &Vec<char>, a: usize, b: usize) -> (r: String)
    requires
        a <= b <= s.len(),
    ensures
        r@ == s@.subrange(a as int, b as int),
{
    let mut out = String::new();
    let mut k = a;
    while k < b
        invariant
            a <= k <= b <= s.len(),
            out@ == s@.subrange(a as int, k as int),
        decreases b - k,
    {
        push_char(&mut out, s[k]);
        k = k + 1;
        assert(out@ =~= s@.subrange(a as int, k as int));
    }
    out
}


/// Whitespace as the probed tools print it.
pub open spec fn is_space(c: char) -> bool {
    c == ' ' || c == '\t' || c == '\n' || c == '\r' || c == '\x0B' || c == '\x0C'
}

pub open spec fn is_digit(c: char) -> bool {
    '0' <= c && c <= '9'
}

/// The classes of characters that the scanners step over.
#[derive(Clone, Copy)]
pub enum Class {
    Space,
    NonSpace,
    Digit,
    /// Digits and dots: an IPv4 address.
    DottedDigit,
    /// Lower-case hex digits and colons: a MAC or IPv6 address.
    HexColon,
    /// Anything but `:`, `@` and `<`: an interface name in a link line.
    LinkName,
    /// Anything but the given character.
    Not(char),
    /// Anything but the given character and a newline: the rest of a line up to it.
    Until(char),
}

pub open spec fn in_class(c: char, k: Class) -> bool {
    match k {
        Class::Space => is_space(c),
        Class::NonSpace => !is_space(c),
        Class::Digit => is_digit(c),
        Class::DottedDigit => is_digit(c) || c == '.',
        Class::HexColon => is_digit(c) || ('a' <= c && c <= 'f') || c == ':',
        Class::LinkName => c != ':' && c != '@' && c != '<',
        Class::Not(x) => c != x,
        Class::Until(x) => c != x && c != '\n',
    }
}

pub fn char_in_class(c: char, k: Class) -> (r: bool)
    ensures
        r == in_class(c, k),
{
    match k {
        Class::Space => c == ' ' || c == '\t' || c == '\n' || c == '\r' || c == '\x0B' || c == '\x0C',
        Class::NonSpace => !(c == ' ' || c == '\t' || c == '\n' || c == '\r' || c == '\x0B' || c
            == '\x0C'),
        Class::Digit => '0' <= c && c <= '9',
        Class::DottedDigit => ('0' <= c && c <= '9') || c == '.',
        Class::HexColon => ('0' <= c && c <= '9') || ('a' <= c && c <= 'f') || c == ':',
        Class::LinkName => c != ':' && c != '@' && c != '<',
        Class::Not(x) => c != x,
        Class::Until(x) => c != x && c != '\n',
    }
}

/// The first index from `i` on whose character is not in class `k` (or the length).
pub open spec fn skip(s: Seq<char>, i: int, k: Class) -> int
    decreases s.len() - i,
{
    if 0 <= i < s.len() && in_class(s[i], k) {
        skip(s, i + 1, k)
    } else {
        i
    }
}

pub fn skip_class(s: &Vec<char>, i: usize, k: Class) -> (r: usize)
    requires
        i <= s.len(),
    ensures
        r == skip(s@, i as int, k),
        i <= r <= s.len(),
{
    let mut j = i;
    while j < s.len() && char_in_class(s[j], k)
        invariant
            i <= j <= s.len(),
            skip(s@, j as int, k) == skip(s@, i as int, k),
        decreases s.len() - j,
    {
        j = j + 1;
    }
    j
}

/// Whether `p` occurs in `s` at index `i`.
pub open spec fn matches_at(s: Seq<char>, i: int, p: Seq<char>) -> bool {
    0 <= i && i + p.len() <= s.len() && s.subrange(i, i + p.len()) == p
}

/// The first index from `i` on at which `p` occurs in `s`.
pub open spec fn find_from(s: Seq<char>, p: Seq<char>, i: int) -> Option<int>
    decreases s.len() + 1 - i,
{
    if i < 0 || i + p.len() > s.len() {
        None
    } else if matches_at(s, i, p) {
        Some(i)
    } else {
        find_from(s, p, i + 1)
    }
}

/// Whether `p` occurs anywhere in `s`.
pub open spec fn contains(s: Seq<char>, p: Seq<char>) -> bool {
    find_from(s, p, 0) is Some
}

pub proof fn lemma_find_from(s: Seq<char>, p: Seq<char>, i: int)
    requires
        0 <= i,
    ensures
        match find_from(s, p, i) {
            Some(k) => i <= k && matches_at(s, k, p) && forall|j: int|
                i <= j < k ==> !matches_at(s, j, p),
            None => forall|j: int| i <= j ==> !matches_at(s, j, p),
        },
    decreases s.len() + 1 - i,
{
    if i + p.len() > s.len() {
    } else if matches_at(s, i, p) {
    } else {
        lemma_find_from(s, p, i + 1);
    }
}

pub fn matches_at_exec(s: &Vec<char>, i: usize, p: &Vec<char>) -> (r: bool)
    requires
        i <= s.len(),
    ensures
        r == matches_at(s@, i as int, p@),
{
    if p.len() > s.len() - i {
        return false;
    }
    let mut j: usize = 0;
    while j < p.len()
        invariant
            j <= p.len(),
            i + p.len() <= s.len(),
            forall|t: int| 0 <= t < j ==> s@[i + t] == p@[t],
        decreases p.len() - j,
    {
        if s[i + j] != p[j] {
            assert(s@.subrange(i as int, i + p.len())[j as int] == s@[i + j]);
            return false;
        }
        j = j + 1;
    }
    assert(s@.subrange(i as int, i + p.len()) =~= p@);
    true
}

pub fn find_exec(s: &Vec<char>, p: &Vec<char>, i: usize) -> (r: Option<usize>)
    requires
        i <= s.len(),
    ensures
        match r {
            Some(k) => find_from(s@, p@, i as int) == Some(k as int),
            None => find_from(s@, p@, i as int) is None,
        },
{
    let mut k = i;
    while p.len() <= s.len() - k
        invariant
            i <= k <= s.len(),
            find_from(s@, p@, k as int) == find_from(s@, p@, i as int),
        decreases s.len() - k,
    {
        if matches_at_exec(s, k, p) {
            return Some(k);
        }
        assert(p.len() > 0) by {
            if p.len() == 0 {
                assert(s@.subrange(k as int, k as int) =~= p@);
            }
        }
        k = k + 1;
    }
    None
}

pub fn contains_exec(s: &Vec<char>, p: &Vec<char>) -> (r: bool)
    ensures
        r == contains(s@, p@),
{
    find_exec(s, p, 0).is_some()
}


pub fn slice_vec(s: &Vec<char>, a: usize, b: usize) -> (r: Vec<char>)
    requires
        a <= b <= s.len(),
    ensures
        r@ == s@.subrange(a as int, b as int),
{
    let mut out: Vec<char> = Vec::new();
    let mut k = a;
    while k < b
        invariant
            a <= k <= b <= s.len(),
            out@ == s@.subrange(a as int, k as int),
        decreases b - k,
    {
        out.push(s[k]);
        k = k + 1;
        assert(out@ =~= s@.subrange(a as int, k as int));
    }
    out
}

/// The end of `s[lo..b]` once trailing whitespace is dropped.
pub open spec fn back_skip_space(s: Seq<char>, b: int, lo: int) -> int
    decreases b - lo,
{
    if lo < b && is_space(s[b - 1]) {
        back_skip_space(s, b - 1, lo)
    } else {
        b
    }
}

/// `s` without leading and trailing whitespace.
pub open spec fn trim(s: Seq<char>) -> Seq<char> {
    let a = skip(s, 0, Class::Space);
    s.subrange(a, back_skip_space(s, s.len() as int, a))
}

pub fn trim_vec(s: &Vec<char>) -> (r: Vec<char>)
    ensures
        r@ == trim(s@),
{
    let a = skip_class(s, 0, Class::Space);
    let mut b = s.len();
    while a < b && char_in_class(s[b - 1], Class::Space)
        invariant
            a <= b <= s.len(),
            back_skip_space(s@, b as int, a as int) == back_skip_space(
                s@,
                s.len() as int,
                a as int,
            ),
        decreases b,
    {
        b = b - 1;
    }
    slice_vec(s, a, b)
}

pub open spec fn digit_value(c: char) -> nat {
    ((c as u32) - ('0' as u32)) as nat
}

/// The number that the decimal digits `s` write.
pub open spec fn decimal_value(s: Seq<char>) -> nat
    decreases s.len(),
{
    if s.len() == 0 {
        0
    } else {
        decimal_value(s.drop_last()) * 10 + digit_value(s.last())
    }
}

pub open spec fn all_digits(s: Seq<char>) -> bool {
    forall|i: int| 0 <= i < s.len() ==> is_digit(#[trigger] s[i])
}

/// `s` read as a decimal number: one or more digits, nothing else.
pub open spec fn parse_decimal(s: Seq<char>) -> Option<nat> {
    if s.len() > 0 && all_digits(s) {
        Some(decimal_value(s))
    } else {
        None
    }
}

/// `s` read as a decimal number that fits in a `u32`.
pub open spec fn parse_u32_spec(s: Seq<char>) -> Option<u32> {
    match parse_decimal(s) {
        Some(v) => if v <= u32::MAX {
            Some(v as u32)
        } else {
            None
        },
        None => None,
    }
}

proof fn lemma_decimal_prefix(s: Seq<char>, k: int)
    requires
        0 <= k <= s.len(),
        all_digits(s),
    ensures
        decimal_value(s.subrange(0, k)) <= decimal_value(s),
    decreases s.len(),
{
    if k < s.len() {
        let t = s.drop_last();
        assert(all_digits(t));
        lemma_decimal_prefix(t, k);
        assert(t.subrange(0, k) =~= s.subrange(0, k));
    } else {
        assert(s.subrange(0, k) =~= s);
    }
}

/// Reads `s[a..b]` as a decimal number that fits in a `u32`.
pub fn parse_u32_range(s: &Vec<char>, a: usize, b: usize) -> (r: Option<u32>)
    requires
        a <= b <= s.len(),
    ensures
        r == parse_u32_spec(s@.subrange(a as int, b as int)),
{
    let ghost t = s@.subrange(a as int, b as int);
    if a == b {
        return None;
    }
    let mut acc: u64 = 0;
    let mut j = a;
    while j < b
        invariant
            a <= j <= b <= s.len(),
            t == s@.subrange(a as int, b as int),
            all_digits(s@.subrange(a as int, j as int)),
            acc == decimal_value(s@.subrange(a as int, j as int)),
            acc <= u32::MAX,
        decreases b - j,
    {
        let c = s[j];
        if !('0' <= c && c <= '9') {
            assert(t[j - a] == c);
            return None;
        }
        let ghost prev = s@.subrange(a as int, j as int);
        let ghost next = s@.subrange(a as int, j + 1);
        assert(next.drop_last() =~= prev);
        assert(next.last() == c);
        acc = acc * 10 + ((c as u32) - ('0' as u32)) as u64;
        j = j + 1;
        assert(all_digits(next)) by {
            assert forall|i: int| 0 <= i < next.len() implies is_digit(#[trigger] next[i]) by {
                if i < next.len() - 1 {
                    assert(next[i] == prev[i]);
                }
            }
        }
        if acc > 0xFFFF_FFFF {
            proof {
                if all_digits(t) {
                    assert(t.subrange(0, j - a) =~= next);
                    lemma_decimal_prefix(t, j - a);
                }
            }
            return None;
        }
    }
    assert(s@.subrange(a as int, j as int) =~= t);
    Some(acc as u32)
}

pub open spec fn digit_char(d: nat) -> char {
    if d == 0 {
        '0'
    } else if d == 1 {
        '1'
    } else if d == 2 {
        '2'
    } else if d == 3 {
        '3'
    } else if d == 4 {
        '4'
    } else if d == 5 {
        '5'
    } else if d == 6 {
        '6'
    } else if d == 7 {
        '7'
    } else if d == 8 {
        '8'
    } else {
        '9'
    }
}

fn digit_char_exec(d: u32) -> (c: char)
    requires
        d < 10,
    ensures
        c == digit_char(d as nat),
{
    if d == 0 {
        '0'
    } else if d == 1 {
        '1'
    } else if d == 2 {
        '2'
    } else if d == 3 {
        '3'
    } else if d == 4 {
        '4'
    } else if d == 5 {
        '5'
    } else if d == 6 {
        '6'
    } else if d == 7 {
        '7'
    } else if d == 8 {
        '8'
    } else {
        '9'
    }
}

/// The decimal digits of `n`, without leading zeros.
pub open spec fn decimal(n: nat) -> Seq<char>
    decreases n,
{
    if n < 10 {
        seq![digit_char(n)]
    } else {
        decimal(n / 10).push(digit_char(n % 10))
    }
}

/// Appends the decimal digits of `n` to `out`.
pub fn push_decimal(out: &mut String, n: u32)
    ensures
        final(out)@ == old(out)@ + decimal(n as nat),
    decreases n,
{
    if n < 10 {
        push_char(out, digit_char_exec(n));
        assert(final(out)@ =~= old(out)@ + decimal(n as nat));
    } else {
        push_decimal(out, n / 10);
        push_char(out, digit_char_exec(n % 10));
        assert(final(out)@ =~= old(out)@ + decimal(n as nat));
    }
}

/// The pieces of `s` between the separator characters; a text without
/// separator is one piece.
pub open spec fn pieces(s: Seq<char>, sep: char) -> Seq<Seq<char>>
    decreases s.len(),
{
    if s.len() == 0 {
        seq![Seq::empty()]
    } else {
        let p = pieces(s.drop_last(), sep);
        if s.last() == sep {
            p.push(Seq::empty())
        } else {
            p.update(p.len() - 1, p.last().push(s.last()))
        }
    }
}

/// A line without the carriage return that ends it, if any.
pub open spec fn strip_cr(l: Seq<char>) -> Seq<char> {
    if l.len() > 0 && l.last() == '\r' {
        l.drop_last()
    } else {
        l
    }
}

/// The lines of `s`: split at newlines, a final newline ending the last line
/// rather than opening an empty one, each line without a closing carriage return.
pub open spec fn lines_of(s: Seq<char>) -> Seq<Seq<char>> {
    let p = pieces(s, '\n');
    let q = if p.last().len() == 0 {
        p.drop_last()
    } else {
        p
    };
    q.map_values(|l: Seq<char>| strip_cr(l))
}

pub open spec fn lines_view(v: Seq<Vec<char>>) -> Seq<Seq<char>> {
    v.map_values(|l: Vec<char>| l@)
}

fn push_line(lines: &mut Vec<Vec<char>>, cur: Vec<char>)
    ensures
        lines_view(final(lines)@) == lines_view(old(lines)@).push(strip_cr(cur@)),
{
    let mut l = cur;
    let n = l.len();
    if n > 0 && l[n - 1] == '\r' {
        l.pop();
        assert(l@ =~= strip_cr(cur@));
    }
    lines.push(l);
    assert(lines_view(final(lines)@) =~= lines_view(old(lines)@).push(strip_cr(cur@)));
}

/// Splits `s` into its lines.
pub fn split_lines(s: &Vec<char>) -> (r: Vec<Vec<char>>)
    ensures
        lines_view(r@) == lines_of(s@),
{
    let mut lines: Vec<Vec<char>> = Vec::new();
    let mut cur: Vec<char> = Vec::new();
    let mut j: usize = 0;
    proof {
        assert(s@.subrange(0, 0) =~= Seq::<char>::empty());
        assert(lines_view(lines@) =~= pieces(s@.subrange(0, 0), '\n').drop_last().map_values(
            |l: Seq<char>| strip_cr(l),
        ));
    }
    while j < s.len()
        invariant
            j <= s.len(),
            pieces(s@.subrange(0, j as int), '\n').len() >= 1,
            pieces(s@.subrange(0, j as int), '\n').last() == cur@,
            lines_view(lines@) == pieces(s@.subrange(0, j as int), '\n').drop_last().map_values(
                |l: Seq<char>| strip_cr(l),
            ),
        decreases s.len() - j,
    {
        let ghost p = pieces(s@.subrange(0, j as int), '\n');
        let ghost t = s@.subrange(0, j + 1);
        assert(t.drop_last() =~= s@.subrange(0, j as int));
        assert(t.last() == s@[j as int]);
        let c = s[j];
        if c == '\n' {
            let done = cur;
            cur = Vec::new();
            push_line(&mut lines, done);
            assert(pieces(t, '\n') == p.push(Seq::empty()));
            assert(pieces(t, '\n').drop_last() =~= p);
            assert(p.map_values(|l: Seq<char>| strip_cr(l)) =~= p.drop_last().map_values(
                |l: Seq<char>| strip_cr(l),
            ).push(strip_cr(p.last())));
            assert(cur@ =~= Seq::<char>::empty());
        } else {
            cur.push(c);
            assert(pieces(t, '\n') == p.update(p.len() - 1, p.last().push(c)));
            assert(pieces(t, '\n').drop_last() =~= p.drop_last());
        }
        j = j + 1;
    }
    assert(s@.subrange(0, j as int) =~= s@);
    let ghost p = pieces(s@, '\n');
    if cur.len() > 0 {
        push_line(&mut lines, cur);
        assert(p =~= p.drop_last().push(p.last()));
        assert(lines_of(s@) =~= lines_view(lines@));
    } else {
        assert(lines_of(s@) =~= lines_view(lines@));
    }
    lines
}


pub open spec fn starts_with(s: Seq<char>, p: Seq<char>) -> bool {
    matches_at(s, 0, p)
}

pub fn starts_with_exec(s: &Vec<char>, p: &Vec<char>) -> (r: bool)
    ensures
        r == starts_with(s@, p@),
{
    matches_at_exec(s, 0, p)
}

pub fn eq_exec(s: &Vec<char>, p: &Vec<char>) -> (r: bool)
    ensures
        r == (s@ == p@),
{
    if s.len() != p.len() {
        return false;
    }
    let r = matches_at_exec(s, 0, p);
    assert(s@.subrange(0, s@.len() as int) =~= s@);
    r
}

/// Where the value after the first `key` from `from` on lies: the key, then
/// whitespace, then one or more characters of class `k`.
pub open spec fn field_after(s: Seq<char>, key: Seq<char>, from: int, k: Class) -> Option<
    (int, int),
> {
    match find_from(s, key, from) {
        Some(at) => {
            let v0 = at + key.len();
            let v1 = skip(s, v0, Class::Space);
            let v2 = skip(s, v1, k);
            if v0 < s.len() && is_space(s[v0]) && v2 > v1 {
                Some((v1, v2))
            } else {
                None
            }
        },
        None => None,
    }
}

pub fn field_after_exec(s: &Vec<char>, key: &Vec<char>, from: usize, k: Class) -> (r: Option<
    (usize, usize),
>)
    requires
        from <= s.len(),
    ensures
        match r {
            Some((a, b)) => field_after(s@, key@, from as int, k) == Some((a as int, b as int)),
            None => field_after(s@, key@, from as int, k) is None,
        },
        r matches Some((a, b)) ==> a < b <= s.len(),
{
    match find_exec(s, key, from) {
        Some(at) => {
            proof {
                lemma_find_from(s@, key@, from as int);
            }
            let v0 = at + key.len();
            if v0 < s.len() && char_in_class(s[v0], Class::Space) {
                let v1 = skip_class(s, v0, Class::Space);
                let v2 = skip_class(s, v1, k);
                if v2 > v1 {
                    Some((v1, v2))
                } else {
                    None
                }
            } else {
                None
            }
        },
        None => None,
    }
}


/// The value after the first `key`: the key, whitespace, then one or more
/// characters of class `k`.
pub open spec fn field_text(s: Seq<char>, key: Seq<char>, k: Class) -> Option<Seq<char>> {
    match field_after(s, key, 0, k) {
        Some((a, b)) => Some(s.subrange(a, b)),
        None => None,
    }
}

pub fn field_text_exec(s: &Vec<char>, key: &str, k: Class) -> (r: Option<String>)
    ensures
        r.deep_view() == field_text(s@, key@, k),
{
    match field_after_exec(s, &chars_of(key), 0, k) {
        Some((a, b)) => Some(string_of(s, a, b)),
        None => None,
    }
}

/// Appends copies of the strings of `src` to `dst`.
pub fn append_strings(dst: &mut Vec<String>, src: &Vec<String>)
    ensures
        final(dst).deep_view() == old(dst).deep_view() + src.deep_view(),
{
    let ghost start = dst.deep_view();
    let mut k: usize = 0;
    while k < src.len()
        invariant
            k <= src.len(),
            dst.deep_view() == start + src.deep_view().take(k as int),
        decreases src.len() - k,
    {
        let c = src[k].clone();
        let ghost before = dst.deep_view();
        dst.push(c);
        assert(dst.deep_view() =~= before.push(src.deep_view()[k as int]));
        k = k + 1;
        assert(dst.deep_view() =~= start + src.deep_view().take(k as int));
    }
    assert(src.deep_view().take(k as int) =~= src.deep_view());
}

/// A copy of a list of strings.
pub fn clone_strings(v: &Vec<String>) -> (r: Vec<String>)
    ensures
        r.deep_view() == v.deep_view(),
{
    let mut out: Vec<String> = Vec::new();
    append_strings(&mut out, v);
    assert(out.deep_view() =~= v.deep_view());
    out
}


/// Splits `s` at each `sep` into its pieces.
pub fn split_at_char(s: &Vec<char>, sep: char) -> (r: Vec<Vec<char>>)
    ensures
        lines_view(r@) == pieces(s@, sep),
{
    let mut done: Vec<Vec<char>> = Vec::new();
    let mut cur: Vec<char> = Vec::new();
    let mut j: usize = 0;
    assert(s@.subrange(0, 0) =~= Seq::<char>::empty());
    assert(lines_view(done@).push(cur@) =~= pieces(s@.subrange(0, 0), sep));
    while j < s.len()
        invariant
            j <= s.len(),
            lines_view(done@).push(cur@) == pieces(s@.subrange(0, j as int), sep),
        decreases s.len() - j,
    {
        let ghost p = pieces(s@.subrange(0, j as int), sep);
        let ghost t = s@.subrange(0, j + 1);
        assert(t.drop_last() =~= s@.subrange(0, j as int));
        assert(t.last() == s@[j as int]);
        let c = s[j];
        let ghost before = lines_view(done@);
        if c == sep {
            let piece = cur;
            cur = Vec::new();
            done.push(piece);
            assert(lines_view(done@) =~= before.push(piece@));
            assert(p.last() == piece@);
            assert(pieces(t, sep) == p.push(Seq::empty()));
            assert(lines_view(done@).push(cur@) =~= pieces(t, sep));
        } else {
            cur.push(c);
            assert(pieces(t, sep) == p.update(p.len() - 1, p.last().push(c)));
            assert(lines_view(done@).push(cur@) =~= pieces(t, sep));
        }
        j = j + 1;
    }
    assert(s@.subrange(0, j as int) =~= s@);
    let ghost before = lines_view(done@);
    done.push(cur);
    assert(lines_view(done@) =~= before.push(cur@));
    done
}

} // verus!
