//! Character-level helpers on `str`/`String`: comparison, prefixes, decimal
//! rendering of integers, quote trimming, and the JSON / Debug quoting that
//! rendered values go through.
use vstd::prelude::*;
use vstd::string::*;

verus! {

/// `prefix` is an initial segment of `s`.
pub open spec fn has_prefix(s: Seq<char>, prefix: Seq<char>) -> bool {
    prefix.len() <= s.len() && s.subrange(0, prefix.len() as int) == prefix
}

/// Character-wise equality of two strings.
pub fn str_eq(a: &str, b: &str) -> (r: bool)
    ensures
        r == (a@ == b@),
{
    let n = a.unicode_len();
    let m = b.unicode_len();
    if n != m {
        return false;
    }
    let mut i: usize = 0;
    while i < n
        invariant
            n == a@.len(),
            m == b@.len(),
            n == m,
            i <= n,
            forall|j: int| 0 <= j < i ==> a@[j] == b@[j],
        decreases n - i,
    {
        let ca = a.get_char(i);
        let cb = b.get_char(i);
        if ca != cb {
            return false;
        }
        i = i + 1;
    }
    assert(a@ =~= b@);
    true
}

/// Whether `s` begins with `prefix`.
pub fn starts_with(s: &str, prefix: &str) -> (r: bool)
    ensures
        r == has_prefix(s@, prefix@),
{
    let n = s.unicode_len();
    let m = prefix.unicode_len();
    if m > n {
        return false;
    }
    let mut i: usize = 0;
    while i < m
        invariant
            n == s@.len(),
            m == prefix@.len(),
            m <= n,
            i <= m,
            forall|j: int| 0 <= j < i ==> s@[j] == prefix@[j],
        decreases m - i,
    {
        if s.get_char(i) != prefix.get_char(i) {
            assert(s@.subrange(0, m as int)[i as int] != prefix@[i as int]);
            return false;
        }
        i = i + 1;
    }
    assert(s@.subrange(0, m as int) =~= prefix@);
    true
}

/// A fresh `String` with the contents of `s`.
pub fn owned(s: &str) -> (r: String)
    ensures
        r@ == s@,
{
    s.to_owned()
}

/// `a` followed by `b`.
pub fn concat2(a: &str, b: &str) -> (r: String)
    ensures
        r@ == a@ + b@,
{
    let s = a.to_owned();
    s.concat(b)
}

/// `a`, `b` and `c` one after another.
pub fn concat3(a: &str, b: &str, c: &str) -> (r: String)
    ensures
        r@ == a@ + b@ + c@,
{
    let s = a.to_owned();
    let s = s.concat(b);
    s.concat(c)
}

/// Appends one character; `String::push`.
#[verifier::external_body]
pub(crate) fn push_char(s: &mut String, c: char)
    ensures
        final(s)@ == old(s)@.push(c),
{
    s.push(c);
}

/// The ASCII digit for `d`.
pub open spec fn digit_char(d: nat) -> char {
    if d == 0 {
        '0'
    } else if d == 1 {
        '1'
    } else if d == 2 {
        '2'
    } else if d == 3 {
        '3'
    } else if d == 4 {
        '4'
    } else if d == 5 {
        '5'
    } else if d == 6 {
        '6'
    } else if d == 7 {
        '7'
    } else if d == 8 {
        '8'
    } else {
        '9'
    }
}

/// Decimal digits of a natural number, most significant first, no leading zeros.
pub open spec fn decimal(n: nat) -> Seq<char>
    decreases n,
{
    if n < 10 {
        seq![digit_char(n)]
    } else {
        decimal(n / 10).push(digit_char(n % 10))
    }
}

/// Decimal text of an integer, with a leading `-` for negative values.
pub open spec fn signed_decimal(i: int) -> Seq<char> {
    if i < 0 {
        seq!['-'] + decimal((-i) as nat)
    } else {
        decimal(i as nat)
    }
}

/// `true` or `false`, as `bool::to_string` spells them.
pub open spec fn bool_text(b: bool) -> Seq<char> {
    if b {
        seq!['t', 'r', 'u', 'e']
    } else {
        seq!['f', 'a', 'l', 's', 'e']
    }
}

fn digit(d: u64) -> (c: char)
    requires
        d < 10,
    ensures
        c == digit_char(d as nat),
{
    if d == 0 {
        '0'
    } else if d == 1 {
        '1'
    } else if d == 2 {
        '2'
    } else if d == 3 {
        '3'
    } else if d == 4 {
        '4'
    } else if d == 5 {
        '5'
    } else if d == 6 {
        '6'
    } else if d == 7 {
        '7'
    } else if d == 8 {
        '8'
    } else {
        '9'
    }
}

/// Decimal rendering of an unsigned integer (as `u64::to_string`).
pub fn u64_text(n: u64) -> (r: String)
    ensures
        r@ == decimal(n as nat),
    decreases n,
{
    if n < 10 {
        let mut s = String::new();
        push_char(&mut s, digit(n));
        assert(s@ =~= decimal(n as nat));
        s
    } else {
        let mut s = u64_text(n / 10);
        push_char(&mut s, digit(n % 10));
        s
    }
}

/// Decimal rendering of a signed integer (as `i64::to_string`).
pub fn i64_text(i: i64) -> (r: String)
    ensures
        r@ == signed_decimal(i as int),
{
    if i < 0 {
        let magnitude: u64 = (-(i + 1)) as u64 + 1;
        let digits = u64_text(magnitude);
        let mut s = String::new();
        push_char(&mut s, '-');
        let r = s.concat(digits.as_str());
        assert(r@ =~= signed_decimal(i as int));
        r
    } else {
        u64_text(i as u64)
    }
}

/// `bool::to_string`.
pub fn bool_to_text(b: bool) -> (r: String)
    ensures
        r@ == bool_text(b),
{
    let mut s = String::new();
    if b {
        push_char(&mut s, 't');
        push_char(&mut s, 'r');
        push_char(&mut s, 'u');
        push_char(&mut s, 'e');
    } else {
        push_char(&mut s, 'f');
        push_char(&mut s, 'a');
        push_char(&mut s, 'l');
        push_char(&mut s, 's');
        push_char(&mut s, 'e');
    }
    assert(s@ =~= bool_text(b));
    s
}

/// Drops every leading `"` of `s`.
pub open spec fn strip_front_quotes(s: Seq<char>) -> Seq<char>
    decreases s.len(),
{
    if s.len() > 0 && s[0] == '"' {
        strip_front_quotes(s.drop_first())
    } else {
        s
    }
}

/// Drops every trailing `"` of `s`.
pub open spec fn strip_back_quotes(s: Seq<char>) -> Seq<char>
    decreases s.len(),
{
    if s.len() > 0 && s.last() == '"' {
        strip_back_quotes(s.drop_last())
    } else {
        s
    }
}

/// `str::trim_matches('"')`: every leading and trailing `"` removed.
pub open spec fn trim_quotes(s: Seq<char>) -> Seq<char> {
    strip_back_quotes(strip_front_quotes(s))
}

proof fn lemma_strip_front(s: Seq<char>, k: int)
    requires
        0 <= k <= s.len(),
        forall|j: int| 0 <= j < k ==> s[j] == '"',
    ensures
        strip_front_quotes(s) == strip_front_quotes(s.subrange(k, s.len() as int)),
    decreases k,
{
    if k > 0 {
        assert(s.drop_first() =~= s.subrange(1, s.len() as int));
        let t = s.drop_first();
        lemma_strip_front(t, k - 1);
        assert(t.subrange(k - 1, t.len() as int) =~= s.subrange(k, s.len() as int));
    } else {
        assert(s.subrange(0, s.len() as int) =~= s);
    }
}

proof fn lemma_strip_back(s: Seq<char>, k: int)
    requires
        0 <= k <= s.len(),
        forall|j: int| k <= j < s.len() ==> s[j] == '"',
    ensures
        strip_back_quotes(s) == strip_back_quotes(s.subrange(0, k)),
    decreases s.len() - k,
{
    if k < s.len() {
        let t = s.drop_last();
        assert(t =~= s.subrange(0, s.len() - 1));
        lemma_strip_back(t, k);
        assert(t.subrange(0, k) =~= s.subrange(0, k));
    } else {
        assert(s.subrange(0, k) =~= s);
    }
}

/// `str::trim_matches('"')`.
pub fn trim_quotes_text(s: &str) -> (r: String)
    ensures
        r@ == trim_quotes(s@),
{
    let n = s.unicode_len();
    let mut i: usize = 0;
    while i < n && s.get_char(i) == '"'
        invariant
            n == s@.len(),
            i <= n,
            forall|j: int| 0 <= j < i ==> s@[j] == '"',
        decreases n - i,
    {
        i = i + 1;
    }
    proof {
        lemma_strip_front(s@, i as int);
    }
    let ghost front = s@.subrange(i as int, n as int);
    assert(i < n ==> front[0] != '"');
    assert(strip_front_quotes(front) == front);
    let mut j: usize = n;
    while j > i && s.get_char(j - 1) == '"'
        invariant
            n == s@.len(),
            i <= j <= n,
            forall|t: int| j <= t < n ==> s@[t] == '"',
        decreases j - i,
    {
        j = j - 1;
    }
    proof {
        lemma_strip_back(front, j - i);
        assert(front.subrange(0, j - i) =~= s@.subrange(i as int, j as int));
    }
    let r = s.substring_char(i, j).to_owned();
    r
}

proof fn lemma_trim_wrapped(v: Seq<char>)
    requires
        forall|i: int| 0 <= i < v.len() ==> v[i] != '"',
    ensures
        trim_quotes(seq!['"'] + v + seq!['"']) == v,
{
    let w = seq!['"'] + v + seq!['"'];
    if v.len() == 0 {
        lemma_strip_front(w, 2);
        assert(w.subrange(2, w.len() as int) =~= Seq::<char>::empty());
        assert(strip_front_quotes(Seq::<char>::empty()) == Seq::<char>::empty());
        assert(v =~= Seq::<char>::empty());
    } else {
        lemma_strip_front(w, 1);
        let t = w.subrange(1, w.len() as int);
        assert(t =~= v + seq!['"']);
        assert(t[0] == v[0]);
        assert(strip_front_quotes(t) == t);
        lemma_strip_back(t, v.len() as int);
        assert(t.subrange(0, v.len() as int) =~= v);
        assert(v.last() == v[v.len() - 1]);
        assert(strip_back_quotes(v) == v);
    }
}

/// Lower-case hexadecimal digit of `d` (0..16).
pub open spec fn hex_digit(d: int) -> char {
    if d < 10 {
        (48 + d) as char
    } else {
        (87 + d) as char
    }
}

/// How JSON string serialisation writes one character: `"` and `\` behind a
/// backslash, the control characters with a short escape where JSON has one
/// and as `\u00xx` otherwise, every other character as it is.
pub open spec fn json_escape_char(c: char) -> Seq<char> {
    if c == '"' {
        seq!['\\', '"']
    } else if c == '\\' {
        seq!['\\', '\\']
    } else if c == '\u{8}' {
        seq!['\\', 'b']
    } else if c == '\t' {
        seq!['\\', 't']
    } else if c == '\n' {
        seq!['\\', 'n']
    } else if c == '\u{c}' {
        seq!['\\', 'f']
    } else if c == '\r' {
        seq!['\\', 'r']
    } else if (c as int) < 32 {
        seq!['\\', 'u', '0', '0', hex_digit((c as int) / 16), hex_digit((c as int) % 16)]
    } else {
        seq![c]
    }
}

/// The escaped contents of a JSON string.
pub open spec fn json_escaped(s: Seq<char>) -> Seq<char>
    decreases s.len(),
{
    if s.len() == 0 {
        Seq::empty()
    } else {
        json_escaped(s.drop_last()) + json_escape_char(s.last())
    }
}

/// The JSON string literal of `s`: its escaped contents between two `"`.
pub open spec fn json_quoted(s: Seq<char>) -> Seq<char> {
    seq!['"'] + json_escaped(s) + seq!['"']
}

/// No character that JSON string serialisation escapes: no `"`, no `\`, no control character.
pub open spec fn json_plain(s: Seq<char>) -> bool {
    forall|i: int| 0 <= i < s.len() ==> s[i] != '"' && s[i] != '\\' && s[i] >= ' '
}

/// Text without characters to escape is written as it is.
pub proof fn lemma_json_plain_unescaped(s: Seq<char>)
    requires
        json_plain(s),
    ensures
        json_escaped(s) == s,
    decreases s.len(),
{
    if s.len() > 0 {
        let t = s.drop_last();
        assert(json_plain(t)) by {
            assert forall|i: int| 0 <= i < t.len() implies t[i] != '"' && t[i] != '\\' && t[i] >= ' ' by {
                assert(t[i] == s[i]);
            }
        }
        lemma_json_plain_unescaped(t);
        let c = s.last();
        assert(c == s[s.len() - 1]);
        assert(json_escape_char(c) == seq![c]);
        assert(s =~= t + seq![c]);
    }
}

/// `serde_json::Value::String(s).to_string()`: the JSON string literal for `s`.
/// Claimed: `s` between two `"`, each character written as `json_escape_char`
/// says, following the `ESCAPE` table and `write_char_escape` in serde_json's
/// `ser.rs` (`"`, `\` and the characters below U+0020 escaped, nothing else).
#[verifier::external_body]
fn json_string_literal(s: &str) -> (r: String)
    ensures
        r@ == json_quoted(s@),
{
    serde_json::Value::String(s.to_string()).to_string()
}

/// The value text that a JSON round trip of a string leaves once its quotes are
/// trimmed: the serialised literal with every leading and trailing `"` removed.
pub open spec fn json_trimmed(s: Seq<char>) -> Seq<char> {
    trim_quotes(json_quoted(s))
}

/// A string value as it comes out of JSON serialisation with its quotes trimmed.
pub fn json_trimmed_text(s: &str) -> (r: String)
    ensures
        r@ == json_trimmed(s@),
        json_plain(s@) ==> r@ == s@,
{
    let q = json_string_literal(s);
    proof {
        if json_plain(s@) {
            lemma_json_plain_unescaped(s@);
            lemma_trim_wrapped(s@);
        }
    }
    trim_quotes_text(q.as_str())
}

/// What `format!("{:?}", s)` produces for a string `s`.
pub uninterp spec fn debug_quoted(s: Seq<char>) -> Seq<char>;

/// `format!("{:?}", s)`: the Debug rendering of a string. Claimed: the result is
/// the named rendering of the argument; nothing more is stated of Rust's escaping.
#[verifier::external_body]
pub(crate) fn debug_text(s: &str) -> (r: String)
    ensures
        r@ == debug_quoted(s@),
{
    format!("{:?}", s)
}

/// The value of an ASCII digit.
pub open spec fn digit_value(c: char) -> int {
    c as int - '0' as int
}

/// The number that a string of decimal digits denotes.
pub open spec fn parse_decimal(s: Seq<char>) -> int
    decreases s.len(),
{
    if s.len() == 0 {
        0
    } else {
        parse_decimal(s.drop_last()) * 10 + digit_value(s.last())
    }
}

/// The decimal text of `n` is a non-empty run of ASCII digits, without a
/// leading zero unless `n` is 0, that reads back as `n`.
pub proof fn decimal_reads_back(n: nat)
    ensures
        decimal(n).len() >= 1,
        forall|i: int| 0 <= i < decimal(n).len() ==> '0' <= #[trigger] decimal(n)[i] <= '9',
        decimal(n)[0] == '0' ==> n == 0,
        parse_decimal(decimal(n)) == n,
    decreases n,
{
    let d = n % 10;
    assert(digit_value(digit_char(d)) == d);
    if n >= 10 {
        decimal_reads_back(n / 10);
        let h = decimal(n / 10);
        assert(decimal(n) == h.push(digit_char(d)));
        assert(decimal(n).drop_last() =~= h);
        assert forall|i: int| 0 <= i < decimal(n).len() implies '0' <= #[trigger] decimal(n)[i] <= '9' by {
            if i < h.len() {
                assert(decimal(n)[i] == h[i]);
            }
        }
        assert(decimal(n)[0] == h[0]);
        assert(decimal(n).last() == digit_char(d));
        assert(parse_decimal(decimal(n)) == parse_decimal(h) * 10 + d);
        assert(n == (n / 10) * 10 + n % 10) by (nonlinear_arith);
    } else {
        assert(decimal(n).drop_last() =~= Seq::<char>::empty());
        assert(parse_decimal(decimal(n)) == parse_decimal(Seq::<char>::empty()) * 10 + d);
    }
}

} // verus!
