//! Toolchain identifiers.
//!
//! A toolchain is either the floating `master` development marker or a
//! three-part numeric version.  Parsing splits the text on `.` and requires
//! exactly three non-negative decimal segments; displaying a parsed value is
//! the exact inverse of parsing a canonically written version string.

use vstd::prelude::*;
use vstd::string::*;

verus! {

/// A toolchain identifier: either a three-part numeric version or the
/// floating `master` marker.
#[derive(Debug, Clone, Copy, PartialEq, Eq, Structural)]
pub enum Toolchain {
    Version { major: usize, minor: usize, patch: usize },
    Master,
}

/// A toolchain string that does not parse.
#[derive(Debug, PartialEq, Eq)]
pub enum ParseError {
    InvalidToolchain { s: String },
}

/// A decimal digit character.
pub open spec fn is_digit(c: char) -> bool {
    48 <= c as int && c as int <= 57
}

/// The numeric value of a decimal digit character.
pub open spec fn digit_val(c: char) -> int {
    c as int - 48
}

/// The decimal digit character for a value below ten.
pub open spec fn char_of_digit(d: int) -> char {
    (48 + d) as char
}

/// Every character of `s` is a decimal digit.
pub open spec fn all_digits(s: Seq<char>) -> bool {
    forall|i: int| 0 <= i < s.len() ==> is_digit(#[trigger] s[i])
}

/// The value of a sequence of decimal digit characters, most significant
/// first.
pub open spec fn digits_val(s: Seq<char>) -> int
    decreases s.len(),
{
    if s.len() == 0 {
        0
    } else {
        digits_val(s.drop_last()) * 10 + digit_val(s.last())
    }
}

/// A version segment: non-empty, all digits, and a value that fits the
/// machine word the version is stored in.
pub open spec fn valid_segment(s: Seq<char>) -> bool {
    &&& s.len() > 0
    &&& all_digits(s)
    &&& digits_val(s) <= usize::MAX
}

/// The index of the first `.` in `s`, or `-1` if there is none.
pub open spec fn first_dot(s: Seq<char>) -> int
    decreases s.len(),
{
    if s.len() == 0 {
        -1
    } else if s[0] == '.' {
        0
    } else {
        let r = first_dot(s.drop_first());
        if r < 0 {
            -1
        } else {
            r + 1
        }
    }
}

/// The three segment values of a version string, if the string splits on `.`
/// into exactly three valid segments.
pub open spec fn parse_version_spec(s: Seq<char>) -> Option<(usize, usize, usize)> {
    let i = first_dot(s);
    if i < 0 {
        None
    } else {
        let a = s.subrange(0, i);
        let rest = s.subrange(i + 1, s.len() as int);
        let j = first_dot(rest);
        if j < 0 {
            None
        } else {
            let b = rest.subrange(0, j);
            let c = rest.subrange(j + 1, rest.len() as int);
            if first_dot(c) >= 0 {
                None
            } else if valid_segment(a) && valid_segment(b) && valid_segment(c) {
                Some((digits_val(a) as usize, digits_val(b) as usize, digits_val(c) as usize))
            } else {
                None
            }
        }
    }
}

/// What a toolchain string denotes: the `master` marker, a three-segment
/// version, or nothing.
pub open spec fn parse_toolchain(s: Seq<char>) -> Option<Toolchain> {
    if s == "master"@ {
        Some(Toolchain::Master)
    } else {
        match parse_version_spec(s) {
            Some((m, n, p)) => Some(Toolchain::Version { major: m, minor: n, patch: p }),
            None => None,
        }
    }
}

/// The canonical decimal rendering of `n`: no sign, no leading zeros.
pub open spec fn dec_chars(n: nat) -> Seq<char>
    decreases n,
{
    if n < 10 {
        seq![char_of_digit(n as int)]
    } else {
        dec_chars(n / 10).push(char_of_digit((n % 10) as int))
    }
}

/// The rendering of a toolchain: the `master` marker, or
/// `major.minor.patch` in canonical decimal.
pub open spec fn display_toolchain(t: Toolchain) -> Seq<char> {
    match t {
        Toolchain::Master => "master"@,
        Toolchain::Version { major, minor, patch } => dec_chars(major as nat) + seq!['.']
            + dec_chars(minor as nat) + seq!['.'] + dec_chars(patch as nat),
    }
}

/// No character of `s` is a `.`.
pub open spec fn dot_free(s: Seq<char>) -> bool {
    forall|i: int| 0 <= i < s.len() ==> #[trigger] s[i] != '.'
}

/// `s` is `a`, `b` and `c` joined by single dots, with no dot inside a part.
pub open spec fn splits_as(s: Seq<char>, a: Seq<char>, b: Seq<char>, c: Seq<char>) -> bool {
    &&& s == a + seq!['.'] + b + seq!['.'] + c
    &&& dot_free(a)
    &&& dot_free(b)
    &&& dot_free(c)
}

proof fn lemma_digits_val_nonneg(t: Seq<char>)
    requires
        all_digits(t),
    ensures
        digits_val(t) >= 0,
    decreases t.len(),
{
    if t.len() > 0 {
        assert(all_digits(t.drop_last()));
        lemma_digits_val_nonneg(t.drop_last());
    }
}

proof fn lemma_digits_val_prefix(t: Seq<char>, m: int)
    requires
        all_digits(t),
        0 <= m <= t.len(),
    ensures
        digits_val(t) >= digits_val(t.take(m)),
    decreases t.len() - m,
{
    if m == t.len() {
        assert(t.take(m) =~= t);
    } else {
        lemma_digits_val_prefix(t, m + 1);
        assert(t.take(m + 1).drop_last() =~= t.take(m));
        assert(t.take(m + 1).last() == t[m]);
        assert(all_digits(t.take(m)));
        lemma_digits_val_nonneg(t.take(m));
    }
}

proof fn lemma_first_dot(s: Seq<char>)
    ensures
        first_dot(s) == -1 <==> dot_free(s),
        first_dot(s) >= 0 ==> first_dot(s) < s.len() && s[first_dot(s)] == '.' && (forall|k: int|
            0 <= k < first_dot(s) ==> #[trigger] s[k] != '.'),
    decreases s.len(),
{
    if s.len() == 0 {
    } else if s[0] == '.' {
    } else {
        let t = s.drop_first();
        lemma_first_dot(t);
        assert(forall|k: int| 0 <= k < t.len() ==> #[trigger] t[k] == s[k + 1]);
        if first_dot(t) == -1 {
            assert forall|k: int| 0 <= k < s.len() implies #[trigger] s[k] != '.' by {
                if k >= 1 {
                    assert(s[k] == t[k - 1]);
                }
            }
        } else {
            assert(s[first_dot(s)] == t[first_dot(t)]);
            assert forall|k: int| 0 <= k < first_dot(s) implies #[trigger] s[k] != '.' by {
                if k >= 1 {
                    assert(s[k] == t[k - 1]);
                }
            }
        }
    }
}

proof fn lemma_first_dot_at(s: Seq<char>, i: int)
    requires
        0 <= i < s.len(),
        s[i] == '.',
        forall|k: int| 0 <= k < i ==> #[trigger] s[k] != '.',
    ensures
        first_dot(s) == i,
{
    lemma_first_dot(s);
    let f = first_dot(s);
    if f == -1 {
        assert(!dot_free(s));
    } else if f < i {
        assert(s[f] != '.');
    } else if f > i {
        assert(s[i] != '.');
    }
}

proof fn lemma_first_dot_none(s: Seq<char>)
    requires
        dot_free(s),
    ensures
        first_dot(s) == -1,
{
    lemma_first_dot(s);
    if first_dot(s) >= 0 {
        assert(s[first_dot(s)] != '.');
    }
}

/// The one-character string for a decimal digit value.
fn digit_str(d: u8) -> (r: &'static str)
    requires
        d < 10,
    ensures
        r@ == seq![char_of_digit(d as int)],
{
    if d == 0 {
        proof { reveal_strlit("0"); }
        "0"
    } else if d == 1 {
        proof { reveal_strlit("1"); }
        "1"
    } else if d == 2 {
        proof { reveal_strlit("2"); }
        "2"
    } else if d == 3 {
        proof { reveal_strlit("3"); }
        "3"
    } else if d == 4 {
        proof { reveal_strlit("4"); }
        "4"
    } else if d == 5 {
        proof { reveal_strlit("5"); }
        "5"
    } else if d == 6 {
        proof { reveal_strlit("6"); }
        "6"
    } else if d == 7 {
        proof { reveal_strlit("7"); }
        "7"
    } else if d == 8 {
        proof { reveal_strlit("8"); }
        "8"
    } else {
        proof { reveal_strlit("9"); }
        "9"
    }
}

/// Appends the canonical decimal rendering of `n` to `buf`.
fn push_dec(buf: &mut String, n: usize)
    ensures
        final(buf)@ == old(buf)@ + dec_chars(n as nat),
    decreases n,
{
    if n >= 10 {
        push_dec(buf, n / 10);
    }
    let d: u8 = (n % 10) as u8;
    buf.append(digit_str(d));
    proof {
        if n >= 10 {
            assert(dec_chars(n as nat) == dec_chars(n as nat / 10).push(
                char_of_digit((n as nat % 10) as int),
            ));
        }
        assert(buf@ =~= old(buf)@ + dec_chars(n as nat));
    }
}

impl Toolchain {
    /// Renders the toolchain: `master` for the marker, `major.minor.patch`
    /// otherwise.
    pub fn display(&self) -> (r: String)
        ensures
            r@ == display_toolchain(*self),
    {
        match self {
            Toolchain::Master => "master".to_owned(),
            Toolchain::Version { major, minor, patch } => {
                let mut r = String::new();
                push_dec(&mut r, *major);
                r.append(".");
                push_dec(&mut r, *minor);
                r.append(".");
                push_dec(&mut r, *patch);
                proof {
                    reveal_strlit(".");
                    assert(r@ =~= display_toolchain(*self));
                }
                r
            },
        }
    }
}

/// The first `.` in `s` at an index of at least `from`, if any.
fn find_dot(s: &str, from: usize) -> (r: Option<usize>)
    requires
        from <= s@.len(),
    ensures
        match r {
            Some(k) => from <= k < s@.len() && s@[k as int] == '.' && (forall|t: int|
                from <= t < k ==> #[trigger] s@[t] != '.'),
            None => forall|t: int| from <= t < s@.len() ==> #[trigger] s@[t] != '.',
        },
{
    let n = s.unicode_len();
    let mut k = from;
    while k < n
        invariant
            from <= k <= n,
            n == s@.len(),
            forall|t: int| from <= t < k ==> #[trigger] s@[t] != '.',
        decreases n - k,
    {
        let c = s.get_char(k);
        if c == '.' {
            return Some(k);
        }
        k = k + 1;
    }
    None
}

/// Parses `s[lo..hi]` as a decimal segment: non-empty, all digits, value
/// fitting a `usize`.
fn parse_segment(s: &str, lo: usize, hi: usize) -> (r: Option<usize>)
    requires
        lo <= hi <= s@.len(),
    ensures
        match r {
            Some(v) => valid_segment(s@.subrange(lo as int, hi as int)) && v == digits_val(
                s@.subrange(lo as int, hi as int),
            ),
            None => !valid_segment(s@.subrange(lo as int, hi as int)),
        },
{
    let ghost seg = s@.subrange(lo as int, hi as int);
    if lo == hi {
        return None;
    }
    let mut v: usize = 0;
    let mut k = lo;
    while k < hi
        invariant
            lo <= k <= hi <= s@.len(),
            seg == s@.subrange(lo as int, hi as int),
            all_digits(s@.subrange(lo as int, k as int)),
            v == digits_val(s@.subrange(lo as int, k as int)),
        decreases hi - k,
    {
        let ghost pre = s@.subrange(lo as int, k as int);
        let c = s.get_char(k);
        let u = c as u32;
        if u < 48 || u > 57 {
            proof {
                assert(seg[k - lo] == s@[k as int]);
                assert(!all_digits(seg));
            }
            return None;
        }
        let d = (u - 48) as usize;
        proof {
            assert(s@.subrange(lo as int, k + 1).drop_last() =~= pre);
            assert(s@.subrange(lo as int, k + 1).last() == s@[k as int]);
            vstd::arithmetic::div_mod::lemma_fundamental_div_mod((usize::MAX - d) as int, 10);
        }
        if v > (usize::MAX - d) / 10 {
            proof {
                assert(digits_val(s@.subrange(lo as int, k + 1)) > usize::MAX);
                if all_digits(seg) {
                    assert(seg.take(k + 1 - lo) =~= s@.subrange(lo as int, k + 1));
                    lemma_digits_val_prefix(seg, k + 1 - lo);
                }
            }
            return None;
        }
        v = v * 10 + d;
        k = k + 1;
    }
    proof {
        assert(seg =~= s@.subrange(lo as int, k as int));
    }
    Some(v)
}

/// Parses `s` as a three-segment version string.
pub fn parse_version(s: &str) -> (r: Option<(usize, usize, usize)>)
    ensures
        r == parse_version_spec(s@),
{
    let n = s.unicode_len();
    let ghost sv = s@;
    let i = match find_dot(s, 0) {
        Some(i) => i,
        None => {
            proof {
                lemma_first_dot_none(sv);
            }
            return None;
        },
    };
    proof {
        lemma_first_dot_at(sv, i as int);
    }
    let ghost rest = sv.subrange(i + 1, sv.len() as int);
    let j = match find_dot(s, i + 1) {
        Some(j) => j,
        None => {
            proof {
                assert(forall|t: int| 0 <= t < rest.len() ==> #[trigger] rest[t] == sv[i + 1 + t]);
                lemma_first_dot_none(rest);
            }
            return None;
        },
    };
    proof {
        assert(forall|t: int| 0 <= t < rest.len() ==> #[trigger] rest[t] == sv[i + 1 + t]);
        lemma_first_dot_at(rest, j - i - 1);
    }
    let ghost tail = rest.subrange(j - i, rest.len() as int);
    proof {
        assert(forall|t: int| 0 <= t < tail.len() ==> #[trigger] tail[t] == sv[j + 1 + t]);
    }
    match find_dot(s, j + 1) {
        Some(k) => {
            proof {
                assert(tail[k - j - 1] == '.');
                lemma_first_dot(tail);
            }
            return None;
        },
        None => {
            proof {
                lemma_first_dot_none(tail);
            }
        },
    }
    proof {
        assert(rest.subrange(0, j - i - 1) =~= sv.subrange(i + 1, j as int));
        assert(tail =~= sv.subrange(j + 1, n as int));
    }
    let a = parse_segment(s, 0, i);
    let b = parse_segment(s, i + 1, j);
    let c = parse_segment(s, j + 1, n);
    proof {
        assert(sv.subrange(0, i as int) == sv.subrange(0, first_dot(sv)));
    }
    match (a, b, c) {
        (Some(x), Some(y), Some(z)) => {
            proof {
                lemma_digits_val_nonneg(sv.subrange(0, i as int));
                lemma_digits_val_nonneg(sv.subrange(i + 1, j as int));
                lemma_digits_val_nonneg(sv.subrange(j + 1, n as int));
            }
            Some((x, y, z))
        },
        _ => None,
    }
}

/// `s` is exactly the string `master`.
fn is_master(s: &str) -> (r: bool)
    ensures
        r == (s@ == "master"@),
{
    proof {
        reveal_strlit("master");
    }
    let n = s.unicode_len();
    if n != 6 {
        return false;
    }
    let r = s.get_char(0) == 'm' && s.get_char(1) == 'a' && s.get_char(2) == 's' && s.get_char(3)
        == 't' && s.get_char(4) == 'e' && s.get_char(5) == 'r';
    proof {
        if r {
            assert(s@ =~= "master"@);
        }
    }
    r
}

impl Toolchain {
    /// Parses a toolchain string: the literal `master`, or a version of
    /// exactly three dot-separated decimal segments.  Anything else fails
    /// with [`ParseError::InvalidToolchain`] carrying the original text.
    pub fn from_str(s: &str) -> (r: Result<Toolchain, ParseError>)
        ensures
            parse_toolchain(s@) matches Some(t) ==> r == Ok::<Toolchain, ParseError>(t),
            parse_toolchain(s@) is None ==> (r matches Err(ParseError::InvalidToolchain { s: t })
                && t@ == s@),
    {
        if is_master(s) {
            return Ok(Toolchain::Master);
        }
        match parse_version(s) {
            Some((major, minor, patch)) => Ok(Toolchain::Version { major, minor, patch }),
            None => Err(ParseError::InvalidToolchain { s: s.to_owned() }),
        }
    }
}

proof fn lemma_dec_chars_props(n: nat)
    ensures
        dec_chars(n).len() >= 1,
        all_digits(dec_chars(n)),
        digits_val(dec_chars(n)) == n,
    decreases n,
{
    if n < 10 {
        let t = dec_chars(n);
        assert(t.drop_last() =~= Seq::<char>::empty());
        assert(digits_val(t.drop_last()) == 0);
        assert(t.last() == char_of_digit(n as int));
        assert(digit_val(char_of_digit(n as int)) == n);
    } else {
        lemma_dec_chars_props(n / 10);
        let t = dec_chars(n);
        assert(t.drop_last() =~= dec_chars(n / 10));
        assert(t.last() == char_of_digit((n % 10) as int));
        assert forall|i: int| 0 <= i < t.len() implies is_digit(#[trigger] t[i]) by {
            if i < t.len() - 1 {
                assert(t[i] == dec_chars(n / 10)[i]);
            }
        }
        vstd::arithmetic::div_mod::lemma_fundamental_div_mod(n as int, 10);
    }
}

/// Splitting characterization of version parsing: on a string that is three
/// dot-free parts joined by single dots, parsing succeeds exactly when every
/// part is a valid decimal segment, and then yields the parts' values.
pub proof fn lemma_parse_splits(s: Seq<char>, a: Seq<char>, b: Seq<char>, c: Seq<char>)
    requires
        splits_as(s, a, b, c),
    ensures
        parse_version_spec(s) == (if valid_segment(a) && valid_segment(b) && valid_segment(c) {
            Some((digits_val(a) as usize, digits_val(b) as usize, digits_val(c) as usize))
        } else {
            None::<(usize, usize, usize)>
        }),
{
    let al = a.len() as int;
    let bl = b.len() as int;
    assert forall|k: int| 0 <= k < al implies #[trigger] s[k] == a[k] by {}
    assert(s[al] == '.');
    lemma_first_dot_at(s, al);
    assert(s.subrange(0, al) =~= a);
    let rest = s.subrange(al + 1, s.len() as int);
    assert(rest =~= b + seq!['.'] + c);
    assert forall|k: int| 0 <= k < bl implies #[trigger] rest[k] == b[k] by {}
    assert(rest[bl] == '.');
    lemma_first_dot_at(rest, bl);
    assert(rest.subrange(0, bl) =~= b);
    let tail = rest.subrange(bl + 1, rest.len() as int);
    assert(tail =~= c);
    lemma_first_dot_none(c);
    if valid_segment(a) && valid_segment(b) && valid_segment(c) {
        lemma_digits_val_nonneg(a);
        lemma_digits_val_nonneg(b);
        lemma_digits_val_nonneg(c);
    }
}

proof fn lemma_parse_version_witness(s: Seq<char>)
    requires
        parse_version_spec(s) is Some,
    ensures
        exists|a: Seq<char>, b: Seq<char>, c: Seq<char>|
            splits_as(s, a, b, c) && valid_segment(a) && valid_segment(b) && valid_segment(c),
{
    lemma_first_dot(s);
    let i = first_dot(s);
    let a = s.subrange(0, i);
    let rest = s.subrange(i + 1, s.len() as int);
    lemma_first_dot(rest);
    let j = first_dot(rest);
    let b = rest.subrange(0, j);
    let c = rest.subrange(j + 1, rest.len() as int);
    lemma_first_dot(c);
    assert(s =~= a + seq!['.'] + b + seq!['.'] + c);
    assert(splits_as(s, a, b, c));
}

/// Marker identity: `master` parses to the marker, and the marker displays
/// as exactly `master`.
pub proof fn lemma_master_identity()
    ensures
        parse_toolchain("master"@) == Some(Toolchain::Master),
        display_toolchain(Toolchain::Master) == "master"@,
{
}

/// Round trip: for any three version numbers, the canonically written
/// version string parses back to exactly those numbers, and displaying the
/// parsed value gives back the same string.
pub proof fn lemma_round_trip(major: usize, minor: usize, patch: usize)
    ensures
        ({
            let t = Toolchain::Version { major, minor, patch };
            let s = dec_chars(major as nat) + seq!['.'] + dec_chars(minor as nat) + seq!['.']
                + dec_chars(patch as nat);
            display_toolchain(t) == s && parse_toolchain(s) == Some(t)
                && display_toolchain(parse_toolchain(s)->Some_0) == s
        }),
{
    let t = Toolchain::Version { major, minor, patch };
    let a = dec_chars(major as nat);
    let b = dec_chars(minor as nat);
    let c = dec_chars(patch as nat);
    let s = a + seq!['.'] + b + seq!['.'] + c;
    lemma_dec_chars_props(major as nat);
    lemma_dec_chars_props(minor as nat);
    lemma_dec_chars_props(patch as nat);
    reveal_strlit("master");
    assert(s[0] == a[0]);
    assert(is_digit(s[0]));
    if s == "master"@ {
        assert(s[0] == 'm');
    }
    lemma_parse_splits(s, a, b, c);
}

/// Displaying any toolchain and parsing the result gives back the same
/// toolchain.
pub proof fn lemma_display_parse(t: Toolchain)
    ensures
        parse_toolchain(display_toolchain(t)) == Some(t),
{
    match t {
        Toolchain::Master => lemma_master_identity(),
        Toolchain::Version { major, minor, patch } => lemma_round_trip(major, minor, patch),
    }
}

/// Rejection: a string that is not `master` and does not split into exactly
/// three dot-separated valid decimal segments parses to nothing, so
/// [`Toolchain::from_str`] fails with `InvalidToolchain` on it.
pub proof fn lemma_rejection(s: Seq<char>)
    requires
        s != "master"@,
        forall|a: Seq<char>, b: Seq<char>, c: Seq<char>| #[trigger]
            splits_as(s, a, b, c) ==> !(valid_segment(a) && valid_segment(b) && valid_segment(c)),
    ensures
        parse_toolchain(s) is None,
{
    if parse_version_spec(s) is Some {
        lemma_parse_version_witness(s);
        let (a, b, c) = choose|a: Seq<char>, b: Seq<char>, c: Seq<char>|
            splits_as(s, a, b, c) && valid_segment(a) && valid_segment(b) && valid_segment(c);
        assert(splits_as(s, a, b, c));
    }
}

} // verus!
