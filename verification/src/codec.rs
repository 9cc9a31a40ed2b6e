//! Text encoders used to talk to the API: Base64 (for the `Authorization`
//! header), percent-encoding of path segments, and decimal / hexadecimal
//! rendering of integers.
use vstd::prelude::*;
use vstd::string::StringSliceAdditionalSpecFns;

verus! {

// ---------------------------------------------------------------------------
// Character building blocks
// ---------------------------------------------------------------------------

/// Appends one `char` to a `String`.
///
/// Trusted: calls `String::push`, which std documents as appending the given
/// char to the end of the string; the contract says exactly that.
#[verifier::external_body]
pub(crate) fn push_char(s: &mut String, c: char)
    ensures
        final(s)@ == old(s)@.push(c),
{
    s.push(c)
}

/// The character with code point `48 + d` for a decimal digit `d`.
pub open spec fn decimal_digit_char(d: int) -> char {
    (48 + d) as char
}

/// Lowercase hexadecimal digit (`0-9a-f`).
pub open spec fn hex_lower_char(d: int) -> char {
    if d < 10 {
        (48 + d) as char
    } else {
        (87 + d) as char
    }
}

/// Uppercase hexadecimal digit (`0-9A-F`).
pub open spec fn hex_upper_char(d: int) -> char {
    if d < 10 {
        (48 + d) as char
    } else {
        (55 + d) as char
    }
}

// ---------------------------------------------------------------------------
// Decimal and hexadecimal rendering
// ---------------------------------------------------------------------------

/// Shortest decimal rendering of `n` (no sign, no leading zeros; `0` is `"0"`).
pub open spec fn decimal_text(n: nat) -> Seq<char>
    decreases n,
{
    if n < 10 {
        seq![decimal_digit_char(n as int)]
    } else {
        decimal_text(n / 10).push(decimal_digit_char((n % 10) as int))
    }
}

/// Shortest lowercase hexadecimal rendering of `n` (as `format!("{n:x}")`).
pub open spec fn hex_text(n: nat) -> Seq<char>
    decreases n,
{
    if n < 16 {
        seq![hex_lower_char(n as int)]
    } else {
        hex_text(n / 16).push(hex_lower_char((n % 16) as int))
    }
}

/// Renders `n` in decimal, as `n.to_string()` does.
pub fn u64_to_decimal(n: u64) -> (s: String)
    ensures
        s@ == decimal_text(n as nat),
    decreases n,
{
    if n < 10 {
        let mut s = String::new();
        push_char(&mut s, (48u8 + n as u8) as char);
        s
    } else {
        let mut s = u64_to_decimal(n / 10);
        push_char(&mut s, (48u8 + (n % 10) as u8) as char);
        s
    }
}

fn hex_digit(d: u8) -> (c: char)
    requires
        d < 16,
    ensures
        c == hex_lower_char(d as int),
{
    if d < 10 {
        (48u8 + d) as char
    } else {
        (87u8 + d) as char
    }
}

/// Renders `n` in lowercase hexadecimal, as `format!("{n:x}")` does.
pub fn u128_to_hex(n: u128) -> (s: String)
    ensures
        s@ == hex_text(n as nat),
    decreases n,
{
    if n < 16 {
        let mut s = String::new();
        push_char(&mut s, hex_digit(n as u8));
        s
    } else {
        let mut s = u128_to_hex(n / 16);
        push_char(&mut s, hex_digit((n % 16) as u8));
        s
    }
}

/// No hexadecimal rendering contains a `-`.
pub proof fn lemma_hex_text_no_dash(n: nat)
    ensures
        !hex_text(n).contains('-'),
        hex_text(n).len() >= 1,
    decreases n,
{
    if n >= 16 {
        lemma_hex_text_no_dash(n / 16);
        let t = hex_text(n / 16);
        let c = hex_lower_char((n % 16) as int);
        assert forall|i: int| 0 <= i < t.push(c).len() implies t.push(c)[i] != '-' by {
            if i < t.len() {
                assert(t[i] == t.push(c)[i]);
            }
        }
    }
}

proof fn lemma_hex_lower_char_injective(x: int, y: int)
    requires
        0 <= x < 16,
        0 <= y < 16,
        hex_lower_char(x) == hex_lower_char(y),
    ensures
        x == y,
{
    assert(hex_lower_char(x) as int == if x < 10 { 48 + x } else { 87 + x });
    assert(hex_lower_char(y) as int == if y < 10 { 48 + y } else { 87 + y });
}

/// Hexadecimal rendering is injective: distinct numbers render differently.
pub proof fn lemma_hex_text_injective(a: nat, b: nat)
    requires
        hex_text(a) == hex_text(b),
    ensures
        a == b,
    decreases a + b,
{
    let ta = hex_text(a);
    let tb = hex_text(b);
    if a < 16 && b < 16 {
        assert(ta[0] == tb[0]);
        lemma_hex_lower_char_injective(a as int, b as int);
    } else if a < 16 {
        lemma_hex_text_no_dash(b / 16);
        assert(tb.len() >= 2);
        assert(ta.len() == 1);
    } else if b < 16 {
        lemma_hex_text_no_dash(a / 16);
        assert(ta.len() >= 2);
        assert(tb.len() == 1);
    } else {
        assert(ta.last() == tb.last());
        lemma_hex_lower_char_injective((a % 16) as int, (b % 16) as int);
        assert(ta.drop_last() =~= hex_text(a / 16));
        assert(tb.drop_last() =~= hex_text(b / 16));
        lemma_hex_text_injective(a / 16, b / 16);
    }
}

// ---------------------------------------------------------------------------
// Base64 (RFC 4648, standard alphabet, with padding)
// ---------------------------------------------------------------------------

/// The Base64 alphabet: `A-Z`, `a-z`, `0-9`, `+`, `/`, indexed by `i < 64`.
pub open spec fn base64_char(i: int) -> char {
    if i < 26 {
        (65 + i) as char
    } else if i < 52 {
        (97 + (i - 26)) as char
    } else if i < 62 {
        (48 + (i - 52)) as char
    } else if i == 62 {
        '+'
    } else {
        '/'
    }
}

/// Whether `c` may appear in Base64 output (an alphabet char or `=`).
pub open spec fn is_base64_output_char(c: char) -> bool {
    ('A' <= c <= 'Z') || ('a' <= c <= 'z') || ('0' <= c <= '9') || c == '+' || c == '/' || c
        == '='
}

/// The four output characters of a full three-byte group.
pub open spec fn base64_group(b0: u8, b1: u8, b2: u8) -> Seq<char> {
    seq![
        base64_char((b0 / 4) as int),
        base64_char((b0 % 4) * 16 + b1 / 16),
        base64_char((b1 % 16) * 4 + b2 / 64),
        base64_char((b2 % 64) as int),
    ]
}

/// Base64 encoding of a byte sequence, with `=` padding of the last group.
pub open spec fn base64_spec(b: Seq<u8>) -> Seq<char>
    decreases b.len(),
{
    if b.len() == 0 {
        seq![]
    } else if b.len() == 1 {
        seq![base64_char((b[0] / 4) as int), base64_char((b[0] % 4) * 16), '=', '=']
    } else if b.len() == 2 {
        seq![
            base64_char((b[0] / 4) as int),
            base64_char((b[0] % 4) * 16 + b[1] / 16),
            base64_char((b[1] % 16) * 4),
            '=',
        ]
    } else {
        base64_group(b[0], b[1], b[2]) + base64_spec(b.skip(3))
    }
}

fn base64_digit(i: u8) -> (c: char)
    requires
        i < 64,
    ensures
        c == base64_char(i as int),
{
    if i < 26 {
        (65u8 + i) as char
    } else if i < 52 {
        (97u8 + (i - 26)) as char
    } else if i < 62 {
        (48u8 + (i - 52)) as char
    } else if i == 62 {
        '+'
    } else {
        '/'
    }
}

/// Base64-encodes the UTF-8 bytes of `input` (standard alphabet, padded).
pub fn base64_encode(input: &str) -> (out: String)
    ensures
        out@ == base64_spec(input.spec_bytes()),
{
    let bytes = input.as_bytes();
    let len = bytes.len();
    let mut out = String::new();
    let mut i: usize = 0;
    assert(bytes@.skip(0) =~= bytes@);
    while 3 <= len - i
        invariant
            len == bytes@.len(),
            i <= len,
            base64_spec(bytes@) == out@ + base64_spec(bytes@.skip(i as int)),
        decreases len - i,
    {
        let b0 = bytes[i];
        let b1 = bytes[i + 1];
        let b2 = bytes[i + 2];
        let ghost before = out@;
        let ghost rest = bytes@.skip(i as int);
        assert(rest[0] == b0 && rest[1] == b1 && rest[2] == b2);
        assert(rest.skip(3) =~= bytes@.skip(i + 3));
        push_char(&mut out, base64_digit(b0 / 4));
        push_char(&mut out, base64_digit((b0 % 4) * 16 + b1 / 16));
        push_char(&mut out, base64_digit((b1 % 16) * 4 + b2 / 64));
        push_char(&mut out, base64_digit(b2 % 64));
        assert(out@ =~= before + base64_group(b0, b1, b2));
        i = i + 3;
    }
    let ghost rest = bytes@.skip(i as int);
    let remaining = len - i;
    if remaining == 1 {
        let b0 = bytes[i];
        assert(rest[0] == b0);
        push_char(&mut out, base64_digit(b0 / 4));
        push_char(&mut out, base64_digit((b0 % 4) * 16));
        push_char(&mut out, '=');
        push_char(&mut out, '=');
    } else if remaining == 2 {
        let b0 = bytes[i];
        let b1 = bytes[i + 1];
        assert(rest[0] == b0 && rest[1] == b1);
        push_char(&mut out, base64_digit(b0 / 4));
        push_char(&mut out, base64_digit((b0 % 4) * 16 + b1 / 16));
        push_char(&mut out, base64_digit((b1 % 16) * 4));
        push_char(&mut out, '=');
    }
    assert(out@ =~= base64_spec(bytes@));
    out
}

/// Law: Base64 output has length `4 * ceil(n / 3)` for `n` input bytes, and
/// every output character is an alphabet character or `=`.
pub proof fn lemma_base64_shape(b: Seq<u8>)
    ensures
        base64_spec(b).len() == 4 * ((b.len() + 2) / 3),
        forall|i: int|
            0 <= i < base64_spec(b).len() ==> is_base64_output_char(#[trigger] base64_spec(b)[i]),
    decreases b.len(),
{
    if b.len() >= 3 {
        lemma_base64_shape(b.skip(3));
        let g = base64_group(b[0], b[1], b[2]);
        let r = base64_spec(b.skip(3));
        assert forall|i: int| 0 <= i < (g + r).len() implies is_base64_output_char(
            #[trigger] (g + r)[i],
        ) by {
            if i >= 4 {
                assert((g + r)[i] == r[i - 4]);
            }
        }
    }
}

proof fn lemma_base64_char_code(i: int)
    requires
        0 <= i < 64,
    ensures
        base64_char(i) as int == (if i < 26 {
            65 + i
        } else if i < 52 {
            71 + i
        } else if i < 62 {
            i - 4
        } else if i == 62 {
            43
        } else {
            47
        }),
        base64_char(i) != '=',
{
}

proof fn lemma_base64_char_injective(i: int, j: int)
    requires
        0 <= i < 64,
        0 <= j < 64,
        base64_char(i) == base64_char(j),
    ensures
        i == j,
{
    lemma_base64_char_code(i);
    lemma_base64_char_code(j);
}

proof fn lemma_base64_group_injective(b0: u8, b1: u8, b2: u8, c0: u8, c1: u8, c2: u8)
    by (bit_vector)
    requires
        b0 / 4 == c0 / 4,
        (b0 % 4) * 16 + b1 / 16 == (c0 % 4) * 16 + c1 / 16,
        (b1 % 16) * 4 + b2 / 64 == (c1 % 16) * 4 + c2 / 64,
        b2 % 64 == c2 % 64,
    ensures
        b0 == c0,
        b1 == c1,
        b2 == c2,
{
}

/// Law: Base64 encoding is injective, so distinct credentials always give
/// distinct `Authorization` headers.
pub proof fn lemma_base64_injective(a: Seq<u8>, b: Seq<u8>)
    requires
        base64_spec(a) == base64_spec(b),
    ensures
        a == b,
    decreases a.len(),
{
    let ea = base64_spec(a);
    let eb = base64_spec(b);
    lemma_base64_shape(a);
    lemma_base64_shape(b);
    if a.len() >= 3 && b.len() >= 3 {
        let ga = base64_group(a[0], a[1], a[2]);
        let gb = base64_group(b[0], b[1], b[2]);
        let ra = base64_spec(a.skip(3));
        let rb = base64_spec(b.skip(3));
        assert(ea == ga + ra);
        assert(eb == gb + rb);
        assert forall|k: int| 0 <= k < 4 implies ga[k] == gb[k] by {
            assert(ea[k] == ga[k]);
            assert(eb[k] == gb[k]);
        }
        lemma_base64_char_injective((a[0] / 4) as int, (b[0] / 4) as int);
        lemma_base64_char_injective(
            (a[0] % 4) * 16 + a[1] / 16,
            (b[0] % 4) * 16 + b[1] / 16,
        );
        lemma_base64_char_injective(
            (a[1] % 16) * 4 + a[2] / 64,
            (b[1] % 16) * 4 + b[2] / 64,
        );
        lemma_base64_char_injective((a[2] % 64) as int, (b[2] % 64) as int);
        lemma_base64_group_injective(a[0], a[1], a[2], b[0], b[1], b[2]);
        assert(ra =~= ea.skip(4));
        assert(rb =~= eb.skip(4));
        lemma_base64_injective(a.skip(3), b.skip(3));
        assert(a =~= seq![a[0], a[1], a[2]] + a.skip(3));
        assert(b =~= seq![b[0], b[1], b[2]] + b.skip(3));
    } else if a.len() >= 3 || b.len() >= 3 {
        // One side holds a full group, the other at most a padded one.
        let (f, p) = if a.len() >= 3 {
            (a, b)
        } else {
            (b, a)
        };
        lemma_base64_shape(f.skip(3));
        let gf = base64_group(f[0], f[1], f[2]);
        let rf = base64_spec(f.skip(3));
        assert(base64_spec(f) == gf + rf);
        assert(base64_spec(f).len() == base64_spec(p).len());
        if p.len() == 0 {
            assert(base64_spec(p).len() == 0);
        } else {
            assert(base64_spec(p).len() == 4);
            assert(rf.len() == 0);
            assert(base64_spec(f)[3] == gf[3]);
            lemma_base64_char_code((f[2] % 64) as int);
            assert(base64_spec(p)[3] == '=');
        }
    } else if a.len() == 0 || b.len() == 0 {
        assert(ea.len() == 0 && eb.len() == 0);
        assert(a =~= b);
    } else if a.len() == 1 && b.len() == 1 {
        assert(ea[0] == eb[0] && ea[1] == eb[1]);
        lemma_base64_char_injective((a[0] / 4) as int, (b[0] / 4) as int);
        lemma_base64_char_injective((a[0] % 4) * 16, (b[0] % 4) * 16);
        lemma_base64_group_injective(a[0], 0, 0, b[0], 0, 0);
        assert(a =~= b);
    } else if a.len() == 2 && b.len() == 2 {
        assert(ea[0] == eb[0] && ea[1] == eb[1] && ea[2] == eb[2]);
        lemma_base64_char_injective((a[0] / 4) as int, (b[0] / 4) as int);
        lemma_base64_char_injective(
            (a[0] % 4) * 16 + a[1] / 16,
            (b[0] % 4) * 16 + b[1] / 16,
        );
        lemma_base64_char_injective((a[1] % 16) * 4, (b[1] % 16) * 4);
        lemma_base64_group_injective(a[0], a[1], 0, b[0], b[1], 0);
        assert(a =~= b);
    } else if a.len() == 1 {
        assert(ea[2] == '=');
        lemma_base64_char_code((b[1] % 16) * 4);
        assert(eb[2] == base64_char((b[1] % 16) * 4));
    } else {
        assert(eb[2] == '=');
        lemma_base64_char_code((a[1] % 16) * 4);
        assert(ea[2] == base64_char((a[1] % 16) * 4));
    }
}

// ---------------------------------------------------------------------------
// Percent-encoding of a path segment
// ---------------------------------------------------------------------------

/// RFC 3986 "unreserved" bytes: `A-Z a-z 0-9 - _ . ~`.
pub open spec fn is_unreserved(b: u8) -> bool {
    (65 <= b <= 90) || (97 <= b <= 122) || (48 <= b <= 57) || b == 45 || b == 95 || b == 46 || b
        == 126
}

/// The encoding of one byte: itself when unreserved, else `%XX` (uppercase hex).
pub open spec fn percent_encode_byte(b: u8) -> Seq<char> {
    if is_unreserved(b) {
        seq![b as char]
    } else {
        seq!['%', hex_upper_char((b / 16) as int), hex_upper_char((b % 16) as int)]
    }
}

/// Percent-encoding of a byte sequence, byte by byte.
pub open spec fn url_encode_spec(b: Seq<u8>) -> Seq<char>
    decreases b.len(),
{
    if b.len() == 0 {
        seq![]
    } else {
        url_encode_spec(b.drop_last()) + percent_encode_byte(b.last())
    }
}

fn hex_upper_digit(d: u8) -> (c: char)
    requires
        d < 16,
    ensures
        c == hex_upper_char(d as int),
{
    if d < 10 {
        (48u8 + d) as char
    } else {
        (55u8 + d) as char
    }
}

/// Percent-encodes the UTF-8 bytes of `input` for use as one URL path
/// segment: unreserved bytes are kept, every other byte becomes `%XX`.
pub fn url_encode(input: &str) -> (out: String)
    ensures
        out@ == url_encode_spec(input.spec_bytes()),
{
    let bytes = input.as_bytes();
    let len = bytes.len();
    let mut out = String::new();
    let mut i: usize = 0;
    while i < len
        invariant
            len == bytes@.len(),
            i <= len,
            out@ == url_encode_spec(bytes@.take(i as int)),
        decreases len - i,
    {
        let byte = bytes[i];
        let ghost before = out@;
        if (65 <= byte && byte <= 90) || (97 <= byte && byte <= 122) || (48 <= byte && byte <= 57)
            || byte == 45 || byte == 95 || byte == 46 || byte == 126 {
            push_char(&mut out, byte as char);
        } else {
            push_char(&mut out, '%');
            push_char(&mut out, hex_upper_digit(byte / 16));
            push_char(&mut out, hex_upper_digit(byte % 16));
        }
        assert(bytes@.take(i + 1).drop_last() =~= bytes@.take(i as int));
        assert(out@ =~= before + percent_encode_byte(byte));
        i = i + 1;
    }
    assert(bytes@.take(len as int) =~= bytes@);
    out
}

/// Percent-encoding distributes over concatenation.
pub proof fn lemma_url_encode_concat(a: Seq<u8>, b: Seq<u8>)
    ensures
        url_encode_spec(a + b) == url_encode_spec(a) + url_encode_spec(b),
    decreases b.len(),
{
    if b.len() == 0 {
        assert(a + b =~= a);
        assert(url_encode_spec(a) + url_encode_spec(b) =~= url_encode_spec(a));
    } else {
        assert((a + b).drop_last() =~= a + b.drop_last());
        assert((a + b).last() == b.last());
        lemma_url_encode_concat(a, b.drop_last());
        assert(url_encode_spec(a + b) =~= url_encode_spec(a) + url_encode_spec(b));
    }
}

proof fn lemma_url_encode_single(x: u8)
    ensures
        url_encode_spec(seq![x]) == percent_encode_byte(x),
{
    let e = Seq::<u8>::empty();
    assert(seq![x].drop_last() =~= e);
    assert(url_encode_spec(e) == Seq::<char>::empty());
    assert(url_encode_spec(seq![x]) =~= percent_encode_byte(x));
}

proof fn lemma_hex_upper_char_injective(x: int, y: int)
    requires
        0 <= x < 16,
        0 <= y < 16,
        hex_upper_char(x) == hex_upper_char(y),
    ensures
        x == y,
{
    assert(hex_upper_char(x) as int == if x < 10 { 48 + x } else { 55 + x });
    assert(hex_upper_char(y) as int == if y < 10 { 48 + y } else { 55 + y });
}

/// Law: percent-encoding is injective, so distinct ids always give distinct
/// request paths.
pub proof fn lemma_url_encode_injective(a: Seq<u8>, b: Seq<u8>)
    requires
        url_encode_spec(a) == url_encode_spec(b),
    ensures
        a == b,
    decreases a.len(),
{
    if a.len() == 0 {
        if b.len() > 0 {
            lemma_url_encode_concat(seq![b[0]], b.skip(1));
            assert(seq![b[0]] + b.skip(1) =~= b);
            lemma_url_encode_single(b[0]);
            assert(url_encode_spec(b).len() >= 1);
            assert(url_encode_spec(a).len() == 0);
        }
        assert(a =~= b);
    } else if b.len() == 0 {
        lemma_url_encode_concat(seq![a[0]], a.skip(1));
        assert(seq![a[0]] + a.skip(1) =~= a);
        lemma_url_encode_single(a[0]);
        assert(url_encode_spec(a).len() >= 1);
        assert(url_encode_spec(b).len() == 0);
    } else {
        let x = a[0];
        let y = b[0];
        lemma_url_encode_concat(seq![x], a.skip(1));
        lemma_url_encode_concat(seq![y], b.skip(1));
        assert(seq![x] + a.skip(1) =~= a);
        assert(seq![y] + b.skip(1) =~= b);
        lemma_url_encode_single(x);
        lemma_url_encode_single(y);
        let ex = percent_encode_byte(x);
        let ey = percent_encode_byte(y);
        let ra = url_encode_spec(a.skip(1));
        let rb = url_encode_spec(b.skip(1));
        assert(ex + ra == ey + rb);
        assert((ex + ra)[0] == ex[0]);
        assert((ey + rb)[0] == ey[0]);
        if is_unreserved(x) && is_unreserved(y) {
            assert(ex[0] == ey[0]);
            assert((x as char) as int == x as int);
            assert((y as char) as int == y as int);
        } else if !is_unreserved(x) && !is_unreserved(y) {
            assert((ex + ra)[1] == ex[1] && (ey + rb)[1] == ey[1]);
            assert((ex + ra)[2] == ex[2] && (ey + rb)[2] == ey[2]);
            lemma_hex_upper_char_injective((x / 16) as int, (y / 16) as int);
            lemma_hex_upper_char_injective((x % 16) as int, (y % 16) as int);
        } else if is_unreserved(x) {
            assert(ey[0] == '%');
            assert((x as char) as int == x as int);
        } else {
            assert(ex[0] == '%');
            assert((y as char) as int == y as int);
        }
        assert(x == y);
        assert(ra =~= (ex + ra).skip(ex.len() as int));
        assert(rb =~= (ey + rb).skip(ey.len() as int));
        lemma_url_encode_injective(a.skip(1), b.skip(1));
        assert(a =~= b);
    }
}

/// Law: an input made only of unreserved bytes is left unchanged.
pub proof fn lemma_url_encode_unreserved_identity(b: Seq<u8>)
    requires
        forall|i: int| 0 <= i < b.len() ==> is_unreserved(#[trigger] b[i]),
    ensures
        url_encode_spec(b) == b.map_values(|x: u8| x as char),
    decreases b.len(),
{
    if b.len() > 0 {
        let p = b.drop_last();
        assert forall|i: int| 0 <= i < p.len() implies is_unreserved(#[trigger] p[i]) by {
            assert(p[i] == b[i]);
        }
        lemma_url_encode_unreserved_identity(p);
        assert(is_unreserved(b[b.len() - 1]));
        assert(url_encode_spec(b) =~= b.map_values(|x: u8| x as char));
    }
}

/// Law: percent-encoded output never holds a reserved path character such as
/// `/`, `?`, `#` or a space: every output char is unreserved ASCII or `%`.
pub proof fn lemma_url_encode_output_safe(b: Seq<u8>)
    ensures
        forall|i: int|
            0 <= i < url_encode_spec(b).len() ==> {
                let c = #[trigger] url_encode_spec(b)[i];
                ('A' <= c <= 'Z') || ('a' <= c <= 'z') || ('0' <= c <= '9') || c == '-' || c
                    == '_' || c == '.' || c == '~' || c == '%'
            },
    decreases b.len(),
{
    if b.len() > 0 {
        lemma_url_encode_output_safe(b.drop_last());
        let p = url_encode_spec(b.drop_last());
        let e = percent_encode_byte(b.last());
        assert forall|i: int| 0 <= i < (p + e).len() implies {
            let c = #[trigger] (p + e)[i];
            ('A' <= c <= 'Z') || ('a' <= c <= 'z') || ('0' <= c <= '9') || c == '-' || c == '_'
                || c == '.' || c == '~' || c == '%'
        } by {
            if i < p.len() {
                assert((p + e)[i] == p[i]);
            } else {
                assert((p + e)[i] == e[i - p.len()]);
            }
        }
    }
}

} // verus!
