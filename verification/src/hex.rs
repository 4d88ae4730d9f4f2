use vstd::prelude::*;

use crate::text::{
    chars_of, is_whitespace_char, lemma_strip_ws_id, push_char, strip_ws, trim_start,
    whitespace_char,
};
use vstd::string::StringExecFns;

verus! {

/// The letter case used when rendering bytes as hex text.
#[derive(Clone, Copy, Debug, PartialEq, Eq, Structural)]
pub enum HexCase {
    Lower,
    Upper,
}

/// The sixteen hex digits, either letter case.
pub open spec fn is_hex_digit(c: char) -> bool {
    ('0' <= c && c <= '9') || ('a' <= c && c <= 'f') || ('A' <= c && c <= 'F')
}

/// The value of one hex digit, case-insensitively.
pub open spec fn hex_digit_val(c: char) -> u8 {
    if '0' <= c && c <= '9' {
        (c as u8 - '0' as u8) as u8
    } else if 'a' <= c && c <= 'f' {
        (c as u8 - 'a' as u8 + 10) as u8
    } else if 'A' <= c && c <= 'F' {
        (c as u8 - 'A' as u8 + 10) as u8
    } else {
        0
    }
}

/// The hex digit for a value below sixteen, in the chosen letter case.
pub open spec fn hex_char_of_nibble(n: u8, upper: bool) -> char {
    if n < 10 {
        (('0' as u8) + n) as char
    } else if upper {
        (('A' as u8) + n - 10) as char
    } else {
        (('a' as u8) + n - 10) as char
    }
}

/// Bytes rendered as hex text: two digits per byte, high nibble first,
/// concatenated in input order.
pub open spec fn hex_of_bytes(b: Seq<u8>, upper: bool) -> Seq<char> {
    Seq::new(
        2 * b.len(),
        |i: int|
            if i % 2 == 0 {
                hex_char_of_nibble((b[i / 2] / 16) as u8, upper)
            } else {
                hex_char_of_nibble((b[i / 2] % 16) as u8, upper)
            },
    )
}

/// Every character of the sequence is a hex digit.
pub open spec fn all_hex_digits(s: Seq<char>) -> bool {
    forall|i: int| 0 <= i < s.len() ==> is_hex_digit(#[trigger] s[i])
}

/// The byte one hex pair stands for.
pub open spec fn hex_pair_byte(hi: char, lo: char) -> u8 {
    (hex_digit_val(hi) * 16 + hex_digit_val(lo)) as u8
}

/// The bytes an even-length hex string stands for, one per pair of digits.
pub open spec fn hex_bytes_of(s: Seq<char>) -> Seq<u8> {
    Seq::new((s.len() / 2) as nat, |k: int| hex_pair_byte(s[2 * k], s[2 * k + 1]))
}

/// The two-character prefix `0x` or `0X` at the very start.
pub open spec fn has_hex_prefix(s: Seq<char>) -> bool {
    s.len() >= 2 && s[0] == '0' && (s[1] == 'x' || s[1] == 'X')
}

/// The sequence with one leading `0x`/`0X` prefix removed, if present.
pub open spec fn strip_hex_prefix(s: Seq<char>) -> Seq<char> {
    if has_hex_prefix(s) {
        s.skip(2)
    } else {
        s
    }
}

/// What `parse_hex` actually decodes: the input with leading whitespace
/// trimmed, then one `0x`/`0X` prefix removed if present at the very start,
/// then every remaining whitespace character removed.
pub open spec fn hex_norm(s: Seq<char>) -> Seq<char> {
    strip_ws(strip_hex_prefix(trim_start(s)))
}

/// The diagnostic for a hex pair holding a character that is no hex digit.
pub open spec fn invalid_pair_msg(hi: char, lo: char) -> Seq<char> {
    "Invalid hex pair '"@ + seq![hi, lo] + "': invalid digit found in string"@
}

/// Which diagnostic a rejected hex input earns, over its normalized form
/// `v`: empty input its own message, odd length its own message, and
/// otherwise the message naming the first pair that is no two hex digits.
pub open spec fn hex_error_spec(v: Seq<char>, e: Seq<char>) -> bool {
    &&& (v.len() == 0 ==> e == "Empty hex string"@)
    &&& (v.len() % 2 == 1 ==> e == "Hex string must have even length"@)
    &&& (v.len() > 0 && v.len() % 2 == 0 && !all_hex_digits(v) ==> exists|k: int|
        {
            &&& 0 <= k && 2 * k + 1 < v.len()
            &&& !(is_hex_digit(#[trigger] v[2 * k]) && is_hex_digit(v[2 * k + 1]))
            &&& (forall|j: int|
                0 <= j < k ==> is_hex_digit(#[trigger] v[2 * j]) && is_hex_digit(v[2 * j + 1]))
            &&& e == invalid_pair_msg(v[2 * k], v[2 * k + 1])
        })
}

/// The value of one hex digit, in executable code.
fn hex_digit_value(c: char) -> (r: u8)
    requires
        is_hex_digit(c),
    ensures
        r == hex_digit_val(c),
        r < 16,
{
    if '0' <= c && c <= '9' {
        (c as u8) - ('0' as u8)
    } else if 'a' <= c && c <= 'f' {
        (c as u8) - ('a' as u8) + 10
    } else {
        (c as u8) - ('A' as u8) + 10
    }
}

/// One hex digit test, in executable code.
fn hex_digit(c: char) -> (r: bool)
    ensures
        r == is_hex_digit(c),
{
    ('0' <= c && c <= '9') || ('a' <= c && c <= 'f') || ('A' <= c && c <= 'F')
}

/// One nibble rendered as a hex digit, in executable code.
fn nibble_to_char(n: u8, upper: bool) -> (c: char)
    requires
        n < 16,
    ensures
        c == hex_char_of_nibble(n, upper),
{
    if n < 10 {
        (('0' as u8) + n) as char
    } else if upper {
        (('A' as u8) + n - 10) as char
    } else {
        (('a' as u8) + n - 10) as char
    }
}

/// Render bytes as hex text: exactly two digits per byte, zero-padded, in the
/// chosen letter case, concatenated in input order with no separators.
pub fn bytes_to_hex(bytes: &[u8], hex_case: HexCase) -> (r: String)
    ensures
        r@ == hex_of_bytes(bytes@, hex_case is Upper),
{
    let upper = match hex_case {
        HexCase::Lower => false,
        HexCase::Upper => true,
    };
    let ghost goal = hex_of_bytes(bytes@, upper);
    let mut r = String::new();
    let mut i: usize = 0;
    while i < bytes.len()
        invariant
            i <= bytes@.len(),
            goal == hex_of_bytes(bytes@, upper),
            goal.len() == 2 * bytes@.len(),
            r@ == goal.take(2 * i as int),
        decreases bytes@.len() - i,
    {
        let b = bytes[i];
        push_char(&mut r, nibble_to_char(b / 16, upper));
        push_char(&mut r, nibble_to_char(b % 16, upper));
        proof {
            assert(goal[2 * i as int] == hex_char_of_nibble((bytes@[i as int] / 16) as u8, upper));
            assert(goal[2 * i as int + 1] == hex_char_of_nibble(
                (bytes@[i as int] % 16) as u8,
                upper,
            ));
            assert(r@ =~= goal.take(2 * (i as int + 1)));
        }
        i = i + 1;
    }
    proof {
        assert(goal.take(2 * bytes@.len() as int) =~= goal);
    }
    r
}

/// The normalized form of a hex input, as `hex_norm` describes it.
fn hex_normalize(input: &str) -> (w: Vec<char>)
    ensures
        w@ == hex_norm(input@),
{
    let v = chars_of(input);
    proof {
        assert(v@.skip(0) =~= v@);
    }
    // Skip leading whitespace.
    let mut st: usize = 0;
    while st < v.len() && whitespace_char(v[st])
        invariant
            st <= v@.len(),
            trim_start(v@) == trim_start(v@.skip(st as int)),
        decreases v@.len() - st,
    {
        proof {
            assert(v@.skip(st as int).drop_first() =~= v@.skip(st as int + 1));
        }
        st = st + 1;
    }
    proof {
        if st < v@.len() {
            assert(v@.skip(st as int)[0] == v@[st as int]);
        }
        assert(trim_start(v@) == v@.skip(st as int));
    }
    // Strip one 0x/0X prefix at the very start of the trimmed input.
    let start: usize = if v.len() - st >= 2 && v[st] == '0' && (v[st + 1] == 'x' || v[st + 1]
        == 'X') {
        st + 2
    } else {
        st
    };
    proof {
        let t = v@.skip(st as int);
        if has_hex_prefix(t) {
            assert(t[0] == v@[st as int] && t[1] == v@[st as int + 1]);
            assert(t.skip(2) =~= v@.skip(start as int));
        }
        assert(strip_hex_prefix(trim_start(v@)) == v@.skip(start as int));
    }
    // Remove every remaining whitespace character.
    let mut w: Vec<char> = Vec::new();
    let mut i: usize = start;
    proof {
        assert(w@ + strip_ws(v@.skip(start as int)) =~= strip_ws(v@.skip(start as int)));
    }
    while i < v.len()
        invariant
            start <= i <= v@.len(),
            hex_norm(v@) == w@ + strip_ws(v@.skip(i as int)),
        decreases v@.len() - i,
    {
        let c = v[i];
        proof {
            assert(v@.skip(i as int).drop_first() =~= v@.skip(i as int + 1));
            assert(v@.skip(i as int)[0] == v@[i as int]);
        }
        if !whitespace_char(c) {
            w.push(c);
            proof {
                assert(w@ + strip_ws(v@.skip(i as int + 1)) =~= (w@.drop_last() + (seq![c]
                    + strip_ws(v@.skip(i as int + 1)))));
            }
        }
        i = i + 1;
    }
    proof {
        assert(v@.skip(v@.len() as int) =~= Seq::<char>::empty());
        assert(w@ + Seq::<char>::empty() =~= w@);
    }
    w
}

/// Parse hex text into bytes. Leading whitespace is trimmed, one `0x`/`0X`
/// prefix is removed if present at the very start, and all remaining
/// whitespace is ignored; what is left must be a non-empty, even-length
/// string of hex digits, two per byte, either letter case.
pub fn parse_hex(input: &str) -> (r: Result<Vec<u8>, String>)
    ensures
        ({
            let v = hex_norm(input@);
            &&& (r is Ok <==> v.len() > 0 && v.len() % 2 == 0 && all_hex_digits(v))
            &&& (r is Ok ==> r->Ok_0@ == hex_bytes_of(v))
            &&& (r matches Err(m) ==> hex_error_spec(v, m@))
        }),
{
    let w = hex_normalize(input);
    if w.len() == 0 {
        return Err(String::from_str("Empty hex string"));
    }
    if w.len() % 2 != 0 {
        return Err(String::from_str("Hex string must have even length"));
    }
    let pairs = w.len() / 2;
    let mut bytes: Vec<u8> = Vec::new();
    let mut k: usize = 0;
    while k < pairs
        invariant
            k <= pairs,
            pairs == w@.len() / 2,
            w@.len() <= usize::MAX,
            w@.len() % 2 == 0,
            w@ == hex_norm(input@),
            bytes@.len() == k,
            forall|j: int|
                0 <= j < k ==> is_hex_digit(#[trigger] w@[2 * j]) && is_hex_digit(w@[2 * j + 1]),
            forall|j: int|
                0 <= j < k ==> bytes@[j] == hex_pair_byte(#[trigger] w@[2 * j], w@[2 * j + 1]),
        decreases pairs - k,
    {
        proof {
            assert(2 * (w@.len() as int / 2) == w@.len() as int);
            assert(2 * (k as int) + 1 < w@.len());
        }
        let hi = w[2 * k];
        let lo = w[2 * k + 1];
        if !hex_digit(hi) || !hex_digit(lo) {
            let mut m = String::from_str("Invalid hex pair '");
            push_char(&mut m, hi);
            push_char(&mut m, lo);
            m.append("': invalid digit found in string");
            proof {
                let v = hex_norm(input@);
                assert(m@ =~= invalid_pair_msg(v[2 * k as int], v[2 * k as int + 1]));
                assert(!(is_hex_digit(v[2 * k as int]) && is_hex_digit(v[2 * k as int + 1])));
                assert(!all_hex_digits(v));
            }
            return Err(m);
        }
        let b = hex_digit_value(hi) * 16 + hex_digit_value(lo);
        bytes.push(b);
        k = k + 1;
    }
    proof {
        let v = hex_norm(input@);
        let len = w@.len() as int;
        assert(2 * (len / 2) == len);
        assert forall|i: int| 0 <= i < v.len() implies is_hex_digit(#[trigger] v[i]) by {
            let j = i / 2;
            assert(i == 2 * j || i == 2 * j + 1);
            assert(0 <= j && 2 * j + 1 < len);
            assert(j < len / 2);
            assert(is_hex_digit(w@[2 * j]) && is_hex_digit(w@[2 * j + 1]));
        }
        assert forall|j: int| 0 <= j < hex_bytes_of(v).len() implies bytes@[j] == hex_bytes_of(
            v,
        )[j] by {
            assert(bytes@[j] == hex_pair_byte(w@[2 * j], w@[2 * j + 1]));
        }
        assert(bytes@ =~= hex_bytes_of(v));
    }
    Ok(bytes)
}

/// Hex digits round-trip through a character and back to the same value, are
/// never whitespace, and are never the letter of a `0x` prefix.
pub proof fn lemma_nibble_roundtrip(n: u8, upper: bool)
    requires
        n < 16,
    ensures
        is_hex_digit(hex_char_of_nibble(n, upper)),
        hex_digit_val(hex_char_of_nibble(n, upper)) == n,
        !is_whitespace_char(hex_char_of_nibble(n, upper)),
        hex_char_of_nibble(n, upper) != 'x',
        hex_char_of_nibble(n, upper) != 'X',
{
}

/// Round trip: rendering bytes as hex text, in either letter case, and
/// parsing that text back yields the original bytes. The rendered text needs
/// no normalization: it holds no whitespace and no `0x` prefix, every
/// character is a hex digit, and its pairs decode to the original bytes, so
/// `parse_hex` accepts it whenever it is non-empty.
pub proof fn lemma_hex_round_trip(b: Seq<u8>, upper: bool)
    ensures
        hex_of_bytes(b, upper).len() == 2 * b.len(),
        all_hex_digits(hex_of_bytes(b, upper)),
        hex_norm(hex_of_bytes(b, upper)) == hex_of_bytes(b, upper),
        hex_bytes_of(hex_of_bytes(b, upper)) == b,
{
    let h = hex_of_bytes(b, upper);
    assert forall|i: int| 0 <= i < h.len() implies is_hex_digit(#[trigger] h[i])
        && !is_whitespace_char(h[i]) && h[i] != 'x' && h[i] != 'X' by {
        if i % 2 == 0 {
            lemma_nibble_roundtrip((b[i / 2] / 16) as u8, upper);
        } else {
            lemma_nibble_roundtrip((b[i / 2] % 16) as u8, upper);
        }
    }
    assert(trim_start(h) == h);
    assert(!has_hex_prefix(h));
    lemma_strip_ws_id(h);
    assert forall|k: int| 0 <= k < hex_bytes_of(h).len() implies hex_bytes_of(h)[k] == b[k] by {
        lemma_nibble_roundtrip((b[k] / 16) as u8, upper);
        lemma_nibble_roundtrip((b[k] % 16) as u8, upper);
        assert(h[2 * k] == hex_char_of_nibble((b[k] / 16) as u8, upper));
        assert(h[2 * k + 1] == hex_char_of_nibble((b[k] % 16) as u8, upper));
    }
    assert(hex_bytes_of(h) =~= b);
}

/// A lower-case hex letter mapped to its upper-case form; every other
/// character kept.
pub open spec fn hex_upcase_char(c: char) -> char {
    if 'a' <= c && c <= 'f' {
        hex_char_of_nibble(hex_digit_val(c), true)
    } else {
        c
    }
}

/// The sequence with every lower-case hex letter upper-cased.
pub open spec fn hex_upcase(s: Seq<char>) -> Seq<char> {
    Seq::new(s.len(), |i: int| hex_upcase_char(s[i]))
}

/// Hex decoding is case-insensitive: upper-casing the digits of a hex string
/// neither changes whether it is valid hex nor the bytes it stands for.
pub proof fn lemma_hex_case_insensitive(s: Seq<char>)
    ensures
        all_hex_digits(hex_upcase(s)) == all_hex_digits(s),
        all_hex_digits(s) ==> hex_bytes_of(hex_upcase(s)) == hex_bytes_of(s),
{
    let u = hex_upcase(s);
    assert forall|i: int| 0 <= i < s.len() implies is_hex_digit(#[trigger] u[i]) == is_hex_digit(
        s[i],
    ) && hex_digit_val(u[i]) == hex_digit_val(s[i]) by {
        assert(u[i] == hex_upcase_char(s[i]));
    }
    if all_hex_digits(s) {
        assert forall|i: int| 0 <= i < u.len() implies is_hex_digit(#[trigger] u[i]) by {
            assert(is_hex_digit(s[i]));
        }
        assert(hex_bytes_of(hex_upcase(s)) =~= hex_bytes_of(s));
    }
    if all_hex_digits(u) {
        assert forall|i: int| 0 <= i < s.len() implies is_hex_digit(#[trigger] s[i]) by {
            assert(is_hex_digit(u[i]));
        }
    }
}

} // verus!
