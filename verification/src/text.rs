use vstd::prelude::*;

verus! {

/// The characters of the Unicode `White_Space` category: ASCII space, tab,
/// line feed, vertical tab, form feed, carriage return, next line, no-break
/// space, ogham space mark, the en-quad .. hair-space block, line separator,
/// paragraph separator, narrow no-break space, medium mathematical space and
/// ideographic space.
pub open spec fn is_whitespace_char(c: char) -> bool {
    let u = c as u32;
    ||| ('\u{09}' as u32) <= u && u <= ('\u{0D}' as u32)
    ||| u == (' ' as u32)
    ||| u == ('\u{85}' as u32)
    ||| u == ('\u{A0}' as u32)
    ||| u == ('\u{1680}' as u32)
    ||| ('\u{2000}' as u32) <= u && u <= ('\u{200A}' as u32)
    ||| u == ('\u{2028}' as u32)
    ||| u == ('\u{2029}' as u32)
    ||| u == ('\u{202F}' as u32)
    ||| u == ('\u{205F}' as u32)
    ||| u == ('\u{3000}' as u32)
}

/// Decide whitespace in executable code, by the same character list.
pub fn whitespace_char(c: char) -> (r: bool)
    ensures
        r == is_whitespace_char(c),
{
    let u = c as u32;
    (('\u{09}' as u32) <= u && u <= ('\u{0D}' as u32)) || u == (' ' as u32) || u == ('\u{85}'
        as u32) || u == ('\u{A0}' as u32) || u == ('\u{1680}' as u32) || (('\u{2000}' as u32) <= u
        && u <= ('\u{200A}' as u32)) || u == ('\u{2028}' as u32) || u == ('\u{2029}' as u32) || u
        == ('\u{202F}' as u32) || u == ('\u{205F}' as u32) || u == ('\u{3000}' as u32)
}

/// The sequence with every whitespace character removed, order kept.
pub open spec fn strip_ws(s: Seq<char>) -> Seq<char>
    decreases s.len(),
{
    if s.len() == 0 {
        Seq::empty()
    } else if is_whitespace_char(s[0]) {
        strip_ws(s.drop_first())
    } else {
        seq![s[0]] + strip_ws(s.drop_first())
    }
}

/// The sequence with its leading whitespace removed.
pub open spec fn trim_start(s: Seq<char>) -> Seq<char>
    decreases s.len(),
{
    if s.len() > 0 && is_whitespace_char(s[0]) {
        trim_start(s.drop_first())
    } else {
        s
    }
}

/// A sequence free of whitespace is left unchanged by `strip_ws`.
pub proof fn lemma_strip_ws_id(s: Seq<char>)
    requires
        forall|i: int| 0 <= i < s.len() ==> !is_whitespace_char(s[i]),
    ensures
        strip_ws(s) == s,
    decreases s.len(),
{
    if s.len() > 0 {
        lemma_strip_ws_id(s.drop_first());
        assert(seq![s[0]] + s.drop_first() =~= s);
    }
}

/// Nothing survives `strip_ws` of an all-whitespace sequence.
pub proof fn lemma_strip_ws_all_ws(s: Seq<char>)
    requires
        forall|i: int| 0 <= i < s.len() ==> is_whitespace_char(s[i]),
    ensures
        strip_ws(s).len() == 0,
    decreases s.len(),
{
    if s.len() > 0 {
        lemma_strip_ws_all_ws(s.drop_first());
    }
}

/// What `strip_ws` keeps is never whitespace.
pub proof fn lemma_strip_ws_no_ws(s: Seq<char>)
    ensures
        forall|i: int| 0 <= i < strip_ws(s).len() ==> !is_whitespace_char(#[trigger] strip_ws(s)[i]),
    decreases s.len(),
{
    if s.len() > 0 {
        lemma_strip_ws_no_ws(s.drop_first());
        if !is_whitespace_char(s[0]) {
            assert forall|i: int| 0 <= i < strip_ws(s).len() implies !is_whitespace_char(
                strip_ws(s)[i],
            ) by {
                if i > 0 {
                    assert(strip_ws(s)[i] == strip_ws(s.drop_first())[i - 1]);
                }
            }
        }
    }
}

/// The characters of a string slice, in order.
pub fn chars_of(s: &str) -> (r: Vec<char>)
    ensures
        r@ == s@,
{
    let n = s.unicode_len();
    let mut r: Vec<char> = Vec::new();
    let mut i: usize = 0;
    while i < n
        invariant
            i <= n,
            n == s@.len(),
            r@ == s@.take(i as int),
        decreases n - i,
    {
        let c = s.get_char(i);
        r.push(c);
        proof {
            assert(s@.take(i as int).push(s@[i as int]) =~= s@.take(i as int + 1));
        }
        i = i + 1;
    }
    proof {
        assert(s@.take(n as int) =~= s@);
    }
    r
}

/// Relies on `String::push`: appends the given character to the end of the
/// string.
#[verifier::external_body]
pub(crate) fn push_char(s: &mut String, c: char)
    ensures
        final(s)@ == old(s)@.push(c),
{
    s.push(c);
}

/// Equality of two string slices, by their character sequences.
pub fn str_eq(a: &str, b: &str) -> (r: bool)
    ensures
        r == (a@ == b@),
{
    let x = a.to_owned();
    let y = b.to_owned();
    x == y
}

/// The raw input with every whitespace character removed: the normalized
/// input that the codecs receive.
pub fn normalize_input(raw: &str) -> (r: String)
    ensures
        r@ == strip_ws(raw@),
{
    let v = chars_of(raw);
    let mut out = String::new();
    proof {
        assert(v@.skip(0) =~= v@);
        assert(out@ + strip_ws(v@) =~= strip_ws(v@));
    }
    let mut i: usize = 0;
    while i < v.len()
        invariant
            i <= v@.len(),
            v@ == raw@,
            strip_ws(raw@) == out@ + strip_ws(v@.skip(i as int)),
        decreases v@.len() - i,
    {
        let c = v[i];
        proof {
            assert(v@.skip(i as int).drop_first() =~= v@.skip(i as int + 1));
            assert(v@.skip(i as int)[0] == v@[i as int]);
        }
        if !whitespace_char(c) {
            push_char(&mut out, c);
            proof {
                assert(out@ + strip_ws(v@.skip(i as int + 1)) =~= (out@.drop_last() + (seq![c]
                    + strip_ws(v@.skip(i as int + 1)))));
            }
        }
        i = i + 1;
    }
    proof {
        assert(v@.skip(v@.len() as int) =~= Seq::<char>::empty());
        assert(out@ + Seq::<char>::empty() =~= out@);
    }
    out
}

} // verus!
