use vstd::prelude::*;

use crate::convert::Mode;
use crate::hex::HexCase;
use crate::text::{chars_of, push_char, str_eq};
use vstd::string::StringExecFns;

verus! {

/// What follows the last `/` of an invocation path; the whole string when it
/// holds none.
pub open spec fn basename_of(s: Seq<char>) -> Seq<char>
    decreases s.len(),
{
    if s.len() == 0 {
        s
    } else if s.last() == '/' {
        Seq::empty()
    } else {
        basename_of(s.drop_last()).push(s.last())
    }
}

/// The invocation name with any directory path stripped.
pub fn basename(s: &str) -> (r: String)
    ensures
        r@ == basename_of(s@),
{
    let v = chars_of(s);
    proof {
        assert(v@.take(v@.len() as int) =~= v@);
        assert(basename_of(v@) + v@.skip(v@.len() as int) =~= basename_of(v@));
    }
    let mut j: usize = v.len();
    while j > 0 && v[j - 1] != '/'
        invariant
            j <= v@.len(),
            basename_of(v@) == basename_of(v@.take(j as int)) + v@.skip(j as int),
        decreases j,
    {
        proof {
            let t = v@.take(j as int);
            assert(t.last() == v@[j as int - 1]);
            assert(t.drop_last() =~= v@.take(j as int - 1));
            assert(basename_of(v@.take(j as int - 1)) + v@.skip(j as int - 1) =~= (basename_of(
                v@.take(j as int - 1),
            ).push(v@[j as int - 1])) + v@.skip(j as int));
        }
        j = j - 1;
    }
    proof {
        if j == 0 {
            assert(basename_of(v@.take(0)) + v@.skip(0) =~= v@.skip(0));
        } else {
            assert(v@.take(j as int).last() == '/');
            assert(basename_of(v@.take(j as int)) + v@.skip(j as int) =~= v@.skip(j as int));
        }
        assert(basename_of(v@) == v@.skip(j as int));
    }
    let mut out = String::new();
    let mut i: usize = j;
    while i < v.len()
        invariant
            j <= i <= v@.len(),
            out@ == v@.subrange(j as int, i as int),
        decreases v@.len() - i,
    {
        push_char(&mut out, v[i]);
        proof {
            assert(v@.subrange(j as int, i as int).push(v@[i as int]) =~= v@.subrange(
                j as int,
                i as int + 1,
            ));
        }
        i = i + 1;
    }
    proof {
        assert(v@.subrange(j as int, v@.len() as int) =~= v@.skip(j as int));
    }
    out
}

/// The mode a program name selects: `b64hex` converts Base64 to hex,
/// `hexb64` converts hex to Base64, and any other name selects nothing.
pub fn mode_from_name(name: &str) -> (r: Option<Mode>)
    ensures
        (r == Some(Mode::B64ToHex)) <==> name@ == "b64hex"@,
        (r == Some(Mode::HexToB64)) <==> name@ == "hexb64"@,
        (r is None) <==> (name@ != "b64hex"@ && name@ != "hexb64"@),
{
    proof {
        reveal_strlit("b64hex");
        reveal_strlit("hexb64");
        assert(("b64hex"@)[0] == 'b');
        assert(("hexb64"@)[0] == 'h');
    }
    if str_eq(name, "b64hex") {
        Some(Mode::B64ToHex)
    } else if str_eq(name, "hexb64") {
        Some(Mode::HexToB64)
    } else {
        None
    }
}

/// The configuration one run works under: the hex output letter case, the
/// URL-safe Base64 flag, and the optional positional data argument.
#[derive(Debug)]
pub struct CliOptions {
    pub hex_case: HexCase,
    pub urlsafe: bool,
    pub data: Option<String>,
}

/// The option scan, token by token, left to right: `-low` and `-up` pick the
/// hex letter case, a later flag overriding an earlier one; `-url` asks for
/// URL-safe Base64 output; the first token that does not start with `-`
/// becomes the positional data argument; any other token — a second bare
/// token, or a `-` token that is no recognized flag — stops the scan as an
/// error carrying that token. Flags are matched as global literals, whatever
/// the active mode: a flag of the other mode's vocabulary is accepted and
/// inert.
pub open spec fn scan_args(
    args: Seq<Seq<char>>,
    upper: bool,
    urlsafe: bool,
    data: Option<Seq<char>>,
) -> Result<(bool, bool, Option<Seq<char>>), Seq<char>>
    decreases args.len(),
{
    if args.len() == 0 {
        Ok((upper, urlsafe, data))
    } else {
        let a = args[0];
        let rest = args.drop_first();
        if a == "-low"@ {
            scan_args(rest, false, urlsafe, data)
        } else if a == "-up"@ {
            scan_args(rest, true, urlsafe, data)
        } else if a == "-url"@ {
            scan_args(rest, upper, true, data)
        } else if (a.len() == 0 || a[0] != '-') && data is None {
            scan_args(rest, upper, urlsafe, Some(a))
        } else {
            Err(a)
        }
    }
}

/// Whether a token starts with `-`, marking it as a would-be flag.
fn starts_with_dash(s: &str) -> (r: bool)
    ensures
        r == (s@.len() > 0 && s@[0] == '-'),
{
    if s.unicode_len() == 0 {
        false
    } else {
        s.get_char(0) == '-'
    }
}

/// Consume the arguments after the program name, as `scan_args` describes
/// the scan; the error carries the first unknown or misplaced token.
pub fn parse_args(args: &Vec<String>) -> (r: Result<CliOptions, String>)
    ensures
        ({
            let m = scan_args(args.deep_view(), false, false, None);
            &&& (r is Ok <==> m is Ok)
            &&& (r is Ok ==> ((r->Ok_0.hex_case is Upper) == m->Ok_0.0 && r->Ok_0.urlsafe
                == m->Ok_0.1 && (match (r->Ok_0.data, m->Ok_0.2) {
                (Some(d), Some(t)) => d@ == t,
                (None, None) => true,
                _ => false,
            })))
            &&& (r is Err ==> (m is Err && r->Err_0@ == m->Err_0))
        }),
{
    let ghost all = args.deep_view();
    let mut upper = false;
    let mut urlsafe = false;
    let mut data: Option<String> = None;
    proof {
        assert(all.skip(0) =~= all);
    }
    let mut i: usize = 0;
    while i < args.len()
        invariant
            i <= args@.len(),
            all == args.deep_view(),
            scan_args(all, false, false, None) == scan_args(
                all.skip(i as int),
                upper,
                urlsafe,
                data.deep_view(),
            ),
        decreases args@.len() - i,
    {
        let a = &args[i];
        proof {
            assert(all[i as int] == args@[i as int]@);
            assert(all.skip(i as int)[0] == a@);
            assert(all.skip(i as int).drop_first() =~= all.skip(i as int + 1));
        }
        if str_eq(a.as_str(), "-low") {
            upper = false;
        } else if str_eq(a.as_str(), "-up") {
            upper = true;
        } else if str_eq(a.as_str(), "-url") {
            urlsafe = true;
        } else {
            let dash = starts_with_dash(a.as_str());
            if !dash && data.is_none() {
                data = Some(a.clone());
            } else {
                return Err(a.clone());
            }
        }
        i = i + 1;
    }
    proof {
        assert(all.skip(args@.len() as int) =~= Seq::<Seq<char>>::empty());
    }
    Ok(
        CliOptions {
            hex_case: if upper {
                HexCase::Upper
            } else {
                HexCase::Lower
            },
            urlsafe,
            data,
        },
    )
}

/// The usage text printed beside a usage error, for the active mode.
pub fn usage_text(mode: Mode) -> (r: String)
    ensures
        mode is B64ToHex ==> r@
            == "Usage: b64hex [-low|-up] [data]\n-low   Hex output lowercase (default)\n-up    Hex output uppercase\ndata   Base64 input (classic or URL-safe). If omitted, read from stdin."@,
        mode is HexToB64 ==> r@
            == "Usage: hexb64 [-url] [data]\n-url   Use URL-safe base64 output\ndata   Hex input (0x prefix allowed, any case). If omitted, read from stdin."@,
{
    match mode {
        Mode::B64ToHex => String::from_str(
            "Usage: b64hex [-low|-up] [data]\n-low   Hex output lowercase (default)\n-up    Hex output uppercase\ndata   Base64 input (classic or URL-safe). If omitted, read from stdin.",
        ),
        Mode::HexToB64 => String::from_str(
            "Usage: hexb64 [-url] [data]\n-url   Use URL-safe base64 output\ndata   Hex input (0x prefix allowed, any case). If omitted, read from stdin.",
        ),
    }
}

/// The diagnostic for an invocation name that selects no mode: it names the
/// offending name and the two recognized ones.
pub fn unknown_mode_message(name: &str) -> (r: String)
    ensures
        r@ == "Unknown mode for executable name: "@ + name@
            + "\nUse hardlinks named 'b64hex' or 'hexb64'."@,
{
    let mut m = String::from_str("Unknown mode for executable name: ");
    m.append(name);
    m.append("\nUse hardlinks named 'b64hex' or 'hexb64'.");
    m
}

/// The diagnostic for the token on which the option scan stopped.
pub fn unknown_arg_message(arg: &str) -> (r: String)
    ensures
        r@ == "Unknown or misplaced argument: "@ + arg@,
{
    let mut m = String::from_str("Unknown or misplaced argument: ");
    m.append(arg);
    m
}

/// The diagnostic for input that is empty once normalized.
pub fn no_input_message() -> (r: String)
    ensures
        r@ == "No input data provided."@,
{
    String::from_str("No input data provided.")
}

} // verus!
