//! The argument-string layer: flags, options and the destination
//! texts, parsed from a plain list of argument words.
//!
//! Reading the process arguments happens outside the library; the
//! words arrive here as values. Unrecognised words are destination
//! texts; an option that expects a value consumes the following word.

use vstd::prelude::*;
use crate::addr::Family;

verus! {

pub const USAGE: &'static str = "usage: toa-ping [flags] [options] <destination>\n\nPerforms ping toward destination.\n\nDestination format: <host>[:<port>]\n\nFlags:\n  -h, --help    - Prints this message.\n  -f, --forever - Keep going forever.\n\nOptions:\n  -p <protocol> - Specifies protocol to use. Default is tcp.\n  -n <number>   - Number of pings to send. Default is 4.\n  -i <interval> - Time interval between pings in milliseconds. Default is 500.\n  -w <timeout>  - Time to wait for each response in milliseconds. Default is 1000.\n  -4            - Enforce IPv4 version. Default is first resolved address.\n  -6            - Enforce IPv6 version. Default is first resolved address.\n\nSupported protocols:\n  tcp - Measures RTT of connection establishment.\n";

/// An argument error, carrying its message; an empty message stands
/// for a bare request to show the usage text.
#[derive(Debug)]
pub struct ParseError(pub String);

/// The text a reported `ParseError` renders to.
pub open spec fn spec_parse_error_text(msg: Seq<char>) -> Seq<char> {
    if msg.len() == 0 {
        USAGE@
    } else {
        "ERROR:"@ + msg + "\n\n"@ + USAGE@
    }
}

impl ParseError {
    /// Render the error as the tool reports it: the message above the
    /// usage text, or the usage text alone for an empty message.
    pub fn message(&self) -> (r: String)
        ensures
            r@ == spec_parse_error_text(self.0@),
    {
        if self.0.as_str().is_empty() {
            proof {
                assert(self.0@ =~= Seq::<char>::empty());
            }
            USAGE.to_owned()
        } else {
            let mut s = String::new();
            s.append("ERROR:");
            s.append(self.0.as_str());
            s.append("\n\n");
            s.append(USAGE);
            proof {
                assert(s@ =~= spec_parse_error_text(self.0@));
            }
            s
        }
    }
}

/// Whether `c` is a decimal digit.
pub open spec fn is_dec_digit(c: char) -> bool {
    48 <= c as int <= 57
}

/// Whether every character of `s` is a decimal digit.
pub open spec fn all_dec_digits(s: Seq<char>) -> bool {
    forall|i: int| 0 <= i < s.len() ==> is_dec_digit(s[i])
}

/// The value of a string of decimal digits, most significant first.
pub open spec fn spec_digits_val(s: Seq<char>) -> int
    decreases s.len(),
{
    if s.len() == 0 {
        0
    } else {
        spec_digits_val(s.drop_last()) * 10 + (s.last() as int - 48)
    }
}

/// What parsing an unsigned decimal number accepts: an optional
/// leading plus sign, then at least one digit, with a value that fits
/// in 64 bits.
pub open spec fn spec_parse_u64(s: Seq<char>) -> Option<u64> {
    let body = if s.len() > 0 && s[0] == '+' {
        s.drop_first()
    } else {
        s
    };
    if body.len() == 0 || !all_dec_digits(body) || spec_digits_val(body) > u64::MAX {
        Option::None
    } else {
        Option::Some(spec_digits_val(body) as u64)
    }
}

/// The value of a digit string is never negative.
proof fn lemma_digits_val_nonneg(s: Seq<char>)
    requires
        all_dec_digits(s),
    ensures
        spec_digits_val(s) >= 0,
    decreases s.len(),
{
    if s.len() > 0 {
        assert(all_dec_digits(s.drop_last())) by {
            assert(forall|i: int| 0 <= i < s.len() - 1 ==> s.drop_last()[i] == s[i]);
        }
        lemma_digits_val_nonneg(s.drop_last());
    }
}

/// Extending a digit string never lowers its value.
proof fn lemma_digits_val_extend_ge(s: Seq<char>, k: int)
    requires
        all_dec_digits(s),
        0 <= k <= s.len(),
    ensures
        spec_digits_val(s) >= spec_digits_val(s.take(k)),
    decreases s.len() - k,
{
    if k == s.len() {
        assert(s.take(k) =~= s);
    } else {
        let t = s.take(k + 1);
        assert(t.drop_last() =~= s.take(k));
        assert(all_dec_digits(s.take(k))) by {
            assert(forall|i: int| 0 <= i < k ==> s.take(k)[i] == s[i]);
        }
        lemma_digits_val_nonneg(s.take(k));
        assert(spec_digits_val(t) == spec_digits_val(s.take(k)) * 10 + (s[k] as int - 48));
        lemma_digits_val_extend_ge(s, k + 1);
    }
}

/// Parse an unsigned decimal number, exactly as `spec_parse_u64`
/// accepts it.
pub fn parse_u64(s: &str) -> (r: Option<u64>)
    ensures
        r == spec_parse_u64(s@),
{
    let n = s.unicode_len();
    let mut start: usize = 0;
    if n > 0 && s.get_char(0) == '+' {
        start = 1;
    }
    let ghost body = if s@.len() > 0 && s@[0] == '+' {
        s@.drop_first()
    } else {
        s@
    };
    proof {
        assert(body =~= s@.skip(start as int));
    }
    if start == n {
        return None;
    }
    let mut val: u64 = 0;
    let mut j: usize = start;
    proof {
        assert(body.take(0) =~= Seq::<char>::empty());
    }
    while j < n
        invariant
            start <= j <= n,
            n == s@.len(),
            body == (if s@.len() > 0 && s@[0] == '+' {
                s@.drop_first()
            } else {
                s@
            }),
            body == s@.skip(start as int),
            n - start == body.len(),
            all_dec_digits(body.take(j - start)),
            val as int == spec_digits_val(body.take(j - start)),
        decreases n - j,
    {
        let c = s.get_char(j);
        let cu = c as u32;
        proof {
            assert(body[j - start] == s@[j as int]);
        }
        if cu < 48 || cu > 57 {
            proof {
                assert(!is_dec_digit(body[j - start]));
                assert(!all_dec_digits(body));
            }
            return None;
        }
        let d = (cu - 48) as u64;
        proof {
            assert(body.take(j - start + 1).drop_last() =~= body.take(j - start));
            assert(body.take(j - start + 1).last() == body[j - start]);
            let m = u64::MAX as int;
            let q = (m - d) / 10;
            assert(q * 10 + (m - d) % 10 == m - d) by {
                vstd::arithmetic::div_mod::lemma_fundamental_div_mod(m - d, 10);
            }
        }
        if val > (u64::MAX - d) / 10 {
            proof {
                assert(spec_digits_val(body.take(j - start + 1)) > u64::MAX);
                if all_dec_digits(body) {
                    lemma_digits_val_extend_ge(body, j - start + 1);
                    assert(spec_digits_val(body) > u64::MAX);
                }
            }
            return None;
        }
        val = val * 10 + d;
        j = j + 1;
    }
    proof {
        assert(body.take(j - start) =~= body);
    }
    Some(val)
}

/// The probe capability selected on the command line; the TCP connect
/// probe is the one variant today.
#[derive(Clone, Copy, Debug, PartialEq, Eq, Structural)]
pub enum Protocol {
    Tcp,
}

/// The boolean switches.
#[derive(Default, Clone, Copy, Debug, PartialEq, Eq, Structural)]
pub struct Flags {
    pub forever: bool,
    pub help: bool,
}

/// The valued options, with their defaults.
#[derive(Clone, Copy, Debug, PartialEq, Eq, Structural)]
pub struct Options {
    /// Number of pings to send.
    pub number: u64,
    /// Time between pings in milliseconds.
    pub interval: u64,
    /// Time to wait for each response in milliseconds.
    pub timeout: u64,
    /// Enforced address family, or `Unspecified`.
    pub ip_family: Family,
    pub protocol: Protocol,
}

/// The parsed command line: switches, options, and the destination
/// words in order of appearance.
#[derive(Debug)]
pub struct Parser {
    pub flags: Flags,
    pub options: Options,
    pub destinations: Vec<String>,
}

/// The parser's running state, mathematically.
pub struct ParseState {
    pub flags: Flags,
    pub options: Options,
    pub dests: Seq<Seq<char>>,
}

/// The state parsing starts from: the documented defaults, no
/// switches, no destinations.
pub open spec fn init_parse_state() -> ParseState {
    ParseState {
        flags: Flags { forever: false, help: false },
        options: Options {
            number: 4,
            interval: 500,
            timeout: 1000,
            ip_family: Family::Unspecified,
            protocol: Protocol::Tcp,
        },
        dests: Seq::empty(),
    }
}

/// What the value word of a numeric option yields: the option's word
/// is at the front of `args`, its value word — if any — right behind.
pub open spec fn spec_opt_value(args: Seq<Seq<char>>, opt: Seq<char>) -> Result<u64, Seq<char>> {
    if args.len() < 2 {
        Result::Err("Missing value for option "@ + opt)
    } else {
        match spec_parse_u64(args[1]) {
            Option::Some(v) => Result::Ok(v),
            Option::None => Result::Err(
                "Invalid number "@ + args[1] + " is supplied for option "@ + opt,
            ),
        }
    }
}

/// One pass over the argument words, front to back: switches and
/// options update the state, anything unrecognised is a destination
/// word, and a bad option value stops everything with its message.
pub open spec fn spec_parse(args: Seq<Seq<char>>, st: ParseState) -> Result<
    ParseState,
    Seq<char>,
>
    decreases args.len(),
{
    if args.len() == 0 {
        Result::Ok(st)
    } else {
        let a = args[0];
        if a == "-h"@ || a == "--help"@ {
            spec_parse(
                args.skip(1),
                ParseState { flags: Flags { help: true, ..st.flags }, ..st },
            )
        } else if a == "-f"@ || a == "--forever"@ {
            spec_parse(
                args.skip(1),
                ParseState { flags: Flags { forever: true, ..st.flags }, ..st },
            )
        } else if a == "-4"@ {
            spec_parse(
                args.skip(1),
                ParseState { options: Options { ip_family: Family::IPv4, ..st.options }, ..st },
            )
        } else if a == "-6"@ {
            spec_parse(
                args.skip(1),
                ParseState { options: Options { ip_family: Family::IPv6, ..st.options }, ..st },
            )
        } else if a == "-p"@ {
            if args.len() < 2 {
                Result::Err("Protocol hasn't been supplied"@)
            } else if args[1] == "tcp"@ {
                spec_parse(
                    args.skip(2),
                    ParseState { options: Options { protocol: Protocol::Tcp, ..st.options }, ..st },
                )
            } else {
                Result::Err("Invalid protocol "@ + args[1])
            }
        } else if a == "-n"@ {
            match spec_opt_value(args, "-n"@) {
                Result::Ok(v) => spec_parse(
                    args.skip(2),
                    ParseState { options: Options { number: v, ..st.options }, ..st },
                ),
                Result::Err(m) => Result::Err(m),
            }
        } else if a == "-i"@ {
            match spec_opt_value(args, "-i"@) {
                Result::Ok(v) => spec_parse(
                    args.skip(2),
                    ParseState { options: Options { interval: v, ..st.options }, ..st },
                ),
                Result::Err(m) => Result::Err(m),
            }
        } else if a == "-w"@ {
            match spec_opt_value(args, "-w"@) {
                Result::Ok(v) => spec_parse(
                    args.skip(2),
                    ParseState { options: Options { timeout: v, ..st.options }, ..st },
                ),
                Result::Err(m) => Result::Err(m),
            }
        } else {
            spec_parse(args.skip(1), ParseState { dests: st.dests.push(a), ..st })
        }
    }
}

/// What parsing a whole command line yields: the pass above, and then
/// the demand that a destination was supplied — unless help was asked
/// for, which makes a destination unnecessary.
pub open spec fn spec_parse_args(args: Seq<Seq<char>>) -> Result<ParseState, Seq<char>> {
    match spec_parse(args, init_parse_state()) {
        Result::Ok(st) => if st.dests.len() == 0 && !st.flags.help {
            Result::Err("Destination is not supplied"@)
        } else {
            Result::Ok(st)
        },
        Result::Err(m) => Result::Err(m),
    }
}

/// Whether an argument word equals a known option word.
fn arg_is(a: &String, lit: &str) -> (r: bool)
    ensures
        r == (a@ == lit@),
{
    let b = lit.to_owned();
    a.eq(&b)
}

impl Parser {
    /// Parse the argument words, in order. On success the switches,
    /// the options with their defaults filled in, and the destination
    /// words are returned; the first bad word stops everything with
    /// its message.
    pub fn new(args: Vec<String>) -> (r: Result<Parser, ParseError>)
        ensures
            match spec_parse_args(args.deep_view()) {
                Result::Ok(st) => r matches Ok(p) && p.flags == st.flags && p.options == st.options
                    && p.destinations.deep_view() == st.dests,
                Result::Err(m) => r matches Err(e) && e.0@ == m,
            },
    {
        let ghost all = args.deep_view();
        let mut flags = Flags { forever: false, help: false };
        let mut options = Options {
            number: 4,
            interval: 500,
            timeout: 1000,
            ip_family: Family::Unspecified,
            protocol: Protocol::Tcp,
        };
        let mut dests: Vec<String> = Vec::new();
        let mut i: usize = 0;
        proof {
            assert(all.skip(0) =~= all);
            assert(dests.deep_view() =~= Seq::<Seq<char>>::empty());
        }
        while i < args.len()
            invariant
                0 <= i <= args.len(),
                all == args.deep_view(),
                all.len() == args.len(),
                spec_parse(all, init_parse_state()) == spec_parse(
                    all.skip(i as int),
                    ParseState { flags, options, dests: dests.deep_view() },
                ),
            decreases args.len() - i,
        {
            let ghost i0 = i as int;
            let ghost st0 = ParseState { flags, options, dests: dests.deep_view() };
            let ghost rest = all.skip(i0);
            proof {
                assert(rest[0] == all[i0]);
                assert(all[i0] == args[i0]@);
                assert(rest.skip(1) =~= all.skip(i0 + 1));
                if i0 + 1 < all.len() {
                    assert(rest[1] == all[i0 + 1]);
                    assert(all[i0 + 1] == args[i0 + 1]@);
                    assert(rest.skip(2) =~= all.skip(i0 + 2));
                }
            }
            let a = &args[i];
            if arg_is(a, "-h") || arg_is(a, "--help") {
                flags.help = true;
                i = i + 1;
            } else if arg_is(a, "-f") || arg_is(a, "--forever") {
                flags.forever = true;
                i = i + 1;
            } else if arg_is(a, "-4") {
                options.ip_family = Family::IPv4;
                i = i + 1;
            } else if arg_is(a, "-6") {
                options.ip_family = Family::IPv6;
                i = i + 1;
            } else if arg_is(a, "-p") {
                if i + 1 >= args.len() {
                    return Err(ParseError("Protocol hasn't been supplied".to_owned()));
                }
                let v = &args[i + 1];
                if arg_is(v, "tcp") {
                    options.protocol = Protocol::Tcp;
                    i = i + 2;
                } else {
                    let mut m = String::new();
                    m.append("Invalid protocol ");
                    m.append(v.as_str());
                    proof {
                        assert(m@ =~= "Invalid protocol "@ + rest[1]);
                    }
                    return Err(ParseError(m));
                }
            } else if arg_is(a, "-n") {
                let v: Option<String> = if i + 1 < args.len() {
                    Some(args[i + 1].clone())
                } else {
                    None
                };
                match parse_next_int(v, "-n") {
                    Ok(num) => {
                        options.number = num;
                        i = i + 2;
                    },
                    Err(e) => {
                        return Err(e);
                    },
                }
            } else if arg_is(a, "-i") {
                let v: Option<String> = if i + 1 < args.len() {
                    Some(args[i + 1].clone())
                } else {
                    None
                };
                match parse_next_int(v, "-i") {
                    Ok(num) => {
                        options.interval = num;
                        i = i + 2;
                    },
                    Err(e) => {
                        return Err(e);
                    },
                }
            } else if arg_is(a, "-w") {
                let v: Option<String> = if i + 1 < args.len() {
                    Some(args[i + 1].clone())
                } else {
                    None
                };
                match parse_next_int(v, "-w") {
                    Ok(num) => {
                        options.timeout = num;
                        i = i + 2;
                    },
                    Err(e) => {
                        return Err(e);
                    },
                }
            } else {
                let ghost dests0 = dests.deep_view();
                dests.push(a.clone());
                i = i + 1;
                proof {
                    assert(dests.deep_view() =~= dests0.push(rest[0]));
                }
            }
            proof {
                assert(spec_parse(all, init_parse_state()) == spec_parse(
                    all.skip(i as int),
                    ParseState { flags, options, dests: dests.deep_view() },
                ));
            }
        }
        proof {
            assert(all.skip(args.len() as int) =~= Seq::<Seq<char>>::empty());
        }
        if dests.len() == 0 && !flags.help {
            return Err(ParseError("Destination is not supplied".to_owned()));
        }
        Ok(Parser { flags, options, destinations: dests })
    }

    /// The usage text.
    pub fn usage(&self) -> (r: &'static str)
        ensures
            r@ == USAGE@,
    {
        USAGE
    }
}

/// Parse the value word of a numeric option: the option's name is only
/// used in the error texts. A missing word and an unparsable word each
/// yield their own message.
pub fn parse_next_int(arg: Option<String>, opt_name: &str) -> (r: Result<u64, ParseError>)
    ensures
        arg is None ==> (r matches Err(e) && e.0@ == "Missing value for option "@ + opt_name@),
        arg matches Some(s) ==> match spec_parse_u64(s@) {
            Option::Some(v) => r matches Ok(rv) && rv == v,
            Option::None => r matches Err(e) && e.0@ == "Invalid number "@ + s@
                + " is supplied for option "@ + opt_name@,
        },
{
    match arg {
        Some(num) => {
            match parse_u64(num.as_str()) {
                Some(v) => Ok(v),
                None => {
                    let mut m = String::new();
                    m.append("Invalid number ");
                    m.append(num.as_str());
                    m.append(" is supplied for option ");
                    m.append(opt_name);
                    Err(ParseError(m))
                },
            }
        },
        None => {
            let mut m = String::new();
            m.append("Missing value for option ");
            m.append(opt_name);
            Err(ParseError(m))
        },
    }
}

} // verus!
