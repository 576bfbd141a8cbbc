//! Command-line parsing for the privileged gamma helpers.
//!
//! Usage:
//!   helper --temp <kelvin> [--brightness <0.0-1.0>] [--session-vt <n>]
//!   helper --off          (reset to a neutral ramp)
//!
//! `--session-vt` is accepted only by the night-light helper. The brightness
//! is a floating-point number, which this library does not hold: the caller
//! reads every argument as a float beforehand and hands in, per argument,
//! what that reading gave ([`BrightnessValue`]). The parser then refers to
//! the brightness by the index of the argument that gave it.

use vstd::prelude::*;

use crate::helper_command::texts;
use crate::kelvin::NEUTRAL_KELVIN;
use crate::parse::{parse_i32, parse_u32, parsed_i32, parsed_u32};
use crate::text::str_eq;

verus! {

/// What an argument gives when read as a brightness.
pub enum BrightnessValue {
    /// Not a floating-point number.
    NotANumber,
    /// A number within `0.0..=1.0`.
    InRange,
    /// A number outside `0.0..=1.0` (or NaN), with its rendering for the
    /// error message.
    OutOfRange(String),
}

/// [`BrightnessValue`] with its rendering as a character sequence.
pub enum BrightnessView {
    NotANumber,
    InRange,
    OutOfRange(Seq<char>),
}

impl View for BrightnessValue {
    type V = BrightnessView;

    open spec fn view(&self) -> BrightnessView {
        match self {
            BrightnessValue::NotANumber => BrightnessView::NotANumber,
            BrightnessValue::InRange => BrightnessView::InRange,
            BrightnessValue::OutOfRange(text) => BrightnessView::OutOfRange(text@),
        }
    }
}

/// The views of a list of brightness readings.
pub open spec fn readings(list: Seq<BrightnessValue>) -> Seq<BrightnessView> {
    list.map_values(|b: BrightnessValue| b@)
}

/// The parsed command line.
#[derive(Clone, Copy, Debug, PartialEq, Eq, Structural)]
pub struct HelperArgs {
    /// The temperature to apply.
    pub kelvin: u32,
    /// The argument that gave the brightness; `None` means full brightness.
    pub brightness_arg: Option<usize>,
    /// The graphical session's VT, when given.
    pub session_vt: Option<i32>,
}

/// What the parser has gathered so far.
pub struct Scan {
    pub kelvin: Option<u32>,
    pub brightness_arg: Option<usize>,
    pub session_vt: Option<i32>,
    pub off: bool,
}

/// The gathered state at the start.
pub open spec fn scan_start() -> Scan {
    Scan { kelvin: None, brightness_arg: None, session_vt: None, off: false }
}

/// Reads the arguments from index `i` on, given what was gathered before.
pub open spec fn scan_from(
    args: Seq<Seq<char>>,
    values: Seq<BrightnessView>,
    session_vt_flag: bool,
    i: nat,
    st: Scan,
) -> Result<Scan, Seq<char>>
    decreases args.len() - i,
{
    if i >= args.len() {
        Ok(st)
    } else {
        let arg = args[i as int];
        if arg == "--off"@ {
            scan_from(args, values, session_vt_flag, i + 1, Scan { off: true, ..st })
        } else if arg == "--temp"@ || arg == "-t"@ {
            if i + 1 >= args.len() {
                Err("--temp requires a value"@)
            } else {
                let v = args[(i + 1) as int];
                match parsed_u32(v) {
                    Some(k) => scan_from(
                        args,
                        values,
                        session_vt_flag,
                        i + 2,
                        Scan { kelvin: Some(k), ..st },
                    ),
                    None => Err("invalid temperature: "@ + v),
                }
            }
        } else if arg == "--brightness"@ || arg == "-b"@ {
            if i + 1 >= args.len() {
                Err("--brightness requires a value"@)
            } else {
                match values[(i + 1) as int] {
                    BrightnessView::NotANumber => Err("invalid brightness: "@ + args[(i + 1) as int]),
                    _ => scan_from(
                        args,
                        values,
                        session_vt_flag,
                        i + 2,
                        Scan { brightness_arg: Some((i + 1) as usize), ..st },
                    ),
                }
            }
        } else if session_vt_flag && arg == "--session-vt"@ {
            if i + 1 >= args.len() {
                Err("--session-vt requires a value"@)
            } else {
                let v = args[(i + 1) as int];
                match parsed_i32(v) {
                    Some(n) => scan_from(
                        args,
                        values,
                        session_vt_flag,
                        i + 2,
                        Scan { session_vt: Some(n), ..st },
                    ),
                    None => Err("invalid session VT: "@ + v),
                }
            }
        } else if arg == "--help"@ || arg == "-h"@ {
            Err("help"@)
        } else {
            Err("unknown argument: "@ + arg)
        }
    }
}

/// The parse of a whole command line: the scan, then the checks that a
/// temperature was given (or `--off`) and that the brightness is in range.
/// The error `"help"` asks for the usage text alone.
pub open spec fn parse_result(
    args: Seq<Seq<char>>,
    values: Seq<BrightnessView>,
    session_vt_flag: bool,
) -> Result<HelperArgs, Seq<char>> {
    match scan_from(args, values, session_vt_flag, 0, scan_start()) {
        Err(e) => Err(e),
        Ok(st) => {
            if !st.off && st.kelvin is None {
                Err("missing required --temp <kelvin> (or use --off)"@)
            } else {
                let kelvin = if st.off {
                    NEUTRAL_KELVIN
                } else {
                    st.kelvin->0
                };
                match st.brightness_arg {
                    Some(j) if values[j as int] is OutOfRange => Err(
                        "brightness must be between 0.0 and 1.0 (got "@
                            + values[j as int]->OutOfRange_0 + ")"@,
                    ),
                    _ => Ok(
                        HelperArgs {
                            kelvin,
                            brightness_arg: st.brightness_arg,
                            session_vt: st.session_vt,
                        },
                    ),
                }
            }
        },
    }
}

/// Parses the helper's arguments (without the program name). `values[i]` is
/// what `args[i]` gives when read as a brightness; `session_vt_flag` says
/// whether `--session-vt` is accepted.
pub fn parse_args(args: &Vec<String>, values: &Vec<BrightnessValue>, session_vt_flag: bool) -> (res:
    Result<HelperArgs, String>)
    requires
        values.len() == args.len(),
    ensures
        match (res, parse_result(texts(args@), readings(values@), session_vt_flag)) {
            (Ok(a), Ok(b)) => a == b,
            (Err(e), Err(f)) => e@ == f,
            _ => false,
        },
{
    let ghost targs = texts(args@);
    let ghost tvals = readings(values@);
    let len = args.len();
    let mut kelvin: Option<u32> = None;
    let mut brightness_arg: Option<usize> = None;
    let mut session_vt: Option<i32> = None;
    let mut off = false;
    let mut i: usize = 0;
    while i < len
        invariant
            len == args.len(),
            values.len() == args.len(),
            targs == texts(args@),
            tvals == readings(values@),
            i <= len,
            scan_from(targs, tvals, session_vt_flag, 0, scan_start()) == scan_from(
                targs,
                tvals,
                session_vt_flag,
                i as nat,
                Scan { kelvin, brightness_arg, session_vt, off },
            ),
            brightness_arg matches Some(j) ==> j < len && !(tvals[j as int] is NotANumber),
        decreases len - i,
    {
        let ghost st = Scan { kelvin, brightness_arg, session_vt, off };
        let arg = args[i].as_str();
        assert(arg@ == targs[i as int]);
        if str_eq(arg, "--off") {
            off = true;
            i = i + 1;
        } else if str_eq(arg, "--temp") || str_eq(arg, "-t") {
            if i + 1 >= len {
                return Err(String::from_str("--temp requires a value"));
            }
            let v = args[i + 1].as_str();
            assert(v@ == targs[i + 1]);
            match parse_u32(v) {
                Some(k) => {
                    kelvin = Some(k);
                },
                None => {
                    return Err(String::from_str("invalid temperature: ").concat(v));
                },
            }
            i = i + 2;
        } else if str_eq(arg, "--brightness") || str_eq(arg, "-b") {
            if i + 1 >= len {
                return Err(String::from_str("--brightness requires a value"));
            }
            assert(tvals[i + 1] == values@[i + 1]@);
            match &values[i + 1] {
                BrightnessValue::NotANumber => {
                    let v = args[i + 1].as_str();
                    assert(v@ == targs[i + 1]);
                    return Err(String::from_str("invalid brightness: ").concat(v));
                },
                _ => {
                    brightness_arg = Some(i + 1);
                },
            }
            i = i + 2;
        } else if session_vt_flag && str_eq(arg, "--session-vt") {
            if i + 1 >= len {
                return Err(String::from_str("--session-vt requires a value"));
            }
            let v = args[i + 1].as_str();
            assert(v@ == targs[i + 1]);
            match parse_i32(v) {
                Some(n) => {
                    session_vt = Some(n);
                },
                None => {
                    return Err(String::from_str("invalid session VT: ").concat(v));
                },
            }
            i = i + 2;
        } else if str_eq(arg, "--help") || str_eq(arg, "-h") {
            return Err(String::from_str("help"));
        } else {
            return Err(String::from_str("unknown argument: ").concat(arg));
        }
    }
    if !off && kelvin.is_none() {
        return Err(String::from_str("missing required --temp <kelvin> (or use --off)"));
    }
    let kelvin_value: u32 = if off {
        NEUTRAL_KELVIN
    } else {
        match kelvin {
            Some(k) => k,
            None => NEUTRAL_KELVIN,
        }
    };
    match brightness_arg {
        Some(j) => {
            assert(tvals[j as int] == values@[j as int]@);
            match &values[j] {
                BrightnessValue::OutOfRange(shown) => {
                    return Err(
                        String::from_str("brightness must be between 0.0 and 1.0 (got ").concat(
                            shown.as_str(),
                        ).concat(")"),
                    );
                },
                _ => {},
            }
        },
        None => {},
    }
    Ok(HelperArgs { kelvin: kelvin_value, brightness_arg, session_vt })
}

/// Reading the arguments from `i` on only looks at the arguments themselves:
/// when the list parses, extending it reads the same way up to its end and
/// then goes on with the extension.
proof fn lemma_scan_extends(
    args: Seq<Seq<char>>,
    values: Seq<BrightnessView>,
    ext: Seq<Seq<char>>,
    ext_values: Seq<BrightnessView>,
    session_vt_flag: bool,
    i: nat,
    st: Scan,
)
    requires
        i <= args.len(),
        values.len() == args.len(),
        ext_values.len() == ext.len(),
        scan_from(args, values, session_vt_flag, i, st) is Ok,
    ensures
        scan_from(args + ext, values + ext_values, session_vt_flag, i, st) == scan_from(
            args + ext,
            values + ext_values,
            session_vt_flag,
            args.len(),
            scan_from(args, values, session_vt_flag, i, st)->Ok_0,
        ),
    decreases args.len() - i,
{
    let all = args + ext;
    let all_values = values + ext_values;
    if i < args.len() {
        assert(all[i as int] == args[i as int]);
        if i + 1 < args.len() {
            assert(all[(i + 1) as int] == args[(i + 1) as int]);
            assert(all_values[(i + 1) as int] == values[(i + 1) as int]);
        }
        let arg = args[i as int];
        if arg == "--off"@ {
            lemma_scan_extends(args, values, ext, ext_values, session_vt_flag, i + 1, Scan { off: true, ..st });
        } else if arg == "--temp"@ || arg == "-t"@ {
            let k = parsed_u32(args[(i + 1) as int])->Some_0;
            lemma_scan_extends(args, values, ext, ext_values, session_vt_flag, i + 2, Scan { kelvin: Some(k), ..st });
        } else if arg == "--brightness"@ || arg == "-b"@ {
            lemma_scan_extends(
                args,
                values,
                ext,
                ext_values,
                session_vt_flag,
                i + 2,
                Scan { brightness_arg: Some((i + 1) as usize), ..st },
            );
        } else if session_vt_flag && arg == "--session-vt"@ {
            let n = parsed_i32(args[(i + 1) as int])->Some_0;
            lemma_scan_extends(args, values, ext, ext_values, session_vt_flag, i + 2, Scan { session_vt: Some(n), ..st });
        }
    }
}

/// Every argument is read, whatever comes before it: appending
/// `--session-vt <n>` (with `n` a valid `i32`) to a command line that parses
/// gives the same result with the session VT set to `n`. This is how the
/// night-light backend calls the helper, after `--temp` and `--brightness`.
pub proof fn appending_session_vt_sets_it(
    args: Seq<Seq<char>>,
    values: Seq<BrightnessView>,
    tail_values: Seq<BrightnessView>,
    n: Seq<char>,
)
    requires
        values.len() == args.len(),
        tail_values.len() == 2,
        parse_result(args, values, true) is Ok,
        parsed_i32(n) is Some,
    ensures
        parse_result(args + seq!["--session-vt"@, n], values + tail_values, true) == Ok::<
            HelperArgs,
            Seq<char>,
        >(
            HelperArgs {
                session_vt: parsed_i32(n),
                ..parse_result(args, values, true)->Ok_0
            },
        ),
{
    let ext = seq!["--session-vt"@, n];
    let all = args + ext;
    let all_values = values + tail_values;
    let st = scan_from(args, values, true, 0, scan_start())->Ok_0;
    lemma_scan_extends(args, values, ext, tail_values, true, 0, scan_start());
    reveal_strlit("--session-vt");
    reveal_strlit("--off");
    reveal_strlit("--temp");
    reveal_strlit("-t");
    reveal_strlit("--brightness");
    reveal_strlit("-b");
    let flag = "--session-vt"@;
    assert(all[args.len() as int] == flag);
    assert(all[args.len() + 1int] == n);
    assert(flag != "--off"@) by {
        assert(flag.len() != "--off"@.len());
    }
    assert(flag != "--temp"@) by {
        assert(flag.len() != "--temp"@.len());
    }
    assert(flag != "-t"@) by {
        assert(flag.len() != "-t"@.len());
    }
    assert(flag != "--brightness"@) by {
        assert(flag[2] != "--brightness"@[2]);
    }
    assert(flag != "-b"@) by {
        assert(flag.len() != "-b"@.len());
    }
    let st2 = Scan { session_vt: parsed_i32(n), ..st };
    assert(scan_from(all, all_values, true, args.len() + 2, st2) == Ok::<Scan, Seq<char>>(st2));
    assert(scan_from(all, all_values, true, args.len(), st) == Ok::<Scan, Seq<char>>(st2));
    if let Some(j) = st.brightness_arg {
        assert(j < args.len()) by {
            lemma_brightness_arg_in_range(args, values, true, 0, scan_start());
        }
        assert(all_values[j as int] == values[j as int]);
    }
}

/// The brightness index a successful scan records points into the list.
proof fn lemma_brightness_arg_in_range(
    args: Seq<Seq<char>>,
    values: Seq<BrightnessView>,
    session_vt_flag: bool,
    i: nat,
    st: Scan,
)
    requires
        scan_from(args, values, session_vt_flag, i, st) is Ok,
        st.brightness_arg matches Some(j) ==> j < args.len(),
    ensures
        scan_from(args, values, session_vt_flag, i, st)->Ok_0.brightness_arg matches Some(j) ==> j
            < args.len(),
    decreases args.len() - i,
{
    if i < args.len() {
        let arg = args[i as int];
        if arg == "--off"@ {
            lemma_brightness_arg_in_range(args, values, session_vt_flag, i + 1, Scan { off: true, ..st });
        } else if arg == "--temp"@ || arg == "-t"@ {
            let k = parsed_u32(args[(i + 1) as int])->Some_0;
            lemma_brightness_arg_in_range(args, values, session_vt_flag, i + 2, Scan { kelvin: Some(k), ..st });
        } else if arg == "--brightness"@ || arg == "-b"@ {
            lemma_brightness_arg_in_range(
                args,
                values,
                session_vt_flag,
                i + 2,
                Scan { brightness_arg: Some((i + 1) as usize), ..st },
            );
        } else if session_vt_flag && arg == "--session-vt"@ {
            let n = parsed_i32(args[(i + 1) as int])->Some_0;
            lemma_brightness_arg_in_range(args, values, session_vt_flag, i + 2, Scan { session_vt: Some(n), ..st });
        }
    }
}

} // verus!
