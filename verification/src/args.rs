//! The command-line surface: the output directory and the discovery time
//! budget, with their defaults. The caller collects the raw argument
//! strings; the parse itself is decided here.

use vstd::prelude::*;
use crate::text::{all_digits, dec_val, str_eq, parse_u64};

verus! {

/// The parsed command line.
#[derive(Debug)]
pub struct Args {
    /// Directory to save backups in.
    pub out_dir: String,
    /// Search duration in seconds.
    pub search_secs: u64,
}

/// Why the command line was rejected.
#[derive(PartialEq, Eq, Structural, Clone, Copy, Debug)]
pub enum ArgsError {
    /// A flag that takes a value stood last, with no value after it.
    MissingValue,
    /// The search duration was not an unsigned decimal number in range.
    BadNumber,
    /// An argument that is none of the known flags.
    UnknownFlag,
}

impl ArgsError {
    /// The user-visible diagnostic for this error.
    pub open spec fn message_spec(&self) -> Seq<char> {
        match self {
            ArgsError::MissingValue => "a flag is missing its value"@,
            ArgsError::BadNumber => "the search duration must be a number of seconds"@,
            ArgsError::UnknownFlag => "unknown argument"@,
        }
    }

    /// Renders the diagnostic.
    pub fn message(&self) -> (r: String)
        ensures
            r@ == self.message_spec(),
    {
        match self {
            ArgsError::MissingValue => String::from_str("a flag is missing its value"),
            ArgsError::BadNumber => String::from_str(
                "the search duration must be a number of seconds",
            ),
            ArgsError::UnknownFlag => String::from_str("unknown argument"),
        }
    }
}

/// The parse state after the arguments from position `i` on have been
/// taken, starting from output directory `dir` and duration `secs`.
/// Flags may repeat; the last occurrence wins.
pub open spec fn parse_spec(args: Seq<String>, i: int, dir: Seq<char>, secs: u64) -> Result<
    (Seq<char>, u64),
    ArgsError,
>
    decreases args.len() - i,
{
    if i < 0 || i >= args.len() {
        Ok((dir, secs))
    } else if args[i]@ == "--out-dir"@ || args[i]@ == "-o"@ {
        if i + 1 >= args.len() {
            Err(ArgsError::MissingValue)
        } else {
            parse_spec(args, i + 2, args[i + 1]@, secs)
        }
    } else if args[i]@ == "--search-secs"@ || args[i]@ == "-s"@ {
        if i + 1 >= args.len() {
            Err(ArgsError::MissingValue)
        } else if args[i + 1]@.len() > 0 && all_digits(args[i + 1]@) && dec_val(args[i + 1]@)
            <= u64::MAX {
            parse_spec(args, i + 2, dir, dec_val(args[i + 1]@) as u64)
        } else {
            Err(ArgsError::BadNumber)
        }
    } else {
        Err(ArgsError::UnknownFlag)
    }
}

impl Args {
    /// Parses a full argument vector, program name first, against the
    /// two flags `--out-dir`/`-o` (default `"."`) and
    /// `--search-secs`/`-s` (default 4).
    pub fn parse_from(args: &Vec<String>) -> (r: Result<Args, ArgsError>)
        ensures
            match parse_spec(args@, 1, "."@, 4) {
                Ok(p) => r matches Ok(a) && a.out_dir@ == p.0 && a.search_secs == p.1,
                Err(e) => r == Result::<Args, ArgsError>::Err(e),
            },
    {
        let n = args.len();
        let mut dir = String::from_str(".");
        let mut secs: u64 = 4;
        let mut i: usize = 1;
        while i < n
            invariant
                1 <= i,
                n == args@.len(),
                parse_spec(args@, 1, "."@, 4) == parse_spec(args@, i as int, dir@, secs),
            decreases n - i,
        {
            let arg = args[i].as_str();
            if str_eq(arg, "--out-dir") || str_eq(arg, "-o") {
                if i + 1 >= n {
                    return Err(ArgsError::MissingValue);
                }
                dir = args[i + 1].clone();
                i = i + 2;
            } else if str_eq(arg, "--search-secs") || str_eq(arg, "-s") {
                if i + 1 >= n {
                    return Err(ArgsError::MissingValue);
                }
                match parse_u64(args[i + 1].as_str()) {
                    Some(v) => {
                        secs = v;
                    },
                    None => {
                        return Err(ArgsError::BadNumber);
                    },
                }
                i = i + 2;
            } else {
                return Err(ArgsError::UnknownFlag);
            }
        }
        Ok(Args { out_dir: dir, search_secs: secs })
    }
}

} // verus!
