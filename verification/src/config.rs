//! Configuration of one disassembler run, validated from the command line.

use vstd::prelude::*;

use crate::numeral::parse_u32;
use crate::numeral::parse_u64;
use crate::numeral::parsed_u32;
use crate::numeral::parsed_u64;
use crate::numeral::trim_str;
use crate::numeral::trimmed_of;

verus! {

/// The instruction pointer assumed when the command line names none.
pub const DEFAULT_CODE_RIP: u64 = 0x0000_7FFA_C46A_CDA4;

/// An accepted code width.
pub open spec fn valid_bitness(b: u32) -> bool {
    b == 16 || b == 32 || b == 64
}

/// Why a run fails.
#[derive(Clone, Copy, PartialEq, Eq, Structural, Debug)]
pub enum DisasmError {
    /// Fewer than three arguments, and no plea for help.
    InsufficientArgs,
    /// The width argument is a number outside 16, 32 and 64.
    InvalidBitness,
    /// The instruction-pointer argument is no unsigned number.
    InvalidRip,
    /// The named file could not be read.
    IOError,
}

impl DisasmError {
    /// The diagnostic text of each error, as the tool reports it.
    pub fn message(&self) -> (r: String)
        ensures
            *self == DisasmError::InsufficientArgs ==> r@ == "not enough arguments!"@,
            *self == DisasmError::InvalidBitness ==> r@
                == "the code bitness value must be one of 16, 32, or 64!"@,
            *self == DisasmError::InvalidRip ==> r@ == "wrong code_rip!"@,
            *self == DisasmError::IOError ==> r@ == "could not read the file"@,
    {
        match self {
            DisasmError::InsufficientArgs => String::from_str("not enough arguments!"),
            DisasmError::InvalidBitness => String::from_str(
                "the code bitness value must be one of 16, 32, or 64!",
            ),
            DisasmError::InvalidRip => String::from_str("wrong code_rip!"),
            DisasmError::IOError => String::from_str("could not read the file"),
        }
    }
}

/// A validated configuration: the code width, the path of the file to
/// disassemble, and the address assumed for its first byte.
pub struct Config {
    pub code_bitness: u32,
    pub file_path: String,
    pub code_rip: u64,
}

/// What building a configuration decides: run with one, or show the usage
/// text and stop successfully.
pub enum BuildOutcome {
    Ready(Config),
    Help,
}

/// The help shortcut: `help` in place of the width when fewer than three
/// arguments stand on the line, or a width argument that parses as no
/// number at all.
pub open spec fn build_is_help(args: Seq<String>) -> bool {
    if args.len() < 3 {
        args.len() >= 2 && args[1]@ == "help"@
    } else {
        parsed_u32(trimmed_of(args[1]@)) is None
    }
}

/// The error that building a configuration from `args` gives, if any,
/// checked in the order the rules hold: enough arguments first, then the
/// width, then the instruction pointer.
pub open spec fn build_error(args: Seq<String>) -> Option<DisasmError> {
    if args.len() < 3 {
        if args.len() >= 2 && args[1]@ == "help"@ {
            None
        } else {
            Some(DisasmError::InsufficientArgs)
        }
    } else {
        match parsed_u32(trimmed_of(args[1]@)) {
            None => None,
            Some(b) => if !valid_bitness(b) {
                Some(DisasmError::InvalidBitness)
            } else if args.len() > 3 && parsed_u64(trimmed_of(args[3]@)) is None {
                Some(DisasmError::InvalidRip)
            } else {
                None
            },
        }
    }
}

/// Law: on a line of at least three arguments whose width argument is a
/// number `b`, building fails with `InvalidBitness` exactly when `b` is none
/// of 16, 32 and 64.
pub proof fn lemma_numeric_bitness_accepted(args: Seq<String>, b: u32)
    requires
        args.len() >= 3,
        parsed_u32(trimmed_of(args[1]@)) == Some(b),
    ensures
        (build_error(args) == Some(DisasmError::InvalidBitness)) <==> !valid_bitness(b),
        valid_bitness(b) ==> !build_is_help(args),
{
}

impl Config {
    /// A configuration the builder hands out: its width is one of the three.
    pub open spec fn wf(self) -> bool {
        valid_bitness(self.code_bitness)
    }

    /// Validates the command line. In order: with fewer than three arguments,
    /// `help` as the second asks for the usage text and anything else — a
    /// missing second argument included — is too little; the second argument
    /// must be a number, and one of the three widths (a non-number is treated
    /// as a plea for help); the third is taken verbatim as the file path; a
    /// fourth, if present, must be an unsigned 64-bit number, and defaults
    /// otherwise.
    pub fn build(args: &Vec<String>) -> (r: Result<BuildOutcome, DisasmError>)
        ensures
            r == Ok::<BuildOutcome, DisasmError>(BuildOutcome::Help) <==> build_is_help(args@),
            r is Err <==> build_error(args@) is Some,
            r matches Err(e) ==> build_error(args@) == Some(e),
            r matches Ok(BuildOutcome::Ready(c)) ==> {
                &&& c.wf()
                &&& Some(c.code_bitness) == parsed_u32(trimmed_of(args@[1]@))
                &&& c.file_path@ == args@[2]@
                &&& args@.len() > 3 ==> Some(c.code_rip) == parsed_u64(trimmed_of(args@[3]@))
                &&& args@.len() <= 3 ==> c.code_rip == DEFAULT_CODE_RIP
            },
    {
        let help = String::from_str("help");
        if args.len() < 3 {
            if args.len() >= 2 && args[1].eq(&help) {
                return Ok(BuildOutcome::Help);
            } else {
                return Err(DisasmError::InsufficientArgs);
            }
        }

        let code_bitness = match parse_u32(trim_str(args[1].as_str())) {
            Some(num) => {
                if num != 64 && num != 32 && num != 16 {
                    return Err(DisasmError::InvalidBitness);
                } else {
                    num
                }
            },
            None => {
                return Ok(BuildOutcome::Help);
            },
        };
        let file_path = args[2].clone();
        let code_rip: u64;
        if args.len() > 3 {
            code_rip = match parse_u64(trim_str(args[3].as_str())) {
                Some(num) => num,
                None => {
                    return Err(DisasmError::InvalidRip);
                },
            };
        } else {
            code_rip = DEFAULT_CODE_RIP;
        }

        Ok(BuildOutcome::Ready(Config { code_bitness, file_path, code_rip }))
    }
}

} // verus!
