//! The fixed text the tool prints: the usage screen and the run banners.

use vstd::prelude::*;

use crate::config::valid_bitness;

verus! {

/// The usage text, line by line, that the help paths print.
pub fn usage_lines() -> (r: Vec<String>)
    ensures
        r@.len() == 14,
        r@[0]@ == "This is a disassembler based on iced-x86."@,
        r@[1]@ == "Typical command:"@,
        r@[2]@ == "  ./iced_disasm [16|32|64] file_path"@,
        r@[3]@ == "With code_rip:"@,
        r@[4]@ == "  ./iced_disasm [16|32|64] file_path code_rip"@,
        r@[5]@ == ""@,
        r@[6]@ == "Meaning:"@,
        r@[7]@ == "  [16|32|64] is the arch of the executable"@,
        r@[8]@ == "  file_path is the path to the file"@,
        r@[9]@ == "  code_rip is the instruction pointer register"@,
        r@[10]@ == ""@,
        r@[11]@ == "To show this message:"@,
        r@[12]@ == "  ./iced_disasm help"@,
        r@[13]@ == ""@,
{
    let mut v: Vec<String> = Vec::new();
    v.push(String::from_str("This is a disassembler based on iced-x86."));
    v.push(String::from_str("Typical command:"));
    v.push(String::from_str("  ./iced_disasm [16|32|64] file_path"));
    v.push(String::from_str("With code_rip:"));
    v.push(String::from_str("  ./iced_disasm [16|32|64] file_path code_rip"));
    v.push(String::from_str(""));
    v.push(String::from_str("Meaning:"));
    v.push(String::from_str("  [16|32|64] is the arch of the executable"));
    v.push(String::from_str("  file_path is the path to the file"));
    v.push(String::from_str("  code_rip is the instruction pointer register"));
    v.push(String::from_str(""));
    v.push(String::from_str("To show this message:"));
    v.push(String::from_str("  ./iced_disasm help"));
    v.push(String::from_str(""));
    v
}

/// The text of the banner announcing a run over code of width `bitness`.
pub open spec fn start_banner_text(bitness: u32) -> Seq<char> {
    if bitness == 16 {
        "Starting disassembler... for x16"@
    } else if bitness == 32 {
        "Starting disassembler... for x32"@
    } else {
        "Starting disassembler... for x64"@
    }
}

/// The text of the banner announcing that the run finished.
pub open spec fn completion_banner_text() -> Seq<char> {
    "Priting finished!"@
}

/// The banner announcing a run over code of width `bitness`.
pub fn start_banner(bitness: u32) -> (r: String)
    requires
        valid_bitness(bitness),
    ensures
        r@ == start_banner_text(bitness),
{
    if bitness == 16 {
        String::from_str("Starting disassembler... for x16")
    } else if bitness == 32 {
        String::from_str("Starting disassembler... for x32")
    } else {
        String::from_str("Starting disassembler... for x64")
    }
}

/// The banner announcing that the run finished.
pub fn completion_banner() -> (r: String)
    ensures
        r@ == completion_banner_text(),
{
    String::from_str("Priting finished!")
}

} // verus!
