use iced_disasm::config::BuildOutcome;
use iced_disasm::config::Config;
use iced_disasm::config::DisasmError;
use iced_disasm::text::completion_banner;
use iced_disasm::text::start_banner;
use iced_disasm::text::usage_lines;

fn line(args: &[&str]) -> Vec<String> {
    args.iter().map(|a| String::from(*a)).collect()
}

#[test]
fn accepts_each_valid_bitness() {
    for (text, value) in [("16", 16u32), ("32", 32u32), ("64", 64u32)] {
        let args = line(&["prog", text, "some_file"]);
        let r = Config::build(&args);
        match r {
            Ok(BuildOutcome::Ready(c)) => {
                assert_eq!(c.code_bitness, value);
                assert_eq!(c.file_path, "some_file");
            }
            _ => panic!("bitness {text} was not accepted"),
        }
    }
}

#[test]
fn rejects_other_numeric_bitness() {
    for b in ["8", "48", "128", "0"] {
        let args = line(&["prog", b, "some_file"]);
        let r = Config::build(&args);
        assert!(matches!(r, Err(DisasmError::InvalidBitness)), "bitness {b}");
    }
}

#[test]
fn help_with_short_line_is_help() {
    let args = line(&["prog", "help"]);
    let r = Config::build(&args);
    assert!(matches!(r, Ok(BuildOutcome::Help)));
}

#[test]
fn short_line_without_help_is_insufficient() {
    let args = line(&["prog", "64"]);
    let r = Config::build(&args);
    assert!(matches!(r, Err(DisasmError::InsufficientArgs)));
}

#[test]
fn bare_program_name_is_insufficient() {
    let args = line(&["prog"]);
    let r = Config::build(&args);
    assert!(matches!(r, Err(DisasmError::InsufficientArgs)));
}

#[test]
fn no_arguments_at_all_is_insufficient() {
    let args: Vec<String> = Vec::new();
    let r = Config::build(&args);
    assert!(matches!(r, Err(DisasmError::InsufficientArgs)));
}

#[test]
fn non_numeric_bitness_is_help() {
    let args = line(&["prog", "sixty-four", "some_file"]);
    let r = Config::build(&args);
    assert!(matches!(r, Ok(BuildOutcome::Help)));
}

#[test]
fn missing_rip_takes_default() {
    let args = line(&["prog", "64", "some_file"]);
    match Config::build(&args) {
        Ok(BuildOutcome::Ready(c)) => assert_eq!(c.code_rip, 0x0000_7FFA_C46A_CDA4),
        _ => panic!("expected a configuration"),
    }
}

#[test]
fn explicit_rip_is_taken() {
    let args = line(&["prog", "32", "some_file", "4096"]);
    match Config::build(&args) {
        Ok(BuildOutcome::Ready(c)) => {
            assert_eq!(c.code_bitness, 32);
            assert_eq!(c.code_rip, 4096);
        }
        _ => panic!("expected a configuration"),
    }
}

#[test]
fn non_numeric_rip_fails() {
    let args = line(&["prog", "64", "some_file", "0x1000"]);
    let r = Config::build(&args);
    assert!(matches!(r, Err(DisasmError::InvalidRip)));
}

#[test]
fn surrounding_whitespace_is_trimmed() {
    let args = line(&["prog", " 64 ", "some_file", "\t4096\n"]);
    match Config::build(&args) {
        Ok(BuildOutcome::Ready(c)) => {
            assert_eq!(c.code_bitness, 64);
            assert_eq!(c.code_rip, 4096);
        }
        _ => panic!("expected a configuration"),
    }
}

#[test]
fn error_messages_are_fixed() {
    assert_eq!(
        DisasmError::InsufficientArgs.message(),
        "not enough arguments!"
    );
    assert_eq!(
        DisasmError::InvalidBitness.message(),
        "the code bitness value must be one of 16, 32, or 64!"
    );
    assert_eq!(DisasmError::InvalidRip.message(), "wrong code_rip!");
    assert_eq!(DisasmError::IOError.message(), "could not read the file");
}

#[test]
fn usage_text_shape() {
    let lines = usage_lines();
    assert_eq!(lines.len(), 14);
    assert_eq!(lines[0], "This is a disassembler based on iced-x86.");
    assert_eq!(lines[12], "  ./iced_disasm help");
    assert_eq!(lines[13], "");
}

#[test]
fn banners_name_the_run() {
    assert_eq!(start_banner(16), "Starting disassembler... for x16");
    assert_eq!(start_banner(32), "Starting disassembler... for x32");
    assert_eq!(start_banner(64), "Starting disassembler... for x64");
    assert_eq!(completion_banner(), "Priting finished!");
}

#[test]
fn empty_buffer_output_is_banners_only() {
    let rendered: Vec<String> = Vec::new();
    let out = iced_disasm::runner::run_output(64, &rendered);
    assert_eq!(
        out,
        vec![
            String::from("Starting disassembler... for x64"),
            String::new(),
            String::new(),
            String::from("Priting finished!"),
        ]
    );
}

#[test]
fn run_output_keeps_rendered_lines_in_order() {
    let rendered = vec![String::from("nop"), String::from("ret")];
    let out = iced_disasm::runner::run_output(16, &rendered);
    assert_eq!(out.len(), 6);
    assert_eq!(out[0], "Starting disassembler... for x16");
    assert_eq!(out[1], "");
    assert_eq!(out[2], "nop");
    assert_eq!(out[3], "ret");
    assert_eq!(out[4], "");
    assert_eq!(out[5], "Priting finished!");
}
