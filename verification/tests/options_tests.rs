use playpen::channel::image_name;
use playpen::error::StringError;
use playpen::highlight_lexer;
use playpen::AsmFlavor;
use playpen::Backtrace;
use playpen::CompileOutput;
use playpen::OptLevel;
use playpen::ReleaseChannel;

#[test]
fn channel_parses_known_names() {
    assert_eq!(
        ReleaseChannel::from_str("stable").unwrap(),
        ReleaseChannel::Stable
    );
    assert_eq!(
        ReleaseChannel::from_str("beta").unwrap(),
        ReleaseChannel::Beta
    );
    assert_eq!(
        ReleaseChannel::from_str("nightly").unwrap(),
        ReleaseChannel::Nightly
    );
}

#[test]
fn channel_rejects_unknown_names() {
    let StringError(msg) = ReleaseChannel::from_str("weekly").unwrap_err();
    assert_eq!(msg, "unknown release channel weekly");
    assert!(ReleaseChannel::from_str("Stable").is_err());
    assert!(ReleaseChannel::from_str("").is_err());
}

#[test]
fn channel_names_round() {
    assert_eq!(ReleaseChannel::Stable.as_str(), "stable");
    assert_eq!(ReleaseChannel::Beta.as_str(), "beta");
    assert_eq!(ReleaseChannel::Nightly.as_str(), "nightly");
}

#[test]
fn image_names_follow_channel() {
    assert_eq!(image_name(ReleaseChannel::Stable), "rust-playpen-stable");
    assert_eq!(image_name(ReleaseChannel::Beta), "rust-playpen-beta");
    assert_eq!(image_name(ReleaseChannel::Nightly), "rust-playpen-nightly");
}

#[test]
fn asm_flavor_parses_and_prints() {
    assert!(matches!(AsmFlavor::from_str("att"), Ok(AsmFlavor::Att)));
    assert!(matches!(AsmFlavor::from_str("intel"), Ok(AsmFlavor::Intel)));
    assert_eq!(AsmFlavor::Att.as_str(), "att");
    assert_eq!(AsmFlavor::Intel.as_str(), "intel");
    let StringError(msg) = AsmFlavor::from_str("masm").unwrap_err();
    assert_eq!(msg, "unknown asm dialect masm");
}

#[test]
fn backtrace_parses_and_decides() {
    assert!(matches!(Backtrace::from_str("0"), Ok(Backtrace::Never)));
    assert!(matches!(Backtrace::from_str("1"), Ok(Backtrace::Always)));
    assert!(matches!(Backtrace::from_str("2"), Ok(Backtrace::Auto)));
    let StringError(msg) = Backtrace::from_str("3").unwrap_err();
    assert_eq!(msg, "unknown backtrace setting 3");

    assert!(!Backtrace::Never.is_requested(false));
    assert!(!Backtrace::Never.is_requested(true));
    assert!(Backtrace::Always.is_requested(false));
    assert!(Backtrace::Always.is_requested(true));
    assert!(!Backtrace::Auto.is_requested(false));
    assert!(Backtrace::Auto.is_requested(true));
}

#[test]
fn opt_level_parses_and_numbers() {
    assert!(matches!(OptLevel::from_str("0"), Ok(OptLevel::O0)));
    assert!(matches!(OptLevel::from_str("1"), Ok(OptLevel::O1)));
    assert!(matches!(OptLevel::from_str("2"), Ok(OptLevel::O2)));
    assert!(matches!(OptLevel::from_str("3"), Ok(OptLevel::O3)));
    assert_eq!(OptLevel::O0.as_u8(), 0);
    assert_eq!(OptLevel::O1.as_u8(), 1);
    assert_eq!(OptLevel::O2.as_u8(), 2);
    assert_eq!(OptLevel::O3.as_u8(), 3);
    let StringError(msg) = OptLevel::from_str("4").unwrap_err();
    assert_eq!(msg, "unknown optimization level 4");
}

#[test]
fn compile_output_parses_and_selects_options() {
    assert!(matches!(CompileOutput::from_str("asm"), Ok(CompileOutput::Asm)));
    assert!(matches!(
        CompileOutput::from_str("llvm-ir"),
        Ok(CompileOutput::Llvm)
    ));
    assert!(matches!(CompileOutput::from_str("mir"), Ok(CompileOutput::Mir)));
    let StringError(msg) = CompileOutput::from_str("wasm").unwrap_err();
    assert_eq!(msg, "unknown output format wasm");

    assert_eq!(CompileOutput::Asm.as_opts(), vec!["--emit=asm"]);
    assert_eq!(CompileOutput::Llvm.as_opts(), vec!["--emit=llvm-ir"]);
    assert_eq!(
        CompileOutput::Mir.as_opts(),
        vec!["-Zunstable-options", "--unpretty=mir"]
    );
}

#[test]
fn lexers_follow_output_format() {
    assert_eq!(highlight_lexer(CompileOutput::Asm), "gas");
    assert_eq!(highlight_lexer(CompileOutput::Llvm), "llvm");
    assert_eq!(highlight_lexer(CompileOutput::Mir), "text");
}
