use slang::{
    CapabilityID, CompileTarget, CompilerOptionName, CompilerOptionValue, CompilerOptions,
    DebugInfoLevel, OptimizationLevel, ProfileID, SessionDesc, SourceLanguage, Stage, TargetDesc,
};

#[test]
fn options_accumulate_in_order() {
    let options = CompilerOptions::default()
        .optimization(OptimizationLevel::High)
        .matrix_layout_row(true)
        .macro_define("USE_FOG", "1")
        .include_path("shaders")
        .stage(Stage::Fragment)
        .target(CompileTarget::Spirv)
        .language(SourceLanguage::Slang)
        .debug_information(DebugInfoLevel::Maximal)
        .profile(ProfileID(42))
        .capability(CapabilityID(7))
        .warnings_as_errors("all");
    let e = options.entries();
    assert_eq!(options.len(), 11);
    assert_eq!(e[0].name, CompilerOptionName::Optimization);
    assert!(matches!(e[0].value, CompilerOptionValue::Int(2, 0)));
    assert_eq!(e[1].name, CompilerOptionName::MatrixLayoutRow);
    assert!(matches!(e[1].value, CompilerOptionValue::Int(1, 0)));
    assert_eq!(e[2].name, CompilerOptionName::MacroDefine);
    match &e[2].value {
        CompilerOptionValue::Str(k, Some(v)) => {
            assert_eq!(k, "USE_FOG");
            assert_eq!(v, "1");
        },
        _ => panic!("expected two strings"),
    }
    match &e[3].value {
        CompilerOptionValue::Str(p, None) => assert_eq!(p, "shaders"),
        _ => panic!("expected one string"),
    }
    assert!(matches!(e[4].value, CompilerOptionValue::Int(5, 0)));
    assert!(matches!(e[5].value, CompilerOptionValue::Int(6, 0)));
    assert!(matches!(e[6].value, CompilerOptionValue::Int(1, 0)));
    assert!(matches!(e[7].value, CompilerOptionValue::Int(3, 0)));
    assert!(matches!(e[8].value, CompilerOptionValue::Int(42, 0)));
    assert_eq!(e[9].name, CompilerOptionName::Capability);
    assert!(matches!(e[9].value, CompilerOptionValue::Int(7, 0)));
    assert_eq!(e[10].name, CompilerOptionName::WarningsAsErrors);
}

#[test]
fn flags_encode_false_as_zero() {
    let options = CompilerOptions::default().matrix_layout_column(false).no_mangle(true);
    assert!(matches!(options.entries()[0].value, CompilerOptionValue::Int(0, 0)));
    assert_eq!(options.entries()[1].name, CompilerOptionName::NoMangle);
    assert!(CompilerOptions::default().entries().is_empty());
}

#[test]
fn unknown_identifiers_are_reported_as_unknown() {
    assert!(ProfileID::unknown().is_unknown());
    assert!(!ProfileID(3).is_unknown());
    assert!(CapabilityID::unknown().is_unknown());
    assert!(!CapabilityID(-1).is_unknown());
}

#[test]
fn descriptors_keep_what_they_are_given() {
    let options = CompilerOptions::default().optimization(OptimizationLevel::Maximal);
    let target = TargetDesc::default();
    assert_eq!(target.format, CompileTarget::Unknown);
    assert!(target.profile.is_unknown());
    let target = target.format(CompileTarget::Spirv).profile(ProfileID(9)).options(&options);
    assert_eq!(target.format, CompileTarget::Spirv);
    assert_eq!(target.profile, ProfileID(9));
    assert_eq!(target.options.unwrap().len(), 1);
    let targets = [target];
    let paths = ["shaders", "lib"];
    let session = SessionDesc::default();
    assert!(session.targets.is_empty());
    let session = session.targets(&targets).search_paths(&paths).options(&options);
    assert_eq!(session.targets.len(), 1);
    assert_eq!(session.search_paths, &["shaders", "lib"]);
    assert!(session.options.is_some());
}
