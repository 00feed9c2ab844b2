use typecode::clargs::{
    argument_and_param_from_args_string_vec, argument_position_in_args_string_vec, is_argument_present_on_args_string_vec,
};
use typecode::conditions::{make_rule_set, RuleSet};
use typecode::config::{
    render_target, ClassicGeneratorConfig, CommandLineInstructions, GoGeneratorConfig, TranspileError, TranspilerExternalConfig,
};
use typecode::generator::ShapeFault;
use typecode::text::{count_visible, decimal_text, join_with_newlines, split_lines, split_words, starts_as_comment};
use typecode::tokenizer::{HierarchyError, LineError, TokenSet, TokenType};

fn instruction(lang: &str, package: Option<&str>) -> CommandLineInstructions {
    CommandLineInstructions {
        transpile_to_lang: lang.to_string(),
        transpile_dir_path: "in".to_string(),
        transpile_to_output: "in/out".to_string(),
        go_module_name: package.map(|p| p.to_string()),
    }
}

fn words(list: &[&str]) -> Vec<String> {
    list.iter().map(|s| s.to_string()).collect()
}

#[test]
fn schema_text_to_rust() {
    let source = ": a comment\nmodule M\nstruct S\nstring v\n".to_string();
    let out = instruction("rs", None).transpile_source(&source).unwrap();
    assert_eq!(out, "pub mod M {\n    pub struct S {\n        pub v: String\n    }\n}");
}

#[test]
fn schema_text_to_typescript() {
    let source = "module M\nstruct S\nint_u8 vec count\n".to_string();
    let out = instruction("ts", None).transpile_source(&source).unwrap();
    assert_eq!(out, "export namespace M {\n    export interface S {\n        count: number[]\n    }\n}");
}

#[test]
fn schema_text_to_go() {
    let source = "module App\nenum Color\nRed red\nGreen green\n".to_string();
    let out = instruction("go", Some("app")).transpile_source(&source).unwrap();
    assert_eq!(out, "package app\n\nconst AppColorRed = \"AppColorRed-0\"\nconst AppColorGreen = \"AppColorGreen-1\"");
}

#[test]
fn schema_without_module_fails() {
    let source = "struct S\nstring v".to_string();
    let r = instruction("rs", None).transpile_source(&source);
    assert_eq!(r.err(), Some(TranspileError::Hierarchy(HierarchyError::DeclarationOutsideModule(0))));
}

#[test]
fn schema_hierarchy_error_carries_line_number() {
    let source = "  : note\n\nmodule M\nstring x\n".to_string();
    let r = instruction("ts", None).transpile_source(&source);
    assert_eq!(r.err(), Some(TranspileError::Hierarchy(HierarchyError::FieldOutsideDeclaration(3))));
}

#[test]
fn schema_line_error_carries_line_number() {
    let source = "module M\n\n   : note\nstruct S\nlonely\n".to_string();
    let r = instruction("rs", None).transpile_source(&source);
    assert_eq!(r.err(), Some(TranspileError::Line(4, LineError::MissingName)));
}

#[test]
fn unknown_target_and_missing_package() {
    let source = "module M".to_string();
    assert_eq!(instruction("py", None).transpile_source(&source).err(), Some(TranspileError::UnknownTarget));
    assert_eq!(instruction("go", None).transpile_source(&source).err(), Some(TranspileError::MissingPackageName));
}

#[test]
fn generation_fault_is_reported() {
    let loose = TokenSet {
        token_type: TokenType::Structure,
        custom_token_type: None,
        parameters: vec![],
        token_name: "S".to_string(),
        childs: vec![],
    };
    let tree = vec![loose];
    assert_eq!(
        render_target(&"rs".to_string(), &None, &tree).err(),
        Some(TranspileError::Generation(ShapeFault::RootNotModule))
    );
    assert_eq!(
        render_target(&"ts".to_string(), &None, &tree).err(),
        Some(TranspileError::Generation(ShapeFault::RootNotModule))
    );
    assert_eq!(render_target(&"go".to_string(), &Some("p".to_string()), &tree).unwrap(), "package p\n");
    let field = TokenSet {
        token_type: TokenType::Bool,
        custom_token_type: None,
        parameters: vec![],
        token_name: "b".to_string(),
        childs: vec![],
    };
    let module = TokenSet {
        token_type: TokenType::Module,
        custom_token_type: None,
        parameters: vec![],
        token_name: "M".to_string(),
        childs: vec![field],
    };
    let tree = vec![module];
    assert_eq!(
        render_target(&"go".to_string(), &Some("p".to_string()), &tree).err(),
        Some(TranspileError::Generation(ShapeFault::ChildNotDeclaration))
    );
}

#[test]
fn config_makes_instructions() {
    let config = TranspilerExternalConfig {
        ts: Some(ClassicGeneratorConfig { output_file: "out.ts".to_string() }),
        rs: None,
        go: Some(GoGeneratorConfig { output_file: "out.go".to_string(), module_name: "models".to_string() }),
    };
    let ts = config.make_command_line_instruction("ts", "schemas").unwrap();
    assert_eq!(ts.transpile_to_lang, "ts");
    assert_eq!(ts.transpile_dir_path, "schemas");
    assert_eq!(ts.transpile_to_output, "schemas/out.ts");
    assert!(ts.go_module_name.is_none());
    assert!(config.make_command_line_instruction("rs", "schemas").is_none());
    let go = config.make_command_line_instruction("go", "schemas").unwrap();
    assert_eq!(go.transpile_to_output, "schemas/out.go");
    assert_eq!(go.go_module_name.as_deref(), Some("models"));
}

#[test]
fn go_instruction_needs_go_entry() {
    let config = TranspilerExternalConfig {
        ts: Some(ClassicGeneratorConfig { output_file: "out.ts".to_string() }),
        rs: Some(ClassicGeneratorConfig { output_file: "lib.rs".to_string() }),
        go: None,
    };
    assert!(config.make_command_line_instruction("go", "d").is_none());
    let rs = config.make_command_line_instruction("rs", "d").unwrap();
    assert_eq!(rs.transpile_to_output, "d/lib.rs");
}

#[test]
fn argument_lookups() {
    let args = words(&["prog", "dir", "-o", "out.rs", "-l", "rs", "-o", "other"]);
    assert_eq!(argument_position_in_args_string_vec(&args, "-o".to_string()), Some(2));
    assert_eq!(argument_position_in_args_string_vec(&args, "--debug".to_string()), None);
    assert_eq!(
        argument_and_param_from_args_string_vec(&args, "-l".to_string()),
        Some(("-l".to_string(), "rs".to_string()))
    );
    assert_eq!(
        argument_and_param_from_args_string_vec(&args, "-o".to_string()),
        Some(("-o".to_string(), "out.rs".to_string()))
    );
    assert_eq!(argument_and_param_from_args_string_vec(&args, "-x".to_string()), None);
    assert!(is_argument_present_on_args_string_vec(&args, "dir".to_string()));
    assert!(!is_argument_present_on_args_string_vec(&args, "--debug".to_string()));
}

#[test]
fn rule_set_keeps_last_match() {
    let mut rules: RuleSet<TokenType, String> = make_rule_set("enum".to_string());
    assert!(rules.value.is_none());
    rules.exec_rule(TokenType::Module, "module".to_string());
    assert!(rules.value.is_none());
    rules.exec_rule(TokenType::Enumeration, "enum".to_string());
    assert_eq!(rules.value, Some(TokenType::Enumeration));
    rules.exec_rule(TokenType::Bool, "bool".to_string());
    assert_eq!(rules.value, Some(TokenType::Enumeration));
    let mut text: RuleSet<String, String> = make_rule_set("a".to_string());
    text.exec_rule("yes".to_string(), "a".to_string());
    assert_eq!(text.value.as_deref(), Some("yes"));
}

#[test]
fn text_helpers() {
    assert_eq!(split_words("  a bb\tccc  "), words(&["a", "bb", "ccc"]));
    assert!(split_words("   ").is_empty());
    assert_eq!(split_lines("x\n\ny"), words(&["x", "", "y"]));
    assert_eq!(split_lines(""), words(&[""]));
    assert_eq!(join_with_newlines(&words(&["a", "b", "c"])), "a\nb\nc");
    assert_eq!(join_with_newlines(&vec![]), "");
    assert_eq!(count_visible(" a b\t"), 2);
    assert_eq!(decimal_text(0), "0");
    assert_eq!(decimal_text(9), "9");
    assert_eq!(decimal_text(10), "10");
    assert_eq!(decimal_text(4057), "4057");
    assert!(starts_as_comment("  : hi"));
    assert!(!starts_as_comment("a : hi"));
    assert!(!starts_as_comment(""));
}
