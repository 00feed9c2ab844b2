use typecode::tokenizer::{HierarchyError, LineError, TokenParameter, TokenSet, TokenType};

fn classify(line: &str) -> Result<Option<TokenSet>, LineError> {
    TokenSet::token_set_from_string(line.to_string())
}

fn node(line: &str) -> TokenSet {
    classify(line).unwrap().unwrap()
}

#[test]
fn keyword_lines_yield_their_kind() {
    let table = [
        ("module", TokenType::Module),
        ("struct", TokenType::Structure),
        ("enum", TokenType::Enumeration),
        ("string", TokenType::String),
        ("char", TokenType::Char),
        ("int_u8", TokenType::IntU8),
        ("int_u16", TokenType::IntU16),
        ("int_u32", TokenType::IntU32),
        ("int_u64", TokenType::IntU64),
        ("int_i8", TokenType::IntI8),
        ("int_i16", TokenType::IntI16),
        ("int_i32", TokenType::IntI32),
        ("int_i64", TokenType::IntI64),
        ("bool", TokenType::Bool),
    ];
    for (keyword, kind) in table {
        let t = node(&format!("{} x name", keyword));
        assert_eq!(t.token_type, kind);
        assert!(t.custom_token_type.is_none());
        assert_eq!(t.token_name, "name");
        assert!(t.parameters.is_empty());
        assert!(t.childs.is_empty());
    }
}

#[test]
fn unknown_first_word_is_custom() {
    let t = node("Address home");
    assert_eq!(t.token_type, TokenType::Custom);
    assert_eq!(t.custom_token_type.as_deref(), Some("Address"));
    assert_eq!(t.token_name, "home");
}

#[test]
fn short_lines_are_skipped() {
    assert!(classify("").unwrap().is_none());
    assert!(classify("   \t ").unwrap().is_none());
    assert!(classify("a").unwrap().is_none());
    assert!(classify("  a  ").unwrap().is_none());
}

#[test]
fn single_word_line_is_an_error() {
    assert_eq!(classify("module").err(), Some(LineError::MissingName));
    assert_eq!(classify("  ab ").err(), Some(LineError::MissingName));
}

#[test]
fn parameters_between_first_and_last_word() {
    let t = node("int_i32 vec floated junk ref pointer value");
    assert_eq!(t.token_type, TokenType::IntI32);
    assert_eq!(
        t.parameters,
        vec![TokenParameter::Vector, TokenParameter::Floated, TokenParameter::Reference, TokenParameter::Pointer]
    );
    assert_eq!(t.token_name, "value");
}

#[test]
fn parameter_words_at_the_ends_are_not_parameters() {
    let t = node("vec ref");
    assert_eq!(t.token_type, TokenType::Custom);
    assert_eq!(t.custom_token_type.as_deref(), Some("vec"));
    assert_eq!(t.token_name, "ref");
    assert!(t.parameters.is_empty());
}

#[test]
fn words_are_split_on_any_blank_run() {
    let t = node("  string \t  vec   title\r");
    assert_eq!(t.token_type, TokenType::String);
    assert_eq!(t.parameters, vec![TokenParameter::Vector]);
    assert_eq!(t.token_name, "title");
}

#[test]
fn module_struct_field_hierarchy() {
    let nodes = vec![node("module M"), node("struct S"), node("string v")];
    let tree = TokenSet::apply_hierarchy_rules(nodes).unwrap();
    assert_eq!(tree.len(), 1);
    assert_eq!(tree[0].token_type, TokenType::Module);
    assert_eq!(tree[0].token_name, "M");
    assert_eq!(tree[0].childs.len(), 1);
    let s = &tree[0].childs[0];
    assert_eq!(s.token_type, TokenType::Structure);
    assert_eq!(s.token_name, "S");
    assert_eq!(s.childs.len(), 1);
    assert_eq!(s.childs[0].token_type, TokenType::String);
    assert_eq!(s.childs[0].token_name, "v");
    assert!(s.childs[0].childs.is_empty());
}

#[test]
fn struct_without_module_is_a_hierarchy_error() {
    let nodes = vec![node("struct S"), node("string v")];
    let r = TokenSet::apply_hierarchy_rules(nodes);
    assert_eq!(r.err(), Some(HierarchyError::DeclarationOutsideModule(0)));
}

#[test]
fn field_without_struct_is_a_hierarchy_error() {
    let nodes = vec![node("module M"), node("string v")];
    let r = TokenSet::apply_hierarchy_rules(nodes);
    assert_eq!(r.err(), Some(HierarchyError::FieldOutsideDeclaration(1)));
    let nodes = vec![node("string v")];
    let r = TokenSet::apply_hierarchy_rules(nodes);
    assert_eq!(r.err(), Some(HierarchyError::FieldOutsideDeclaration(0)));
}

#[test]
fn field_after_new_module_is_a_hierarchy_error() {
    let nodes = vec![node("module A"), node("struct S"), node("module B"), node("bool flag")];
    let r = TokenSet::apply_hierarchy_rules(nodes);
    assert_eq!(r.err(), Some(HierarchyError::FieldOutsideDeclaration(3)));
}

#[test]
fn several_modules_keep_their_order() {
    let nodes = vec![
        node("module A"),
        node("struct S"),
        node("bool x"),
        node("enum E"),
        node("Red red"),
        node("module B"),
        node("struct T"),
        node("char c"),
        node("char d"),
    ];
    let tree = TokenSet::apply_hierarchy_rules(nodes).unwrap();
    assert_eq!(tree.len(), 2);
    assert_eq!(tree[0].childs.len(), 2);
    assert_eq!(tree[0].childs[1].token_type, TokenType::Enumeration);
    assert_eq!(tree[0].childs[1].childs[0].custom_token_type.as_deref(), Some("Red"));
    assert_eq!(tree[1].childs[0].childs.len(), 2);
    assert_eq!(tree[1].childs[0].childs[1].token_name, "d");
}

#[test]
fn empty_input_gives_empty_tree() {
    let tree = TokenSet::apply_hierarchy_rules(vec![]).unwrap();
    assert!(tree.is_empty());
}

#[test]
fn has_parameter_reports_membership() {
    let t = node("int_u8 vec ref v");
    assert!(t.has_parameter(TokenParameter::Vector));
    assert!(t.has_parameter(TokenParameter::Reference));
    assert!(!t.has_parameter(TokenParameter::Optional));
}
