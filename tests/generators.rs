use typecode::generator::{GoGen, RustGen, TSGen};
use typecode::reusability::ReusableDeclarations;
use typecode::rust_target::rust_field_declaration;
use typecode::ts_target::ts_field_declaration;
use typecode::tokenizer::{TokenParameter, TokenSet, TokenType};

fn leaf(kind: TokenType, custom: Option<&str>, params: Vec<TokenParameter>, name: &str) -> TokenSet {
    TokenSet {
        token_type: kind,
        custom_token_type: custom.map(|c| c.to_string()),
        parameters: params,
        token_name: name.to_string(),
        childs: vec![],
    }
}

fn with_children(kind: TokenType, name: &str, childs: Vec<TokenSet>) -> TokenSet {
    TokenSet { token_type: kind, custom_token_type: None, parameters: vec![], token_name: name.to_string(), childs }
}

fn empty_registry() -> ReusableDeclarations {
    ReusableDeclarations::from_token_sets_vec(&vec![])
}

/// M1 { struct A, enum Color }, M2 { struct B { A a (local) } }
fn two_module_tree(param_target: &str) -> Vec<TokenSet> {
    vec![
        with_children(
            TokenType::Module,
            "M1",
            vec![
                with_children(TokenType::Structure, "A", vec![leaf(TokenType::Bool, None, vec![], "ok")]),
                with_children(TokenType::Enumeration, "Color", vec![leaf(TokenType::Custom, Some("Red"), vec![], "red")]),
            ],
        ),
        with_children(
            TokenType::Module,
            "M2",
            vec![with_children(
                TokenType::Structure,
                "B",
                vec![leaf(TokenType::Custom, Some(param_target), vec![TokenParameter::LocalType], "a")],
            )],
        ),
    ]
}

#[test]
fn registry_resolves_struct_to_its_module() {
    let tree = two_module_tree("A");
    let reg = ReusableDeclarations::from_token_sets_vec(&tree);
    assert_eq!(reg.structs.len(), 2);
    assert_eq!(reg.enums.len(), 1);
    let d = reg.find_declaration_descriptor_with_declaration_name("A".to_string()).unwrap();
    assert_eq!(d.module_name, "M1");
    assert_eq!(d.declaration_name, "A");
    assert_eq!(d.declaration_type, TokenType::Structure);
    let e = reg.find_declaration_descriptor_with_declaration_name("Color".to_string()).unwrap();
    assert_eq!(e.module_name, "M1");
    assert_eq!(e.declaration_type, TokenType::Enumeration);
    assert!(reg.find_declaration_descriptor_with_declaration_name("Nope".to_string()).is_none());
}

#[test]
fn registry_prefers_first_struct_then_enums() {
    let tree = vec![
        with_children(TokenType::Module, "X", vec![with_children(TokenType::Enumeration, "Dup", vec![])]),
        with_children(TokenType::Module, "Y", vec![with_children(TokenType::Structure, "Dup", vec![])]),
        with_children(TokenType::Module, "Z", vec![with_children(TokenType::Structure, "Dup", vec![])]),
    ];
    let reg = ReusableDeclarations::from_token_sets_vec(&tree);
    let d = reg.find_declaration_descriptor_with_declaration_name("Dup".to_string()).unwrap();
    assert_eq!(d.module_name, "Y");
    assert_eq!(d.declaration_type, TokenType::Structure);
}

#[test]
fn registry_skips_roots_that_are_not_modules() {
    let tree = vec![with_children(TokenType::Structure, "Loose", vec![with_children(TokenType::Structure, "Inner", vec![])])];
    let reg = ReusableDeclarations::from_token_sets_vec(&tree);
    assert!(reg.structs.is_empty());
    assert!(reg.enums.is_empty());
}

#[test]
fn local_reference_in_each_target() {
    let tree = two_module_tree("A");
    let reg = ReusableDeclarations::from_token_sets_vec(&tree);
    let field = &tree[1].childs[0].childs[0];
    assert_eq!(<TokenSet as RustGen>::build_type_declaration(field, &reg), "pub a: super::M1::A");
    assert_eq!(<TokenSet as TSGen>::build_type_declaration(field, &reg), "a: M1.A");
    assert_eq!(<TokenSet as GoGen>::build_type_declaration(field, &reg), "M1A");
}

#[test]
fn local_enum_reference_becomes_string_in_go() {
    let tree = two_module_tree("Color");
    let reg = ReusableDeclarations::from_token_sets_vec(&tree);
    let field = &tree[1].childs[0].childs[0];
    assert_eq!(<TokenSet as GoGen>::build_type_declaration(field, &reg), "string");
    assert_eq!(<TokenSet as RustGen>::build_type_declaration(field, &reg), "pub a: super::M1::Color");
    assert_eq!(<TokenSet as TSGen>::build_type_declaration(field, &reg), "a: M1.Color");
}

#[test]
fn unresolved_local_reference_keeps_custom_name() {
    let reg = empty_registry();
    let field = leaf(TokenType::Custom, Some("Other"), vec![TokenParameter::LocalType], "o");
    assert_eq!(<TokenSet as RustGen>::build_type_declaration(&field, &reg), "pub o: Other");
    assert_eq!(<TokenSet as GoGen>::build_type_declaration(&field, &reg), "Other");
    assert_eq!(<TokenSet as TSGen>::build_type_declaration(&field, &reg), "o: Other");
}

#[test]
fn vector_of_optional_i32() {
    let reg = empty_registry();
    let field = leaf(TokenType::IntI32, None, vec![TokenParameter::Vector, TokenParameter::Optional], "v");
    assert_eq!(<TokenSet as RustGen>::build_type_declaration(&field, &reg), "pub v: Vec<Option<i32>>");
    assert_eq!(<TokenSet as GoGen>::build_type_declaration(&field, &reg), "[]*int32");
    assert_eq!(<TokenSet as TSGen>::build_type_declaration(&field, &reg), "v?: number[]");
    let floated = leaf(
        TokenType::IntI32,
        None,
        vec![TokenParameter::Vector, TokenParameter::Optional, TokenParameter::Floated],
        "v",
    );
    assert_eq!(<TokenSet as RustGen>::build_type_declaration(&floated, &reg), "pub v: Vec<Option<f32>>");
    assert_eq!(<TokenSet as GoGen>::build_type_declaration(&floated, &reg), "[]*float32");
    assert_eq!(<TokenSet as TSGen>::build_type_declaration(&floated, &reg), "v?: number[]");
}

#[test]
fn all_modifiers_in_fixed_order() {
    let reg = empty_registry();
    let field = leaf(
        TokenType::IntU64,
        None,
        vec![TokenParameter::Pointer, TokenParameter::Floated, TokenParameter::Vector, TokenParameter::Optional],
        "x",
    );
    assert_eq!(<TokenSet as RustGen>::build_type_declaration(&field, &reg), "pub x: Vec<&Option<f64>>");
    assert_eq!(<TokenSet as GoGen>::build_type_declaration(&field, &reg), "[]**float64");
}

#[test]
fn floated_is_ignored_on_narrow_or_other_kinds() {
    let reg = empty_registry();
    let narrow = leaf(TokenType::IntU16, None, vec![TokenParameter::Floated], "n");
    assert_eq!(<TokenSet as RustGen>::build_type_declaration(&narrow, &reg), "pub n: u16");
    assert_eq!(<TokenSet as GoGen>::build_type_declaration(&narrow, &reg), "uint16");
    let text = leaf(TokenType::String, None, vec![TokenParameter::Floated, TokenParameter::Reference], "s");
    assert_eq!(<TokenSet as RustGen>::build_type_declaration(&text, &reg), "pub s: &String");
    assert_eq!(<TokenSet as GoGen>::build_type_declaration(&text, &reg), "*string");
    assert_eq!(<TokenSet as TSGen>::build_type_declaration(&text, &reg), "s: string");
}

#[test]
fn keywords_per_target() {
    let kinds = [
        (TokenType::Char, "char", "rune", "string"),
        (TokenType::Bool, "bool", "bool", "boolean"),
        (TokenType::IntU8, "u8", "uint8", "number"),
        (TokenType::IntI64, "i64", "int64", "number"),
        (TokenType::String, "String", "string", "string"),
        (TokenType::Module, "mod", "", "namespace"),
        (TokenType::Structure, "struct", "struct", "interface"),
        (TokenType::Enumeration, "enum", "", "enum"),
    ];
    for (kind, rs, go, ts) in kinds {
        let t = leaf(kind, None, vec![], "n");
        assert_eq!(<TokenSet as RustGen>::generate_keyword_from_token_type(&t), rs);
        assert_eq!(<TokenSet as GoGen>::generate_keyword_from_token_type(&t), go);
        assert_eq!(<TokenSet as TSGen>::generate_keyword_from_token_type(&t), ts);
    }
    let custom = leaf(TokenType::Custom, Some("Thing"), vec![], "n");
    assert_eq!(<TokenSet as RustGen>::generate_keyword_from_token_type(&custom), "Thing");
}

#[test]
fn field_names_are_case_converted() {
    let reg = empty_registry();
    let field = leaf(TokenType::Bool, None, vec![], "isActiveUser");
    assert_eq!(<TokenSet as RustGen>::build_type_declaration(&field, &reg), "pub is_active_user: bool");
    let snake = leaf(TokenType::Bool, None, vec![], "is_active_user");
    assert_eq!(<TokenSet as TSGen>::build_type_declaration(&snake, &reg), "isActiveUser: boolean");
    assert_eq!(rust_field_declaration(&"given".to_string(), &field, &reg), "pub given: bool");
    assert_eq!(ts_field_declaration(&"given".to_string(), &field, &reg), "given: boolean");
}

#[test]
fn rust_file_for_module_struct_field() {
    let tree = vec![with_children(
        TokenType::Module,
        "M",
        vec![with_children(TokenType::Structure, "S", vec![leaf(TokenType::String, None, vec![], "v")])],
    )];
    let reg = ReusableDeclarations::from_token_sets_vec(&tree);
    let out = <TokenSet as RustGen>::produce_rs_build_in_single_file(&tree, &reg).unwrap();
    assert_eq!(out, "pub mod M {\n    pub struct S {\n        pub v: String\n    }\n}");
}

#[test]
fn rust_file_separators_and_enum_members() {
    let tree = vec![with_children(
        TokenType::Module,
        "App",
        vec![
            with_children(
                TokenType::Structure,
                "User",
                vec![leaf(TokenType::IntU32, None, vec![], "id"), leaf(TokenType::String, None, vec![], "userName")],
            ),
            with_children(
                TokenType::Enumeration,
                "Color",
                vec![leaf(TokenType::Custom, Some("Red"), vec![], "red"), leaf(TokenType::Custom, Some("Blue"), vec![], "blue")],
            ),
        ],
    )];
    let reg = ReusableDeclarations::from_token_sets_vec(&tree);
    let out = <TokenSet as RustGen>::produce_rs_build_in_single_file(&tree, &reg).unwrap();
    assert_eq!(
        out,
        "pub mod App {\n    pub struct User {\n        pub id: u32,\n        pub user_name: String\n    }\n    pub enum Color {\n        Red,\n        Blue\n    }\n}"
    );
}

#[test]
fn ts_file_separators_and_enum_members() {
    let tree = vec![with_children(
        TokenType::Module,
        "App",
        vec![
            with_children(
                TokenType::Structure,
                "User",
                vec![
                    leaf(TokenType::IntU32, None, vec![], "id"),
                    leaf(TokenType::String, None, vec![TokenParameter::Optional], "user_name"),
                ],
            ),
            with_children(
                TokenType::Enumeration,
                "Color",
                vec![leaf(TokenType::Custom, Some("Red"), vec![], "red"), leaf(TokenType::Custom, Some("Blue"), vec![], "blue")],
            ),
        ],
    )];
    let reg = ReusableDeclarations::from_token_sets_vec(&tree);
    let out = <TokenSet as TSGen>::produce_ts_build_in_single_file(&tree, &reg).unwrap();
    assert_eq!(
        out,
        "export namespace App {\n    export interface User {\n        id: number;\n        userName?: string\n    }\n    export enum Color {\n        Red,\n        Blue\n    }\n}"
    );
}

#[test]
fn go_enum_becomes_indexed_constants() {
    let tree = vec![with_children(
        TokenType::Module,
        "App",
        vec![with_children(
            TokenType::Enumeration,
            "Color",
            vec![leaf(TokenType::Custom, Some("Red"), vec![], "red"), leaf(TokenType::Custom, Some("Blue"), vec![], "blue")],
        )],
    )];
    let reg = ReusableDeclarations::from_token_sets_vec(&tree);
    let out = <TokenSet as GoGen>::produce_go_build_in_single_file(&tree, &reg, &"models".to_string()).unwrap();
    assert_eq!(
        out,
        "package models\n\nconst AppColorRed = \"AppColorRed-0\"\nconst AppColorBlue = \"AppColorBlue-1\""
    );
}

#[test]
fn go_struct_is_flattened() {
    let tree = vec![with_children(
        TokenType::Module,
        "M",
        vec![with_children(TokenType::Structure, "S", vec![leaf(TokenType::String, None, vec![], "v")])],
    )];
    let reg = ReusableDeclarations::from_token_sets_vec(&tree);
    let out = <TokenSet as GoGen>::produce_go_build_in_single_file(&tree, &reg, &"p".to_string()).unwrap();
    assert_eq!(out, "package p\n\ntype MS struct {\n    v string\n}");
}

#[test]
fn go_enum_indexes_past_nine() {
    let members: Vec<TokenSet> = (0..12).map(|i| leaf(TokenType::Custom, Some(&format!("V{}", i)), vec![], "m")).collect();
    let tree = vec![with_children(TokenType::Module, "A", vec![with_children(TokenType::Enumeration, "E", members)])];
    let reg = ReusableDeclarations::from_token_sets_vec(&tree);
    let out = <TokenSet as GoGen>::produce_go_build_in_single_file(&tree, &reg, &"p".to_string()).unwrap();
    assert!(out.ends_with("const AEV11 = \"AEV11-11\""));
    assert!(out.contains("const AEV10 = \"AEV10-10\"\n"));
}

#[test]
fn namespaced_targets_reject_root_that_is_not_a_module() {
    let tree = vec![with_children(TokenType::Structure, "S", vec![])];
    let reg = ReusableDeclarations::from_token_sets_vec(&tree);
    assert_eq!(
        <TokenSet as RustGen>::produce_rs_build_in_single_file(&tree, &reg).err().unwrap(),
        "Modules have to be declared before anything."
    );
    assert_eq!(
        <TokenSet as TSGen>::produce_ts_build_in_single_file(&tree, &reg).err().unwrap(),
        "Modules have to be declared before anything."
    );
}

#[test]
fn targets_reject_child_that_is_not_a_declaration() {
    let tree = vec![with_children(TokenType::Module, "M", vec![leaf(TokenType::Bool, None, vec![], "b")])];
    let reg = ReusableDeclarations::from_token_sets_vec(&tree);
    assert_eq!(
        <TokenSet as RustGen>::produce_rs_build_in_single_file(&tree, &reg).err().unwrap(),
        "Structs/Enums have to be defined after modules."
    );
    assert_eq!(
        <TokenSet as TSGen>::produce_ts_build_in_single_file(&tree, &reg).err().unwrap(),
        "Structs/Enums have to be defined after modules."
    );
    assert_eq!(
        <TokenSet as GoGen>::produce_go_build_in_single_file(&tree, &reg, &"p".to_string()).err().unwrap(),
        "Structs have to be defined before types."
    );
}

#[test]
fn go_tolerates_root_that_is_not_a_module() {
    let tree = vec![with_children(
        TokenType::Custom,
        "Loose",
        vec![with_children(TokenType::Structure, "S", vec![leaf(TokenType::Bool, None, vec![], "b")])],
    )];
    let reg = ReusableDeclarations::from_token_sets_vec(&tree);
    let out = <TokenSet as GoGen>::produce_go_build_in_single_file(&tree, &reg, &"p".to_string()).unwrap();
    assert_eq!(out, "package p\n\ntype LooseS struct {\n    b bool\n}");
}

#[test]
fn empty_tree_renders_empty_or_package_only() {
    let tree: Vec<TokenSet> = vec![];
    let reg = ReusableDeclarations::from_token_sets_vec(&tree);
    assert_eq!(<TokenSet as RustGen>::produce_rs_build_in_single_file(&tree, &reg).unwrap(), "");
    assert_eq!(<TokenSet as TSGen>::produce_ts_build_in_single_file(&tree, &reg).unwrap(), "");
    assert_eq!(<TokenSet as GoGen>::produce_go_build_in_single_file(&tree, &reg, &"p".to_string()).unwrap(), "package p\n");
}

#[test]
fn regenerating_gives_identical_text() {
    let tree = two_module_tree("A");
    let reg = ReusableDeclarations::from_token_sets_vec(&tree);
    let a = <TokenSet as RustGen>::produce_rs_build_in_single_file(&tree, &reg).unwrap();
    let b = <TokenSet as RustGen>::produce_rs_build_in_single_file(&tree, &reg).unwrap();
    assert_eq!(a, b);
    let a = <TokenSet as GoGen>::produce_go_build_in_single_file(&tree, &reg, &"p".to_string()).unwrap();
    let b = <TokenSet as GoGen>::produce_go_build_in_single_file(&tree, &reg, &"p".to_string()).unwrap();
    assert_eq!(a, b);
    let a = <TokenSet as TSGen>::produce_ts_build_in_single_file(&tree, &reg).unwrap();
    let b = <TokenSet as TSGen>::produce_ts_build_in_single_file(&tree, &reg).unwrap();
    assert_eq!(a, b);
}
