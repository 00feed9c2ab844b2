//! The lexical classifier, which turns one line into a node, and the
//! hierarchy builder, which folds the nodes into a three-level tree.

use vstd::prelude::*;
use crate::conditions::{make_rule_set, RuleSet};
use crate::text::{count_visible, split_words, views, visible_count, words};

verus! {

/// The kind of a node.
#[derive(Debug, Clone, Copy, PartialEq, Eq, Structural)]
pub enum TokenType {
    Module,
    Structure,
    Enumeration,
    String,
    Char,
    IntU8,
    IntU16,
    IntU32,
    IntU64,
    IntI8,
    IntI16,
    IntI32,
    IntI64,
    Bool,
    Custom,
}

/// A modifier on a field.
#[derive(Debug, Clone, Copy, PartialEq, Eq, Structural)]
pub enum TokenParameter {
    Floated,
    Pointer,
    Reference,
    Vector,
    Optional,
    LocalType,
}

/// A node of the tree: a module, a struct or enum, or a field.
#[derive(Debug)]
pub struct TokenSet {
    pub token_type: TokenType,
    /// The literal type word of a `Custom` node.
    pub custom_token_type: Option<String>,
    pub parameters: Vec<TokenParameter>,
    pub token_name: String,
    pub childs: Vec<TokenSet>,
}

/// Why a line could not be classified.
#[derive(Debug, Clone, Copy, PartialEq, Eq, Structural)]
pub enum LineError {
    /// The line holds no word at all.
    NoWords,
    /// The line holds a single word, so it declares no name.
    MissingName,
}

/// Why an ordered list of nodes does not form a tree; each variant carries
/// the position of the offending node.
#[derive(Debug, Clone, Copy, PartialEq, Eq, Structural)]
pub enum HierarchyError {
    /// A struct or enum comes before any module.
    DeclarationOutsideModule(usize),
    /// A field comes where no struct or enum is open.
    FieldOutsideDeclaration(usize),
}

/// What a node says of itself, leaving out its children.
pub struct Entry {
    pub kind: TokenType,
    pub custom: Option<Seq<char>>,
    pub params: Seq<TokenParameter>,
    pub name: Seq<char>,
}

/// A struct or enum with its fields.
pub struct DeclView {
    pub head: Entry,
    pub fields: Seq<Entry>,
}

/// A module with its structs and enums.
pub struct ModuleView {
    pub head: Entry,
    pub decls: Seq<DeclView>,
}

pub open spec fn entry(t: TokenSet) -> Entry {
    Entry {
        kind: t.token_type,
        custom: match t.custom_token_type {
            Some(s) => Some(s@),
            None => None,
        },
        params: t.parameters@,
        name: t.token_name@,
    }
}

pub open spec fn entries(v: Seq<TokenSet>) -> Seq<Entry> {
    v.map_values(|t: TokenSet| entry(t))
}

pub open spec fn decl_view(d: TokenSet) -> DeclView {
    DeclView { head: entry(d), fields: entries(d.childs@) }
}

pub open spec fn module_view(m: TokenSet) -> ModuleView {
    ModuleView { head: entry(m), decls: m.childs@.map_values(|d: TokenSet| decl_view(d)) }
}

/// The tree rooted at the nodes `v`, read down to the fields.
pub open spec fn tree_view(v: Seq<TokenSet>) -> Seq<ModuleView> {
    v.map_values(|m: TokenSet| module_view(m))
}

/// The type keywords, in the order in which they are tried.
pub open spec fn keyword_type(w: Seq<char>) -> Option<TokenType> {
    if w == "module"@ {
        Some(TokenType::Module)
    } else if w == "struct"@ {
        Some(TokenType::Structure)
    } else if w == "enum"@ {
        Some(TokenType::Enumeration)
    } else if w == "string"@ {
        Some(TokenType::String)
    } else if w == "char"@ {
        Some(TokenType::Char)
    } else if w == "int_u8"@ {
        Some(TokenType::IntU8)
    } else if w == "int_u16"@ {
        Some(TokenType::IntU16)
    } else if w == "int_u32"@ {
        Some(TokenType::IntU32)
    } else if w == "int_u64"@ {
        Some(TokenType::IntU64)
    } else if w == "int_i8"@ {
        Some(TokenType::IntI8)
    } else if w == "int_i16"@ {
        Some(TokenType::IntI16)
    } else if w == "int_i32"@ {
        Some(TokenType::IntI32)
    } else if w == "int_i64"@ {
        Some(TokenType::IntI64)
    } else if w == "bool"@ {
        Some(TokenType::Bool)
    } else {
        None
    }
}

/// The parameter keywords.
pub open spec fn parameter_of(w: Seq<char>) -> Option<TokenParameter> {
    if w == "vec"@ {
        Some(TokenParameter::Vector)
    } else if w == "floated"@ {
        Some(TokenParameter::Floated)
    } else if w == "pointer"@ {
        Some(TokenParameter::Pointer)
    } else if w == "ref"@ {
        Some(TokenParameter::Reference)
    } else {
        None
    }
}

/// The parameters named by the words `ws`, in order; other words are ignored.
pub open spec fn parameters_of(ws: Seq<Seq<char>>) -> Seq<TokenParameter>
    decreases ws.len(),
{
    if ws.len() == 0 {
        Seq::empty()
    } else {
        parameters_of(ws.drop_last()) + match parameter_of(ws.last()) {
            Some(p) => seq![p],
            None => Seq::empty(),
        }
    }
}

/// The node that a line of two or more words `ws` declares: its kind from the
/// first word, its name from the last, its parameters from those between.
pub open spec fn line_entry(ws: Seq<Seq<char>>) -> Entry {
    Entry {
        kind: match keyword_type(ws[0]) {
            Some(k) => k,
            None => TokenType::Custom,
        },
        custom: match keyword_type(ws[0]) {
            Some(k) => None,
            None => Some(ws[0]),
        },
        params: parameters_of(ws.subrange(1, ws.len() - 1)),
        name: ws.last(),
    }
}

/// What one line classifies to: skipped (`Ok(None)`) when it has fewer than
/// two non-blank characters, else an error unless it has two words or more.
pub open spec fn line_class(line: Seq<char>) -> Result<Option<Entry>, LineError> {
    if visible_count(line) < 2 {
        Ok(None)
    } else if words(line).len() == 0 {
        Err(LineError::NoWords)
    } else if words(line).len() == 1 {
        Err(LineError::MissingName)
    } else {
        Ok(Some(line_entry(words(line))))
    }
}

pub open spec fn class_result(r: Result<Option<TokenSet>, LineError>) -> Result<Option<Entry>, LineError> {
    match r {
        Ok(Some(t)) => Ok(Some(entry(t))),
        Ok(None) => Ok(None),
        Err(e) => Err(e),
    }
}

pub open spec fn is_declaration_kind(k: TokenType) -> bool {
    k == TokenType::Structure || k == TokenType::Enumeration
}

/// Places the node `e` in `tree`: a module opens a new root, a struct or enum
/// goes under the last module, anything else under the last struct or enum
/// of the last module. `None` when that parent does not exist.
pub open spec fn place(tree: Seq<ModuleView>, e: Entry) -> Option<Seq<ModuleView>> {
    if e.kind == TokenType::Module {
        Some(tree.push(ModuleView { head: e, decls: Seq::empty() }))
    } else if tree.len() == 0 {
        None
    } else if is_declaration_kind(e.kind) {
        let m = tree.last();
        Some(tree.update(tree.len() - 1, ModuleView { head: m.head, decls: m.decls.push(DeclView { head: e, fields: Seq::empty() }) }))
    } else if tree.last().decls.len() == 0 {
        None
    } else {
        let m = tree.last();
        let d = m.decls.last();
        Some(tree.update(tree.len() - 1, ModuleView {
            head: m.head,
            decls: m.decls.update(m.decls.len() - 1, DeclView { head: d.head, fields: d.fields.push(e) }),
        }))
    }
}

/// The tree that the nodes `es` form when placed in order, or the error at
/// the first one that has no parent.
pub open spec fn build_tree(es: Seq<Entry>) -> Result<Seq<ModuleView>, HierarchyError>
    decreases es.len(),
{
    if es.len() == 0 {
        Ok(Seq::empty())
    } else {
        match build_tree(es.drop_last()) {
            Err(e) => Err(e),
            Ok(t) => match place(t, es.last()) {
                Some(t2) => Ok(t2),
                None => Err(
                    if is_declaration_kind(es.last().kind) {
                        HierarchyError::DeclarationOutsideModule((es.len() - 1) as usize)
                    } else {
                        HierarchyError::FieldOutsideDeclaration((es.len() - 1) as usize)
                    },
                ),
            },
        }
    }
}

pub open spec fn tree_result(r: Result<Vec<TokenSet>, HierarchyError>) -> Result<Seq<ModuleView>, HierarchyError> {
    match r {
        Ok(v) => Ok(tree_view(v@)),
        Err(e) => Err(e),
    }
}

proof fn lemma_build_error_persists(es: Seq<Entry>, j: int)
    requires
        0 <= j <= es.len(),
        build_tree(es.take(j)) is Err,
    ensures
        build_tree(es) == build_tree(es.take(j)),
    decreases es.len() - j,
{
    if j < es.len() {
        assert(es.take(j + 1).drop_last() =~= es.take(j));
        lemma_build_error_persists(es, j + 1);
    } else {
        assert(es.take(j) =~= es);
    }
}

/// Enough of each type keyword to tell them apart.
proof fn lemma_type_keywords()
    ensures
        "module"@.len() == 6,
        "module"@[0] == 'm',
        "module"@[3] == 'u',
        "module"@[4] == 'l',
        "module"@[5] == 'e',
        "struct"@.len() == 6,
        "struct"@[0] == 's',
        "struct"@[3] == 'u',
        "struct"@[4] == 'c',
        "struct"@[5] == 't',
        "enum"@.len() == 4,
        "enum"@[0] == 'e',
        "enum"@[3] == 'm',
        "string"@.len() == 6,
        "string"@[0] == 's',
        "string"@[3] == 'i',
        "string"@[4] == 'n',
        "string"@[5] == 'g',
        "char"@.len() == 4,
        "char"@[0] == 'c',
        "char"@[3] == 'r',
        "int_u8"@.len() == 6,
        "int_u8"@[0] == 'i',
        "int_u8"@[3] == '_',
        "int_u8"@[4] == 'u',
        "int_u8"@[5] == '8',
        "int_u16"@.len() == 7,
        "int_u16"@[0] == 'i',
        "int_u16"@[3] == '_',
        "int_u16"@[4] == 'u',
        "int_u16"@[5] == '1',
        "int_u32"@.len() == 7,
        "int_u32"@[0] == 'i',
        "int_u32"@[3] == '_',
        "int_u32"@[4] == 'u',
        "int_u32"@[5] == '3',
        "int_u64"@.len() == 7,
        "int_u64"@[0] == 'i',
        "int_u64"@[3] == '_',
        "int_u64"@[4] == 'u',
        "int_u64"@[5] == '6',
        "int_i8"@.len() == 6,
        "int_i8"@[0] == 'i',
        "int_i8"@[3] == '_',
        "int_i8"@[4] == 'i',
        "int_i8"@[5] == '8',
        "int_i16"@.len() == 7,
        "int_i16"@[0] == 'i',
        "int_i16"@[3] == '_',
        "int_i16"@[4] == 'i',
        "int_i16"@[5] == '1',
        "int_i32"@.len() == 7,
        "int_i32"@[0] == 'i',
        "int_i32"@[3] == '_',
        "int_i32"@[4] == 'i',
        "int_i32"@[5] == '3',
        "int_i64"@.len() == 7,
        "int_i64"@[0] == 'i',
        "int_i64"@[3] == '_',
        "int_i64"@[4] == 'i',
        "int_i64"@[5] == '6',
        "bool"@.len() == 4,
        "bool"@[0] == 'b',
        "bool"@[3] == 'l',
{
    reveal_strlit("module");
    reveal_strlit("struct");
    reveal_strlit("enum");
    reveal_strlit("string");
    reveal_strlit("char");
    reveal_strlit("int_u8");
    reveal_strlit("int_u16");
    reveal_strlit("int_u32");
    reveal_strlit("int_u64");
    reveal_strlit("int_i8");
    reveal_strlit("int_i16");
    reveal_strlit("int_i32");
    reveal_strlit("int_i64");
    reveal_strlit("bool");
}

/// Enough of each parameter keyword to tell them apart.
proof fn lemma_parameter_keywords()
    ensures
        "vec"@.len() == 3,
        "vec"@[0] == 'v',
        "floated"@.len() == 7,
        "floated"@[0] == 'f',
        "floated"@[3] == 'a',
        "floated"@[4] == 't',
        "floated"@[5] == 'e',
        "pointer"@.len() == 7,
        "pointer"@[0] == 'p',
        "pointer"@[3] == 'n',
        "pointer"@[4] == 't',
        "pointer"@[5] == 'e',
        "ref"@.len() == 3,
        "ref"@[0] == 'r',
{
    reveal_strlit("vec");
    reveal_strlit("floated");
    reveal_strlit("pointer");
    reveal_strlit("ref");
}

/// The kind named by a first word.
fn classify_type_word(word: String) -> (r: RuleSet<TokenType, String>)
    ensures
        r.value == keyword_type(word@),
        r.to_compare == word,
{
    proof {
        lemma_type_keywords();
    }
    let mut token_type = make_rule_set::<TokenType, String>(word);
    token_type.exec_rule(TokenType::Module, String::from_str("module"));
    token_type.exec_rule(TokenType::Structure, String::from_str("struct"));
    token_type.exec_rule(TokenType::Enumeration, String::from_str("enum"));
    token_type.exec_rule(TokenType::String, String::from_str("string"));
    token_type.exec_rule(TokenType::Char, String::from_str("char"));
    token_type.exec_rule(TokenType::IntU8, String::from_str("int_u8"));
    token_type.exec_rule(TokenType::IntU16, String::from_str("int_u16"));
    token_type.exec_rule(TokenType::IntU32, String::from_str("int_u32"));
    token_type.exec_rule(TokenType::IntU64, String::from_str("int_u64"));
    token_type.exec_rule(TokenType::IntI8, String::from_str("int_i8"));
    token_type.exec_rule(TokenType::IntI16, String::from_str("int_i16"));
    token_type.exec_rule(TokenType::IntI32, String::from_str("int_i32"));
    token_type.exec_rule(TokenType::IntI64, String::from_str("int_i64"));
    token_type.exec_rule(TokenType::Bool, String::from_str("bool"));
    token_type
}

/// The parameter named by a word, if any.
fn classify_parameter_word(word: String) -> (r: Option<TokenParameter>)
    ensures
        r == parameter_of(word@),
{
    proof {
        lemma_parameter_keywords();
    }
    let mut rule_set = make_rule_set::<TokenParameter, String>(word);
    rule_set.exec_rule(TokenParameter::Vector, String::from_str("vec"));
    rule_set.exec_rule(TokenParameter::Floated, String::from_str("floated"));
    rule_set.exec_rule(TokenParameter::Pointer, String::from_str("pointer"));
    rule_set.exec_rule(TokenParameter::Reference, String::from_str("ref"));
    rule_set.value
}

impl TokenSet {
    /// Classifies one line. A line with fewer than two non-blank characters
    /// is skipped (`Ok(None)`); otherwise it must hold at least two words.
    pub fn token_set_from_string(line: String) -> (r: Result<Option<TokenSet>, LineError>)
        ensures
            class_result(r) == line_class(line@),
            r matches Ok(Some(t)) ==> t.childs@.len() == 0,
    {
        if count_visible(line.as_str()) < 2 {
            return Ok(None);
        }
        let mut tokens = split_words(line.as_str());
        let ghost ws = words(line@);
        assert(views(tokens@) == ws);
        if tokens.len() < 1 {
            return Err(LineError::NoWords);
        }
        if tokens.len() < 2 {
            return Err(LineError::MissingName);
        }
        assert(tokens@[0]@ == ws[0]);
        let token_type = classify_type_word(tokens[0].clone());

        let mut token_parameters: Vec<TokenParameter> = Vec::new();
        let last = tokens.len() - 1;
        let mut i: usize = 1;
        while i < last
            invariant
                1 <= i <= last,
                last == tokens@.len() - 1,
                views(tokens@) == ws,
                token_parameters@ == parameters_of(ws.subrange(1, i as int)),
            decreases last - i,
        {
            assert(ws.subrange(1, i + 1).drop_last() =~= ws.subrange(1, i as int));
            assert(tokens@[i as int]@ == ws[i as int]);
            let p = classify_parameter_word(tokens[i].clone());
            match p {
                Some(p) => {
                    token_parameters.push(p);
                },
                None => {},
            }
            assert(token_parameters@ =~= parameters_of(ws.subrange(1, i + 1)));
            i = i + 1;
        }
        let token_name = tokens.pop().unwrap();
        assert(token_name@ == ws.last());
        let (final_token_type, custom_token_type) = match token_type.value {
            Some(k) => (k, None),
            None => (TokenType::Custom, Some(token_type.to_compare)),
        };
        let t = TokenSet {
            token_type: final_token_type,
            custom_token_type,
            parameters: token_parameters,
            token_name,
            childs: Vec::new(),
        };
        assert(entry(t) == line_entry(ws));
        Ok(Some(t))
    }

    /// Folds the nodes, in order, into a tree of modules, structs and enums,
    /// and fields. The children a node already had are dropped: the tree
    /// depends on the order of the nodes alone.
    pub fn apply_hierarchy_rules(tokens_vec: Vec<TokenSet>) -> (r: Result<Vec<TokenSet>, HierarchyError>)
        ensures
            tree_result(r) == build_tree(entries(tokens_vec@)),
    {
        let ghost input = tokens_vec@;
        let ghost es = entries(input);
        let n = tokens_vec.len();
        let mut rest = tokens_vec;
        let mut output: Vec<TokenSet> = Vec::new();
        let mut i: usize = 0;
        assert(es.take(0) =~= Seq::<Entry>::empty());
        assert(tree_view(output@) =~= Seq::<ModuleView>::empty());
        while i < n
            invariant
                n == input.len(),
                input == tokens_vec@,
                es == entries(input),
                i <= n,
                rest@ == input.subrange(i as int, n as int),
                build_tree(es.take(i as int)) == Ok::<Seq<ModuleView>, HierarchyError>(tree_view(output@)),
            decreases n - i,
        {
            let ghost tree = tree_view(output@);
            let mut token = rest.remove(0);
            assert(token == input[i as int]);
            token.childs = Vec::new();
            let ghost e = entry(token);
            assert(e == es[i as int]);
            assert(es.take(i + 1).drop_last() =~= es.take(i as int));
            assert(es.take(i + 1).last() == e);
            assert(rest@ =~= input.subrange(i + 1, n as int));
            match token.token_type {
                TokenType::Module => {
                    assert(module_view(token) == ModuleView { head: e, decls: Seq::empty() }) by {
                        assert(token.childs@.map_values(|d: TokenSet| decl_view(d)) =~= Seq::<DeclView>::empty());
                    }
                    output.push(token);
                    assert(tree_view(output@) =~= tree.push(ModuleView { head: e, decls: Seq::empty() }));
                },
                TokenType::Structure | TokenType::Enumeration => {
                    if output.len() == 0 {
                        assert(build_tree(es.take(i + 1)) == Err::<Seq<ModuleView>, HierarchyError>(HierarchyError::DeclarationOutsideModule(i)));
                        proof {
                            lemma_build_error_persists(es, i + 1);
                        }
                        return Err(HierarchyError::DeclarationOutsideModule(i));
                    }
                    let mut m = output.pop().unwrap();
                    let ghost mv = module_view(m);
                    assert(mv == tree.last());
                    assert(decl_view(token) == DeclView { head: e, fields: Seq::empty() }) by {
                        assert(entries(token.childs@) =~= Seq::<Entry>::empty());
                    }
                    m.childs.push(token);
                    assert(module_view(m).decls =~= mv.decls.push(DeclView { head: e, fields: Seq::empty() }));
                    output.push(m);
                    assert(tree_view(output@) =~= tree.update(tree.len() - 1, ModuleView { head: mv.head, decls: mv.decls.push(DeclView { head: e, fields: Seq::empty() }) }));
                },
                _ => {
                    if output.len() == 0 {
                        assert(build_tree(es.take(i + 1)) == Err::<Seq<ModuleView>, HierarchyError>(HierarchyError::FieldOutsideDeclaration(i)));
                        proof {
                            lemma_build_error_persists(es, i + 1);
                        }
                        return Err(HierarchyError::FieldOutsideDeclaration(i));
                    }
                    let mut m = output.pop().unwrap();
                    let ghost mv = module_view(m);
                    assert(mv == tree.last());
                    if m.childs.len() == 0 {
                        assert(build_tree(es.take(i + 1)) == Err::<Seq<ModuleView>, HierarchyError>(HierarchyError::FieldOutsideDeclaration(i)));
                        proof {
                            lemma_build_error_persists(es, i + 1);
                        }
                        return Err(HierarchyError::FieldOutsideDeclaration(i));
                    }
                    let mut d = m.childs.pop().unwrap();
                    let ghost dv = decl_view(d);
                    assert(dv == mv.decls.last());
                    d.childs.push(token);
                    assert(decl_view(d).fields =~= dv.fields.push(e));
                    m.childs.push(d);
                    assert(module_view(m).decls =~= mv.decls.update(mv.decls.len() - 1, DeclView { head: dv.head, fields: dv.fields.push(e) }));
                    output.push(m);
                    assert(tree_view(output@) =~= tree.update(tree.len() - 1, ModuleView {
                        head: mv.head,
                        decls: mv.decls.update(mv.decls.len() - 1, DeclView { head: dv.head, fields: dv.fields.push(e) }),
                    }));
                },
            }
            i = i + 1;
        }
        assert(es.take(n as int) =~= es);
        Ok(output)
    }
}

} // verus!

verus! {

/// The literal type word of a node, empty when it has none.
pub open spec fn custom_name(e: Entry) -> Seq<char> {
    match e.custom {
        Some(c) => c,
        None => Seq::empty(),
    }
}

/// How an enum member is written: its literal type word, or its declared
/// name when it has no such word.
pub open spec fn member_label(e: Entry) -> Seq<char> {
    match e.custom {
        Some(c) => c,
        None => e.name,
    }
}

pub open spec fn has_param(e: Entry, p: TokenParameter) -> bool {
    e.params.contains(p)
}

/// The four- and eight-byte integer kinds, which have a floating-point
/// counterpart.
pub open spec fn is_wide_int(k: TokenType) -> bool {
    k == TokenType::IntU32 || k == TokenType::IntI32 || k == TokenType::IntU64 || k == TokenType::IntI64
}

pub open spec fn is_eight_byte_int(k: TokenType) -> bool {
    k == TokenType::IntU64 || k == TokenType::IntI64
}

impl TokenSet {
    /// Whether the node carries the parameter `p`.
    pub fn has_parameter(&self, p: TokenParameter) -> (r: bool)
        ensures
            r == has_param(entry(*self), p),
    {
        let mut i: usize = 0;
        while i < self.parameters.len()
            invariant
                i <= self.parameters@.len(),
                forall|j: int| 0 <= j < i ==> self.parameters@[j] != p,
            decreases self.parameters@.len() - i,
        {
            if self.parameters[i] == p {
                return true;
            }
            i = i + 1;
        }
        false
    }

    /// The literal type word, empty when there is none.
    pub fn custom_name_text(&self) -> (r: String)
        ensures
            r@ == custom_name(entry(*self)),
    {
        match &self.custom_token_type {
            Some(c) => c.clone(),
            None => String::new(),
        }
    }

    /// The text that names this node as an enum member.
    pub fn member_label_text(&self) -> (r: String)
        ensures
            r@ == member_label(entry(*self)),
    {
        match &self.custom_token_type {
            Some(c) => c.clone(),
            None => self.token_name.clone(),
        }
    }
}

} // verus!
