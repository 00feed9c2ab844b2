//! What the three target generators share: the structural faults that stop
//! generation, and the traits through which each target is reached.

use vstd::prelude::*;
use crate::tokenizer::{entry, is_declaration_kind, module_view, tree_view, ModuleView, TokenSet, TokenType};
use crate::reusability::{Declaration, ReusableDeclarations};
use crate::case::{lower_camel_case_of, snake_case_of};
use crate::rust_target::{rust_field, rust_keyword, rust_output, rust_reference};
use crate::go_target::{go_keyword, go_output, go_type};
use crate::ts_target::{ts_field, ts_keyword, ts_output, ts_reference};

verus! {

/// A tree shape that a target cannot render.
#[derive(Debug, Clone, Copy, PartialEq, Eq, Structural)]
pub enum ShapeFault {
    /// A root is not a module.
    RootNotModule,
    /// A child of a root is neither a struct nor an enum.
    ChildNotDeclaration,
}

/// The fault of one root, if any; a root that is not a module is a fault only
/// where `roots_are_modules` is asked for.
pub open spec fn module_fault(m: ModuleView, roots_are_modules: bool) -> Option<ShapeFault> {
    if roots_are_modules && m.head.kind != TokenType::Module {
        Some(ShapeFault::RootNotModule)
    } else if exists|j: int| 0 <= j < m.decls.len() && !is_declaration_kind(#[trigger] m.decls[j].head.kind) {
        Some(ShapeFault::ChildNotDeclaration)
    } else {
        None
    }
}

/// The first fault met when the roots of `tree` are walked in order.
pub open spec fn tree_fault(tree: Seq<ModuleView>, roots_are_modules: bool) -> Option<ShapeFault>
    decreases tree.len(),
{
    if tree.len() == 0 {
        None
    } else {
        match tree_fault(tree.drop_last(), roots_are_modules) {
            Some(f) => Some(f),
            None => module_fault(tree.last(), roots_are_modules),
        }
    }
}

/// A generator's outcome as texts.
pub open spec fn text_result(r: Result<String, String>) -> Result<Seq<char>, Seq<char>> {
    match r {
        Ok(s) => Ok(s@),
        Err(e) => Err(e@),
    }
}

proof fn lemma_fault_persists(tree: Seq<ModuleView>, roots_are_modules: bool, j: int)
    requires
        0 <= j <= tree.len(),
        tree_fault(tree.take(j), roots_are_modules) is Some,
    ensures
        tree_fault(tree, roots_are_modules) == tree_fault(tree.take(j), roots_are_modules),
    decreases tree.len() - j,
{
    if j < tree.len() {
        assert(tree.take(j + 1).drop_last() =~= tree.take(j));
        lemma_fault_persists(tree, roots_are_modules, j + 1);
    } else {
        assert(tree.take(j) =~= tree);
    }
}

/// The first fault of the tree `source`.
pub fn find_shape_fault(source: &Vec<TokenSet>, roots_are_modules: bool) -> (r: Option<ShapeFault>)
    ensures
        r == tree_fault(tree_view(source@), roots_are_modules),
{
    let ghost tree = tree_view(source@);
    let mut i: usize = 0;
    assert(tree.take(0) =~= Seq::<ModuleView>::empty());
    while i < source.len()
        invariant
            i <= source@.len(),
            tree == tree_view(source@),
            tree_fault(tree.take(i as int), roots_are_modules) is None,
        decreases source@.len() - i,
    {
        let m = &source[i];
        let ghost mv = module_view(*m);
        assert(tree.take(i + 1).drop_last() =~= tree.take(i as int));
        assert(tree.take(i + 1).last() == mv);
        if roots_are_modules && m.token_type != TokenType::Module {
            proof {
                lemma_fault_persists(tree, roots_are_modules, i + 1);
            }
            return Some(ShapeFault::RootNotModule);
        }
        let mut j: usize = 0;
        while j < m.childs.len()
            invariant
                j <= m.childs@.len(),
                i < source@.len(),
                tree == tree_view(source@),
                tree_fault(tree.take(i as int), roots_are_modules) is None,
                tree.take(i + 1).drop_last() == tree.take(i as int),
                tree.take(i + 1).last() == mv,
                !(roots_are_modules && mv.head.kind != TokenType::Module),
                mv == module_view(*m),
                forall|k: int| 0 <= k < j ==> is_declaration_kind(#[trigger] mv.decls[k].head.kind),
            decreases m.childs@.len() - j,
        {
            let c = &m.childs[j];
            assert(mv.decls[j as int].head == entry(*c));
            if c.token_type != TokenType::Structure && c.token_type != TokenType::Enumeration {
                assert(!is_declaration_kind(mv.decls[j as int].head.kind));
                proof {
                    lemma_fault_persists(tree, roots_are_modules, i + 1);
                }
                return Some(ShapeFault::ChildNotDeclaration);
            }
            j = j + 1;
        }
        i = i + 1;
    }
    assert(tree.take(source@.len() as int) =~= tree);
    None
}

} // verus!

verus! {

/// Generates Rust code from a tree.
pub trait RustGen {
    /// The whole file: one `pub mod` per root, or the error of the first
    /// fault of the tree.
    fn produce_rs_build_in_single_file(source: &Vec<TokenSet>, reusability: &ReusableDeclarations) -> (r: Result<String, String>)
        ensures
            text_result(r) == rust_output(tree_view(source@), reusability@),
    ;

    fn generate_keyword_from_token_type(token: &TokenSet) -> (r: String)
        ensures
            r@ == rust_keyword(entry(*token)),
    ;

    /// A field declaration, under the snake_case form of its name.
    fn build_type_declaration(token: &TokenSet, reusability: &ReusableDeclarations) -> (r: String)
        ensures
            r@ == rust_field(snake_case_of(token.token_name@), entry(*token), reusability@),
    ;
}

/// How the Rust target refers to a declaration of another module.
pub trait RustReusability {
    fn produce_reusable_statement_from_struct_or_enum_token(&self) -> (r: String)
        ensures
            r@ == rust_reference(self.declaration_view()),
    ;

    /// The declaration that `self` stands for.
    spec fn declaration_view(&self) -> Declaration;
}

} // verus!

verus! {

/// Generates Go code from a tree.
pub trait GoGen {
    /// The whole file of package `output_package_name`, or the error of the
    /// first fault of the tree.
    fn produce_go_build_in_single_file(source: &Vec<TokenSet>, reusability: &ReusableDeclarations, output_package_name: &String) -> (r: Result<String, String>)
        ensures
            text_result(r) == go_output(tree_view(source@), reusability@, output_package_name@),
    ;

    fn generate_keyword_from_token_type(token: &TokenSet) -> (r: String)
        ensures
            r@ == go_keyword(entry(*token)),
    ;

    /// The type of a field.
    fn build_type_declaration(token: &TokenSet, reusability: &ReusableDeclarations) -> (r: String)
        ensures
            r@ == go_type(entry(*token), reusability@),
    ;
}

} // verus!

verus! {

/// Generates TypeScript code from a tree.
pub trait TSGen {
    /// The whole file: one exported namespace per root, or the error of the
    /// first fault of the tree.
    fn produce_ts_build_in_single_file(source: &Vec<TokenSet>, reusability: &ReusableDeclarations) -> (r: Result<String, String>)
        ensures
            text_result(r) == ts_output(tree_view(source@), reusability@),
    ;

    fn generate_keyword_from_token_type(token: &TokenSet) -> (r: String)
        ensures
            r@ == ts_keyword(entry(*token)),
    ;

    /// A property declaration, under the lowerCamelCase form of its name.
    fn build_type_declaration(token: &TokenSet, reusability: &ReusableDeclarations) -> (r: String)
        ensures
            r@ == ts_field(lower_camel_case_of(token.token_name@), entry(*token), reusability@),
    ;
}

/// How the TypeScript target refers to a declaration of another namespace.
pub trait TSReusability {
    fn produce_reusable_statement_from_struct_or_enum_token(&self) -> (r: String)
        ensures
            r@ == ts_reference(self.declaration_view()),
    ;

    /// The declaration that `self` stands for.
    spec fn declaration_view(&self) -> Declaration;
}

} // verus!
