//! The Rust target: each module becomes a `pub mod`, each struct or enum a
//! `pub struct` or `pub enum` inside it.

use vstd::prelude::*;
use crate::case::{snake_case_of, to_snake_case};
use crate::generator::{find_shape_fault, text_result, tree_fault, RustGen, RustReusability, ShapeFault};
use crate::reusability::{lookup, Declaration, ItemDeclarationDescriptor, Registry, ReusableDeclarations};
use crate::text::{join_lines, join_with_newlines, lemma_views_push, views};
use crate::tokenizer::{
    custom_name, decl_view, entry, has_param, is_eight_byte_int, is_wide_int, member_label, module_view, tree_view,
    DeclView, Entry, ModuleView, TokenParameter, TokenSet, TokenType,
};

verus! {

pub open spec fn rust_keyword(e: Entry) -> Seq<char> {
    match e.kind {
        TokenType::Char => "char"@,
        TokenType::Bool => "bool"@,
        TokenType::IntU8 => "u8"@,
        TokenType::IntI8 => "i8"@,
        TokenType::Module => "mod"@,
        TokenType::String => "String"@,
        TokenType::IntU16 => "u16"@,
        TokenType::IntI16 => "i16"@,
        TokenType::IntU32 => "u32"@,
        TokenType::IntI32 => "i32"@,
        TokenType::IntU64 => "u64"@,
        TokenType::IntI64 => "i64"@,
        TokenType::Structure => "struct"@,
        TokenType::Enumeration => "enum"@,
        TokenType::Custom => custom_name(e),
    }
}

/// A path to a declaration from inside a sibling module.
pub open spec fn rust_reference(d: Declaration) -> Seq<char> {
    "super::"@ + d.module + "::"@ + d.name
}

/// The type before any wrapping: a resolved local reference, else the
/// floating-point counterpart of a floated wide integer, else the keyword.
pub open spec fn rust_base(e: Entry, reg: Registry) -> Seq<char> {
    if has_param(e, TokenParameter::LocalType) && lookup(reg, custom_name(e)) is Some {
        rust_reference(lookup(reg, custom_name(e))->0)
    } else if has_param(e, TokenParameter::Floated) && is_wide_int(e.kind) {
        if is_eight_byte_int(e.kind) {
            "f64"@
        } else {
            "f32"@
        }
    } else {
        rust_keyword(e)
    }
}

/// The field's type: the base, then `Option`, then a reference, then `Vec`.
pub open spec fn rust_type(e: Entry, reg: Registry) -> Seq<char> {
    let t1 = rust_base(e, reg);
    let t2 = if has_param(e, TokenParameter::Optional) { "Option<"@ + t1 + ">"@ } else { t1 };
    let t3 = if has_param(e, TokenParameter::Pointer) || has_param(e, TokenParameter::Reference) {
        "&"@ + t2
    } else {
        t2
    };
    if has_param(e, TokenParameter::Vector) { "Vec<"@ + t3 + ">"@ } else { t3 }
}

/// A field declaration under the name `field_name`.
pub open spec fn rust_field(field_name: Seq<char>, e: Entry, reg: Registry) -> Seq<char> {
    "pub "@ + field_name + ": "@ + rust_type(e, reg)
}

/// The line of the `k`-th child of `d`; all but the last end in a comma.
pub open spec fn rust_member_line(d: DeclView, k: int, reg: Registry) -> Seq<char> {
    "        "@ + (if d.head.kind == TokenType::Structure {
        rust_field(snake_case_of(d.fields[k].name), d.fields[k], reg)
    } else {
        member_label(d.fields[k])
    }) + (if k + 1 < d.fields.len() { ","@ } else { Seq::empty() })
}

pub open spec fn rust_decl_lines(d: DeclView, reg: Registry) -> Seq<Seq<char>> {
    seq!["    pub "@ + rust_keyword(d.head) + " "@ + d.head.name + " {"@]
        + Seq::new(d.fields.len(), |k: int| rust_member_line(d, k, reg))
        + seq!["    }"@]
}

pub open spec fn rust_decls_lines(ds: Seq<DeclView>, reg: Registry) -> Seq<Seq<char>>
    decreases ds.len(),
{
    if ds.len() == 0 {
        Seq::empty()
    } else {
        rust_decls_lines(ds.drop_last(), reg) + rust_decl_lines(ds.last(), reg)
    }
}

pub open spec fn rust_module_lines(m: ModuleView, reg: Registry) -> Seq<Seq<char>> {
    seq!["pub mod "@ + m.head.name + " {"@] + rust_decls_lines(m.decls, reg) + seq!["}"@]
}

pub open spec fn rust_lines(tree: Seq<ModuleView>, reg: Registry) -> Seq<Seq<char>>
    decreases tree.len(),
{
    if tree.len() == 0 {
        Seq::empty()
    } else {
        rust_lines(tree.drop_last(), reg) + rust_module_lines(tree.last(), reg)
    }
}

/// The Rust file for `tree`, or the error for its first fault.
pub open spec fn rust_output(tree: Seq<ModuleView>, reg: Registry) -> Result<Seq<char>, Seq<char>> {
    match tree_fault(tree, true) {
        Some(ShapeFault::RootNotModule) => Err("Modules have to be declared before anything."@),
        Some(ShapeFault::ChildNotDeclaration) => Err("Structs/Enums have to be defined after modules."@),
        None => Ok(join_lines(rust_lines(tree, reg))),
    }
}

/// The Rust keyword of a node.
pub fn rust_keyword_text(token: &TokenSet) -> (r: String)
    ensures
        r@ == rust_keyword(entry(*token)),
{
    match token.token_type {
        TokenType::Char => String::from_str("char"),
        TokenType::Bool => String::from_str("bool"),
        TokenType::IntU8 => String::from_str("u8"),
        TokenType::IntI8 => String::from_str("i8"),
        TokenType::Module => String::from_str("mod"),
        TokenType::String => String::from_str("String"),
        TokenType::IntU16 => String::from_str("u16"),
        TokenType::IntI16 => String::from_str("i16"),
        TokenType::IntU32 => String::from_str("u32"),
        TokenType::IntI32 => String::from_str("i32"),
        TokenType::IntU64 => String::from_str("u64"),
        TokenType::IntI64 => String::from_str("i64"),
        TokenType::Structure => String::from_str("struct"),
        TokenType::Enumeration => String::from_str("enum"),
        TokenType::Custom => token.custom_name_text(),
    }
}

/// The Rust type of a field.
pub fn rust_type_text(token: &TokenSet, reusability: &ReusableDeclarations) -> (r: String)
    ensures
        r@ == rust_type(entry(*token), reusability@),
{
    let ghost e = entry(*token);
    let mut found: Option<&ItemDeclarationDescriptor> = None;
    if token.has_parameter(TokenParameter::LocalType) {
        found = reusability.find_declaration_descriptor_with_declaration_name(token.custom_name_text());
    }
    let mut output_type = match found {
        Some(d) => d.produce_reusable_statement_from_struct_or_enum_token(),
        None => {
            let wide = token.token_type == TokenType::IntU32 || token.token_type == TokenType::IntI32
                || token.token_type == TokenType::IntU64 || token.token_type == TokenType::IntI64;
            if token.has_parameter(TokenParameter::Floated) && wide {
                if token.token_type == TokenType::IntU64 || token.token_type == TokenType::IntI64 {
                    String::from_str("f64")
                } else {
                    String::from_str("f32")
                }
            } else {
                rust_keyword_text(token)
            }
        },
    };
    assert(output_type@ == rust_base(e, reusability@));
    if token.has_parameter(TokenParameter::Optional) {
        let mut wrapped = String::from_str("Option<");
        wrapped.append(output_type.as_str());
        wrapped.append(">");
        output_type = wrapped;
    }
    if token.has_parameter(TokenParameter::Pointer) || token.has_parameter(TokenParameter::Reference) {
        let mut wrapped = String::from_str("&");
        wrapped.append(output_type.as_str());
        output_type = wrapped;
    }
    if token.has_parameter(TokenParameter::Vector) {
        let mut wrapped = String::from_str("Vec<");
        wrapped.append(output_type.as_str());
        wrapped.append(">");
        output_type = wrapped;
    }
    output_type
}

/// A field declaration under the given, already converted, name.
pub fn rust_field_declaration(field_name: &String, token: &TokenSet, reusability: &ReusableDeclarations) -> (r: String)
    ensures
        r@ == rust_field(field_name@, entry(*token), reusability@),
{
    let mut out = String::from_str("pub ");
    out.append(field_name.as_str());
    out.append(": ");
    let t = rust_type_text(token, reusability);
    out.append(t.as_str());
    out
}

fn push_rust_decl_lines(d: &TokenSet, reusability: &ReusableDeclarations, lines: &mut Vec<String>)
    ensures
        views(final(lines)@) == views(old(lines)@) + rust_decl_lines(decl_view(*d), reusability@),
{
    let ghost dv = decl_view(*d);
    let ghost reg = reusability@;
    let ghost start = views(lines@);
    let mut header = String::from_str("    pub ");
    let kw = rust_keyword_text(d);
    header.append(kw.as_str());
    header.append(" ");
    header.append(d.token_name.as_str());
    header.append(" {");
    let ghost hdr = header@;
    proof {
        lemma_views_push(lines@, header);
    }
    lines.push(header);
    let n = d.childs.len();
    let mut k: usize = 0;
    assert(Seq::new(0, |q: int| rust_member_line(dv, q, reg)) =~= Seq::<Seq<char>>::empty());
    assert(start + seq![hdr] + Seq::<Seq<char>>::empty() =~= start + seq![hdr]);
    while k < n
        invariant
            n == d.childs@.len(),
            dv == decl_view(*d),
            reg == reusability@,
            k <= n,
            views(lines@) == start + seq![hdr] + Seq::new(k as nat, |q: int| rust_member_line(dv, q, reg)),
        decreases n - k,
    {
        let f = &d.childs[k];
        assert(dv.fields[k as int] == entry(*f));
        let mut line = String::from_str("        ");
        if d.token_type == TokenType::Structure {
            let name = to_snake_case(&f.token_name);
            let decl = rust_field_declaration(&name, f, reusability);
            line.append(decl.as_str());
        } else {
            let label = f.member_label_text();
            line.append(label.as_str());
        }
        if k + 1 < n {
            line.append(",");
        }
        assert(line@ =~= rust_member_line(dv, k as int, reg));
        proof {
            lemma_views_push(lines@, line);
        }
        lines.push(line);
        assert(Seq::new((k + 1) as nat, |q: int| rust_member_line(dv, q, reg)) =~= Seq::new(k as nat, |q: int| rust_member_line(dv, q, reg)).push(rust_member_line(dv, k as int, reg)));
        k = k + 1;
    }
    let closing = String::from_str("    }");
    proof {
        lemma_views_push(lines@, closing);
    }
    lines.push(closing);
    assert(views(lines@) =~= start + rust_decl_lines(dv, reg));
}

fn push_rust_module_lines(m: &TokenSet, reusability: &ReusableDeclarations, lines: &mut Vec<String>)
    ensures
        views(final(lines)@) == views(old(lines)@) + rust_module_lines(module_view(*m), reusability@),
{
    let ghost mv = module_view(*m);
    let ghost reg = reusability@;
    let ghost start = views(lines@);
    let mut header = String::from_str("pub mod ");
    header.append(m.token_name.as_str());
    header.append(" {");
    let ghost hdr = header@;
    proof {
        lemma_views_push(lines@, header);
    }
    lines.push(header);
    let mut j: usize = 0;
    assert(mv.decls.take(0) =~= Seq::<DeclView>::empty());
    assert(start + seq![hdr] + Seq::<Seq<char>>::empty() =~= start + seq![hdr]);
    while j < m.childs.len()
        invariant
            mv == module_view(*m),
            reg == reusability@,
            j <= m.childs@.len(),
            views(lines@) == start + seq![hdr] + rust_decls_lines(mv.decls.take(j as int), reg),
        decreases m.childs@.len() - j,
    {
        assert(mv.decls.take(j + 1).drop_last() =~= mv.decls.take(j as int));
        assert(mv.decls.take(j + 1).last() == decl_view(m.childs@[j as int]));
        push_rust_decl_lines(&m.childs[j], reusability, lines);
        assert(views(lines@) =~= start + seq![hdr] + rust_decls_lines(mv.decls.take(j + 1), reg));
        j = j + 1;
    }
    assert(mv.decls.take(m.childs@.len() as int) =~= mv.decls);
    let closing = String::from_str("}");
    proof {
        lemma_views_push(lines@, closing);
    }
    lines.push(closing);
    assert(views(lines@) =~= start + rust_module_lines(mv, reg));
}

/// Renders the whole Rust file for the tree `source`.
pub fn rust_file_text(source: &Vec<TokenSet>, reusability: &ReusableDeclarations) -> (r: Result<String, String>)
    ensures
        text_result(r) == rust_output(tree_view(source@), reusability@),
{
    match find_shape_fault(source, true) {
        Some(ShapeFault::RootNotModule) => {
            return Err(String::from_str("Modules have to be declared before anything."));
        },
        Some(ShapeFault::ChildNotDeclaration) => {
            return Err(String::from_str("Structs/Enums have to be defined after modules."));
        },
        None => {},
    }
    let ghost tree = tree_view(source@);
    let ghost reg = reusability@;
    let mut lines: Vec<String> = Vec::new();
    let mut i: usize = 0;
    assert(tree.take(0) =~= Seq::<ModuleView>::empty());
    assert(views(lines@) =~= Seq::<Seq<char>>::empty());
    while i < source.len()
        invariant
            tree == tree_view(source@),
            reg == reusability@,
            i <= source@.len(),
            views(lines@) == rust_lines(tree.take(i as int), reg),
        decreases source@.len() - i,
    {
        assert(tree.take(i + 1).drop_last() =~= tree.take(i as int));
        assert(tree.take(i + 1).last() == module_view(source@[i as int]));
        push_rust_module_lines(&source[i], reusability, &mut lines);
        i = i + 1;
    }
    assert(tree.take(source@.len() as int) =~= tree);
    Ok(join_with_newlines(&lines))
}

impl RustReusability for ItemDeclarationDescriptor {
    open spec fn declaration_view(&self) -> Declaration {
        self@
    }

    fn produce_reusable_statement_from_struct_or_enum_token(&self) -> (r: String) {
        let mut out = String::from_str("super::");
        out.append(self.module_name.as_str());
        out.append("::");
        out.append(self.declaration_name.as_str());
        out
    }
}

impl RustGen for TokenSet {
    fn produce_rs_build_in_single_file(source: &Vec<TokenSet>, reusability: &ReusableDeclarations) -> (r: Result<String, String>) {
        rust_file_text(source, reusability)
    }

    fn generate_keyword_from_token_type(token: &TokenSet) -> (r: String) {
        rust_keyword_text(token)
    }

    fn build_type_declaration(token: &TokenSet, reusability: &ReusableDeclarations) -> (r: String) {
        let name = to_snake_case(&token.token_name);
        rust_field_declaration(&name, token, reusability)
    }
}

} // verus!
