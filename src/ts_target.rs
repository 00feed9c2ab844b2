//! The TypeScript target: each module becomes an exported namespace holding
//! exported interfaces and enums.

use vstd::prelude::*;
use crate::case::{lower_camel_case_of, to_lower_camel_case};
use crate::generator::{find_shape_fault, text_result, tree_fault, ShapeFault, TSGen, TSReusability};
use crate::reusability::{lookup, Declaration, ItemDeclarationDescriptor, Registry, ReusableDeclarations};
use crate::text::{join_lines, join_with_newlines, lemma_views_push, views};
use crate::tokenizer::{
    custom_name, decl_view, entry, has_param, member_label, module_view, tree_view, DeclView, Entry, ModuleView,
    TokenParameter, TokenSet, TokenType,
};

verus! {

pub open spec fn ts_keyword(e: Entry) -> Seq<char> {
    match e.kind {
        TokenType::String | TokenType::Char => "string"@,
        TokenType::IntU8 | TokenType::IntI8 | TokenType::IntU16 | TokenType::IntI16 | TokenType::IntU32
        | TokenType::IntI32 | TokenType::IntU64 | TokenType::IntI64 => "number"@,
        TokenType::Module => "namespace"@,
        TokenType::Structure => "interface"@,
        TokenType::Enumeration => "enum"@,
        TokenType::Bool => "boolean"@,
        TokenType::Custom => custom_name(e),
    }
}

/// A dotted path to a declaration of another namespace.
pub open spec fn ts_reference(d: Declaration) -> Seq<char> {
    d.module + "."@ + d.name
}

/// The field's type: a resolved local reference, else the keyword, then an
/// array. Numbers have one type here, and pointers and references none.
pub open spec fn ts_type(e: Entry, reg: Registry) -> Seq<char> {
    let t1 = if has_param(e, TokenParameter::LocalType) && lookup(reg, custom_name(e)) is Some {
        ts_reference(lookup(reg, custom_name(e))->0)
    } else {
        ts_keyword(e)
    };
    if has_param(e, TokenParameter::Vector) { t1 + "[]"@ } else { t1 }
}

/// A property under the name `field_name`; an optional field is marked `?`.
pub open spec fn ts_field(field_name: Seq<char>, e: Entry, reg: Registry) -> Seq<char> {
    field_name + (if has_param(e, TokenParameter::Optional) { "?: "@ } else { ": "@ }) + ts_type(e, reg)
}

/// The line of the `k`-th child of `d`; all but the last end in the
/// separator, `;` for a property and `,` for an enum member.
pub open spec fn ts_member_line(d: DeclView, k: int, reg: Registry) -> Seq<char> {
    "        "@ + (if d.head.kind == TokenType::Structure {
        ts_field(lower_camel_case_of(d.fields[k].name), d.fields[k], reg)
    } else {
        member_label(d.fields[k])
    }) + (if k + 1 < d.fields.len() {
        if d.head.kind == TokenType::Structure { ";"@ } else { ","@ }
    } else {
        Seq::empty()
    })
}

pub open spec fn ts_decl_lines(d: DeclView, reg: Registry) -> Seq<Seq<char>> {
    seq!["    export "@ + ts_keyword(d.head) + " "@ + d.head.name + " {"@]
        + Seq::new(d.fields.len(), |k: int| ts_member_line(d, k, reg))
        + seq!["    }"@]
}

pub open spec fn ts_decls_lines(ds: Seq<DeclView>, reg: Registry) -> Seq<Seq<char>>
    decreases ds.len(),
{
    if ds.len() == 0 {
        Seq::empty()
    } else {
        ts_decls_lines(ds.drop_last(), reg) + ts_decl_lines(ds.last(), reg)
    }
}

pub open spec fn ts_module_lines(m: ModuleView, reg: Registry) -> Seq<Seq<char>> {
    seq!["export namespace "@ + m.head.name + " {"@] + ts_decls_lines(m.decls, reg) + seq!["}"@]
}

pub open spec fn ts_lines(tree: Seq<ModuleView>, reg: Registry) -> Seq<Seq<char>>
    decreases tree.len(),
{
    if tree.len() == 0 {
        Seq::empty()
    } else {
        ts_lines(tree.drop_last(), reg) + ts_module_lines(tree.last(), reg)
    }
}

/// The TypeScript file for `tree`, or the error for its first fault.
pub open spec fn ts_output(tree: Seq<ModuleView>, reg: Registry) -> Result<Seq<char>, Seq<char>> {
    match tree_fault(tree, true) {
        Some(ShapeFault::RootNotModule) => Err("Modules have to be declared before anything."@),
        Some(ShapeFault::ChildNotDeclaration) => Err("Structs/Enums have to be defined after modules."@),
        None => Ok(join_lines(ts_lines(tree, reg))),
    }
}

/// The TypeScript keyword of a node.
pub fn ts_keyword_text(token: &TokenSet) -> (r: String)
    ensures
        r@ == ts_keyword(entry(*token)),
{
    match token.token_type {
        TokenType::String | TokenType::Char => String::from_str("string"),
        TokenType::IntU8 | TokenType::IntI8 | TokenType::IntU16 | TokenType::IntI16 | TokenType::IntU32
        | TokenType::IntI32 | TokenType::IntU64 | TokenType::IntI64 => String::from_str("number"),
        TokenType::Module => String::from_str("namespace"),
        TokenType::Structure => String::from_str("interface"),
        TokenType::Enumeration => String::from_str("enum"),
        TokenType::Bool => String::from_str("boolean"),
        TokenType::Custom => token.custom_name_text(),
    }
}

/// The TypeScript type of a field.
pub fn ts_type_text(token: &TokenSet, reusability: &ReusableDeclarations) -> (r: String)
    ensures
        r@ == ts_type(entry(*token), reusability@),
{
    let mut found: Option<&ItemDeclarationDescriptor> = None;
    if token.has_parameter(TokenParameter::LocalType) {
        found = reusability.find_declaration_descriptor_with_declaration_name(token.custom_name_text());
    }
    let mut output_type = match found {
        Some(d) => d.produce_reusable_statement_from_struct_or_enum_token(),
        None => ts_keyword_text(token),
    };
    if token.has_parameter(TokenParameter::Vector) {
        output_type.append("[]");
    }
    output_type
}

/// A property declaration under the given, already converted, name.
pub fn ts_field_declaration(field_name: &String, token: &TokenSet, reusability: &ReusableDeclarations) -> (r: String)
    ensures
        r@ == ts_field(field_name@, entry(*token), reusability@),
{
    let mut out = field_name.clone();
    if token.has_parameter(TokenParameter::Optional) {
        out.append("?: ");
    } else {
        out.append(": ");
    }
    let t = ts_type_text(token, reusability);
    out.append(t.as_str());
    out
}

fn push_ts_decl_lines(d: &TokenSet, reusability: &ReusableDeclarations, lines: &mut Vec<String>)
    ensures
        views(final(lines)@) == views(old(lines)@) + ts_decl_lines(decl_view(*d), reusability@),
{
    let ghost dv = decl_view(*d);
    let ghost reg = reusability@;
    let ghost start = views(lines@);
    let mut header = String::from_str("    export ");
    let kw = ts_keyword_text(d);
    header.append(kw.as_str());
    header.append(" ");
    header.append(d.token_name.as_str());
    header.append(" {");
    let ghost hdr = header@;
    proof {
        lemma_views_push(lines@, header);
    }
    lines.push(header);
    let n = d.childs.len();
    let mut k: usize = 0;
    assert(Seq::new(0, |q: int| ts_member_line(dv, q, reg)) =~= Seq::<Seq<char>>::empty());
    assert(start + seq![hdr] + Seq::<Seq<char>>::empty() =~= start + seq![hdr]);
    while k < n
        invariant
            n == d.childs@.len(),
            dv == decl_view(*d),
            reg == reusability@,
            k <= n,
            views(lines@) == start + seq![hdr] + Seq::new(k as nat, |q: int| ts_member_line(dv, q, reg)),
        decreases n - k,
    {
        let f = &d.childs[k];
        assert(dv.fields[k as int] == entry(*f));
        let mut line = String::from_str("        ");
        let structure = d.token_type == TokenType::Structure;
        if structure {
            let name = to_lower_camel_case(&f.token_name);
            let decl = ts_field_declaration(&name, f, reusability);
            line.append(decl.as_str());
        } else {
            let label = f.member_label_text();
            line.append(label.as_str());
        }
        if k + 1 < n {
            if structure {
                line.append(";");
            } else {
                line.append(",");
            }
        }
        assert(line@ =~= ts_member_line(dv, k as int, reg));
        proof {
            lemma_views_push(lines@, line);
        }
        lines.push(line);
        assert(Seq::new((k + 1) as nat, |q: int| ts_member_line(dv, q, reg)) =~= Seq::new(k as nat, |q: int| ts_member_line(dv, q, reg)).push(ts_member_line(dv, k as int, reg)));
        k = k + 1;
    }
    let closing = String::from_str("    }");
    proof {
        lemma_views_push(lines@, closing);
    }
    lines.push(closing);
    assert(views(lines@) =~= start + ts_decl_lines(dv, reg));
}

fn push_ts_module_lines(m: &TokenSet, reusability: &ReusableDeclarations, lines: &mut Vec<String>)
    ensures
        views(final(lines)@) == views(old(lines)@) + ts_module_lines(module_view(*m), reusability@),
{
    let ghost mv = module_view(*m);
    let ghost reg = reusability@;
    let ghost start = views(lines@);
    let mut header = String::from_str("export namespace ");
    header.append(m.token_name.as_str());
    header.append(" {");
    let ghost hdr = header@;
    proof {
        lemma_views_push(lines@, header);
    }
    lines.push(header);
    let mut j: usize = 0;
    assert(mv.decls.take(0) =~= Seq::<DeclView>::empty());
    assert(start + seq![hdr] + Seq::<Seq<char>>::empty() =~= start + seq![hdr]);
    while j < m.childs.len()
        invariant
            mv == module_view(*m),
            reg == reusability@,
            j <= m.childs@.len(),
            views(lines@) == start + seq![hdr] + ts_decls_lines(mv.decls.take(j as int), reg),
        decreases m.childs@.len() - j,
    {
        assert(mv.decls.take(j + 1).drop_last() =~= mv.decls.take(j as int));
        assert(mv.decls.take(j + 1).last() == decl_view(m.childs@[j as int]));
        push_ts_decl_lines(&m.childs[j], reusability, lines);
        assert(views(lines@) =~= start + seq![hdr] + ts_decls_lines(mv.decls.take(j + 1), reg));
        j = j + 1;
    }
    assert(mv.decls.take(m.childs@.len() as int) =~= mv.decls);
    let closing = String::from_str("}");
    proof {
        lemma_views_push(lines@, closing);
    }
    lines.push(closing);
    assert(views(lines@) =~= start + ts_module_lines(mv, reg));
}

/// Renders the whole TypeScript file for the tree `source`.
pub fn ts_file_text(source: &Vec<TokenSet>, reusability: &ReusableDeclarations) -> (r: Result<String, String>)
    ensures
        text_result(r) == ts_output(tree_view(source@), reusability@),
{
    match find_shape_fault(source, true) {
        Some(ShapeFault::RootNotModule) => {
            return Err(String::from_str("Modules have to be declared before anything."));
        },
        Some(ShapeFault::ChildNotDeclaration) => {
            return Err(String::from_str("Structs/Enums have to be defined after modules."));
        },
        None => {},
    }
    let ghost tree = tree_view(source@);
    let ghost reg = reusability@;
    let mut lines: Vec<String> = Vec::new();
    let mut i: usize = 0;
    assert(tree.take(0) =~= Seq::<ModuleView>::empty());
    assert(views(lines@) =~= Seq::<Seq<char>>::empty());
    while i < source.len()
        invariant
            tree == tree_view(source@),
            reg == reusability@,
            i <= source@.len(),
            views(lines@) == ts_lines(tree.take(i as int), reg),
        decreases source@.len() - i,
    {
        assert(tree.take(i + 1).drop_last() =~= tree.take(i as int));
        assert(tree.take(i + 1).last() == module_view(source@[i as int]));
        push_ts_module_lines(&source[i], reusability, &mut lines);
        i = i + 1;
    }
    assert(tree.take(source@.len() as int) =~= tree);
    Ok(join_with_newlines(&lines))
}

impl TSReusability for ItemDeclarationDescriptor {
    open spec fn declaration_view(&self) -> Declaration {
        self@
    }

    fn produce_reusable_statement_from_struct_or_enum_token(&self) -> (r: String) {
        let mut out = self.module_name.clone();
        out.append(".");
        out.append(self.declaration_name.as_str());
        out
    }
}

impl TSGen for TokenSet {
    fn produce_ts_build_in_single_file(source: &Vec<TokenSet>, reusability: &ReusableDeclarations) -> (r: Result<String, String>) {
        ts_file_text(source, reusability)
    }

    fn generate_keyword_from_token_type(token: &TokenSet) -> (r: String) {
        ts_keyword_text(token)
    }

    fn build_type_declaration(token: &TokenSet, reusability: &ReusableDeclarations) -> (r: String) {
        let name = to_lower_camel_case(&token.token_name);
        ts_field_declaration(&name, token, reusability)
    }
}

} // verus!
