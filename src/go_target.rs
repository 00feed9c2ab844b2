//! The Go target, which has no modules: a struct's type name is its module's
//! name followed by its own, and each enum member becomes a string constant.

use vstd::prelude::*;
use crate::generator::{find_shape_fault, text_result, tree_fault, GoGen};
use crate::reusability::{lookup, Declaration, Registry, ReusableDeclarations};
use crate::text::{decimal, decimal_text, join_lines, join_with_newlines, lemma_views_push, views};
use crate::tokenizer::{
    custom_name, decl_view, entry, has_param, is_eight_byte_int, is_wide_int, member_label, module_view, tree_view,
    DeclView, Entry, ModuleView, TokenParameter, TokenSet, TokenType,
};

verus! {

pub open spec fn go_keyword(e: Entry) -> Seq<char> {
    match e.kind {
        TokenType::Char => "rune"@,
        TokenType::Bool => "bool"@,
        TokenType::IntU8 => "uint8"@,
        TokenType::IntI8 => "int8"@,
        TokenType::Structure => "struct"@,
        TokenType::String => "string"@,
        TokenType::IntU16 => "uint16"@,
        TokenType::IntU32 => "uint32"@,
        TokenType::IntU64 => "uint64"@,
        TokenType::IntI16 => "int16"@,
        TokenType::IntI32 => "int32"@,
        TokenType::IntI64 => "int64"@,
        TokenType::Custom => custom_name(e),
        _ => Seq::empty(),
    }
}

/// How a field refers to a declaration: a struct by its flattened type name;
/// an enum, which exists only as string constants, as `string`.
pub open spec fn go_reference(d: Declaration) -> Seq<char> {
    if d.kind == TokenType::Enumeration {
        "string"@
    } else {
        d.module + d.name
    }
}

pub open spec fn go_base(e: Entry, reg: Registry) -> Seq<char> {
    if has_param(e, TokenParameter::LocalType) && lookup(reg, custom_name(e)) is Some {
        go_reference(lookup(reg, custom_name(e))->0)
    } else if has_param(e, TokenParameter::Floated) && is_wide_int(e.kind) {
        if is_eight_byte_int(e.kind) {
            "float64"@
        } else {
            "float32"@
        }
    } else {
        go_keyword(e)
    }
}

/// The field's type: the base, then a pointer for an optional field, then a
/// pointer for a pointer or reference, then a slice.
pub open spec fn go_type(e: Entry, reg: Registry) -> Seq<char> {
    let t1 = go_base(e, reg);
    let t2 = if has_param(e, TokenParameter::Optional) { "*"@ + t1 } else { t1 };
    let t3 = if has_param(e, TokenParameter::Pointer) || has_param(e, TokenParameter::Reference) {
        "*"@ + t2
    } else {
        t2
    };
    if has_param(e, TokenParameter::Vector) { "[]"@ + t3 } else { t3 }
}

pub open spec fn go_field_line(f: Entry, reg: Registry) -> Seq<char> {
    "    "@ + f.name + " "@ + go_type(f, reg)
}

/// The constant for the `k`-th member of the enum `d` of the module `m`.
pub open spec fn go_constant_name(m: ModuleView, d: DeclView, k: int) -> Seq<char> {
    m.head.name + d.head.name + member_label(d.fields[k])
}

pub open spec fn go_constant_line(m: ModuleView, d: DeclView, k: int) -> Seq<char> {
    "const "@ + go_constant_name(m, d, k) + " = \""@ + go_constant_name(m, d, k) + "-"@ + decimal(k as nat) + "\""@
}

pub open spec fn go_decl_lines(m: ModuleView, d: DeclView, reg: Registry) -> Seq<Seq<char>> {
    if d.head.kind == TokenType::Structure {
        seq!["type "@ + m.head.name + d.head.name + " "@ + go_keyword(d.head) + " {"@]
            + Seq::new(d.fields.len(), |k: int| go_field_line(d.fields[k], reg))
            + seq!["}"@]
    } else {
        Seq::new(d.fields.len(), |k: int| go_constant_line(m, d, k))
    }
}

pub open spec fn go_decls_lines(m: ModuleView, ds: Seq<DeclView>, reg: Registry) -> Seq<Seq<char>>
    decreases ds.len(),
{
    if ds.len() == 0 {
        Seq::empty()
    } else {
        go_decls_lines(m, ds.drop_last(), reg) + go_decl_lines(m, ds.last(), reg)
    }
}

pub open spec fn go_lines(tree: Seq<ModuleView>, reg: Registry) -> Seq<Seq<char>>
    decreases tree.len(),
{
    if tree.len() == 0 {
        Seq::empty()
    } else {
        go_lines(tree.drop_last(), reg) + go_decls_lines(tree.last(), tree.last().decls, reg)
    }
}

/// The Go file of package `package` for `tree`, or the error for a child of a
/// root that is neither a struct nor an enum.
pub open spec fn go_output(tree: Seq<ModuleView>, reg: Registry, package: Seq<char>) -> Result<Seq<char>, Seq<char>> {
    match tree_fault(tree, false) {
        Some(f) => Err("Structs have to be defined before types."@),
        None => Ok(join_lines(seq!["package "@ + package + "\n"@] + go_lines(tree, reg))),
    }
}

/// The Go keyword of a node.
pub fn go_keyword_text(token: &TokenSet) -> (r: String)
    ensures
        r@ == go_keyword(entry(*token)),
{
    match token.token_type {
        TokenType::Char => String::from_str("rune"),
        TokenType::Bool => String::from_str("bool"),
        TokenType::IntU8 => String::from_str("uint8"),
        TokenType::IntI8 => String::from_str("int8"),
        TokenType::Structure => String::from_str("struct"),
        TokenType::String => String::from_str("string"),
        TokenType::IntU16 => String::from_str("uint16"),
        TokenType::IntU32 => String::from_str("uint32"),
        TokenType::IntU64 => String::from_str("uint64"),
        TokenType::IntI16 => String::from_str("int16"),
        TokenType::IntI32 => String::from_str("int32"),
        TokenType::IntI64 => String::from_str("int64"),
        TokenType::Custom => token.custom_name_text(),
        _ => String::new(),
    }
}

/// The Go type of a field.
pub fn go_type_text(token: &TokenSet, reusability: &ReusableDeclarations) -> (r: String)
    ensures
        r@ == go_type(entry(*token), reusability@),
{
    let ghost e = entry(*token);
    let mut output_type = String::new();
    let mut resolved = false;
    if token.has_parameter(TokenParameter::LocalType) {
        match reusability.find_declaration_descriptor_with_declaration_name(token.custom_name_text()) {
            Some(d) => {
                if d.declaration_type == TokenType::Enumeration {
                    output_type = String::from_str("string");
                } else {
                    output_type = d.module_name.clone();
                    output_type.append(d.declaration_name.as_str());
                }
                resolved = true;
            },
            None => {},
        }
    }
    if !resolved {
        let wide = token.token_type == TokenType::IntU32 || token.token_type == TokenType::IntI32
            || token.token_type == TokenType::IntU64 || token.token_type == TokenType::IntI64;
        if token.has_parameter(TokenParameter::Floated) && wide {
            if token.token_type == TokenType::IntU64 || token.token_type == TokenType::IntI64 {
                output_type = String::from_str("float64");
            } else {
                output_type = String::from_str("float32");
            }
        } else {
            output_type = go_keyword_text(token);
        }
    }
    assert(output_type@ == go_base(e, reusability@));
    if token.has_parameter(TokenParameter::Optional) {
        let mut wrapped = String::from_str("*");
        wrapped.append(output_type.as_str());
        output_type = wrapped;
    }
    if token.has_parameter(TokenParameter::Pointer) || token.has_parameter(TokenParameter::Reference) {
        let mut wrapped = String::from_str("*");
        wrapped.append(output_type.as_str());
        output_type = wrapped;
    }
    if token.has_parameter(TokenParameter::Vector) {
        let mut wrapped = String::from_str("[]");
        wrapped.append(output_type.as_str());
        output_type = wrapped;
    }
    output_type
}

fn push_go_decl_lines(m: &TokenSet, d: &TokenSet, reusability: &ReusableDeclarations, lines: &mut Vec<String>)
    ensures
        views(final(lines)@) == views(old(lines)@) + go_decl_lines(module_view(*m), decl_view(*d), reusability@),
{
    let ghost mv = module_view(*m);
    let ghost dv = decl_view(*d);
    let ghost reg = reusability@;
    let ghost start = views(lines@);
    let n = d.childs.len();
    if d.token_type == TokenType::Structure {
        let mut header = String::from_str("type ");
        header.append(m.token_name.as_str());
        header.append(d.token_name.as_str());
        header.append(" ");
        let kw = go_keyword_text(d);
        header.append(kw.as_str());
        header.append(" {");
        let ghost hdr = header@;
        proof {
            lemma_views_push(lines@, header);
        }
        lines.push(header);
        let mut k: usize = 0;
        assert(Seq::new(0, |q: int| go_field_line(dv.fields[q], reg)) =~= Seq::<Seq<char>>::empty());
        assert(start + seq![hdr] + Seq::<Seq<char>>::empty() =~= start + seq![hdr]);
        while k < n
            invariant
                n == d.childs@.len(),
                dv == decl_view(*d),
                reg == reusability@,
                k <= n,
                views(lines@) == start + seq![hdr] + Seq::new(k as nat, |q: int| go_field_line(dv.fields[q], reg)),
            decreases n - k,
        {
            let f = &d.childs[k];
            assert(dv.fields[k as int] == entry(*f));
            let mut line = String::from_str("    ");
            line.append(f.token_name.as_str());
            line.append(" ");
            let t = go_type_text(f, reusability);
            line.append(t.as_str());
            proof {
                lemma_views_push(lines@, line);
            }
            lines.push(line);
            assert(Seq::new((k + 1) as nat, |q: int| go_field_line(dv.fields[q], reg)) =~= Seq::new(k as nat, |q: int| go_field_line(dv.fields[q], reg)).push(go_field_line(dv.fields[k as int], reg)));
            k = k + 1;
        }
        let closing = String::from_str("}");
        proof {
            lemma_views_push(lines@, closing);
        }
        lines.push(closing);
        assert(views(lines@) =~= start + go_decl_lines(mv, dv, reg));
    } else {
        let mut k: usize = 0;
        assert(start + Seq::new(0, |q: int| go_constant_line(mv, dv, q)) =~= start);
        while k < n
            invariant
                n == d.childs@.len(),
                mv == module_view(*m),
                dv == decl_view(*d),
                k <= n,
                views(lines@) == start + Seq::new(k as nat, |q: int| go_constant_line(mv, dv, q)),
            decreases n - k,
        {
            let f = &d.childs[k];
            assert(dv.fields[k as int] == entry(*f));
            let mut name = m.token_name.clone();
            name.append(d.token_name.as_str());
            let label = f.member_label_text();
            name.append(label.as_str());
            assert(name@ == go_constant_name(mv, dv, k as int));
            let mut line = String::from_str("const ");
            line.append(name.as_str());
            line.append(" = \"");
            line.append(name.as_str());
            line.append("-");
            let index = decimal_text(k);
            line.append(index.as_str());
            line.append("\"");
            proof {
                lemma_views_push(lines@, line);
            }
            lines.push(line);
            assert(Seq::new((k + 1) as nat, |q: int| go_constant_line(mv, dv, q)) =~= Seq::new(k as nat, |q: int| go_constant_line(mv, dv, q)).push(go_constant_line(mv, dv, k as int)));
            k = k + 1;
        }
    }
}

fn push_go_module_lines(m: &TokenSet, reusability: &ReusableDeclarations, lines: &mut Vec<String>)
    ensures
        views(final(lines)@) == views(old(lines)@) + go_decls_lines(module_view(*m), module_view(*m).decls, reusability@),
{
    let ghost mv = module_view(*m);
    let ghost reg = reusability@;
    let ghost start = views(lines@);
    let mut j: usize = 0;
    assert(mv.decls.take(0) =~= Seq::<DeclView>::empty());
    assert(start + Seq::<Seq<char>>::empty() =~= start);
    while j < m.childs.len()
        invariant
            mv == module_view(*m),
            reg == reusability@,
            j <= m.childs@.len(),
            views(lines@) == start + go_decls_lines(mv, mv.decls.take(j as int), reg),
        decreases m.childs@.len() - j,
    {
        assert(mv.decls.take(j + 1).drop_last() =~= mv.decls.take(j as int));
        assert(mv.decls.take(j + 1).last() == decl_view(m.childs@[j as int]));
        push_go_decl_lines(m, &m.childs[j], reusability, lines);
        assert(views(lines@) =~= start + go_decls_lines(mv, mv.decls.take(j + 1), reg));
        j = j + 1;
    }
    assert(mv.decls.take(m.childs@.len() as int) =~= mv.decls);
}

/// Renders the whole Go file of package `package` for the tree `source`.
pub fn go_file_text(source: &Vec<TokenSet>, reusability: &ReusableDeclarations, package: &String) -> (r: Result<String, String>)
    ensures
        text_result(r) == go_output(tree_view(source@), reusability@, package@),
{
    match find_shape_fault(source, false) {
        Some(f) => {
            return Err(String::from_str("Structs have to be defined before types."));
        },
        None => {},
    }
    let ghost tree = tree_view(source@);
    let ghost reg = reusability@;
    let mut lines: Vec<String> = Vec::new();
    let mut header = String::from_str("package ");
    header.append(package.as_str());
    header.append("\n");
    let ghost hdr = header@;
    lines.push(header);
    let mut i: usize = 0;
    assert(tree.take(0) =~= Seq::<ModuleView>::empty());
    assert(views(lines@) =~= seq![hdr] + go_lines(tree.take(0), reg));
    while i < source.len()
        invariant
            tree == tree_view(source@),
            reg == reusability@,
            i <= source@.len(),
            views(lines@) == seq![hdr] + go_lines(tree.take(i as int), reg),
        decreases source@.len() - i,
    {
        assert(tree.take(i + 1).drop_last() =~= tree.take(i as int));
        assert(tree.take(i + 1).last() == module_view(source@[i as int]));
        push_go_module_lines(&source[i], reusability, &mut lines);
        assert(views(lines@) =~= seq![hdr] + go_lines(tree.take(i + 1), reg));
        i = i + 1;
    }
    assert(tree.take(source@.len() as int) =~= tree);
    Ok(join_with_newlines(&lines))
}

impl GoGen for TokenSet {
    fn produce_go_build_in_single_file(source: &Vec<TokenSet>, reusability: &ReusableDeclarations, output_package_name: &String) -> (r: Result<String, String>) {
        go_file_text(source, reusability, output_package_name)
    }

    fn generate_keyword_from_token_type(token: &TokenSet) -> (r: String) {
        go_keyword_text(token)
    }

    fn build_type_declaration(token: &TokenSet, reusability: &ReusableDeclarations) -> (r: String) {
        go_type_text(token, reusability)
    }
}

} // verus!
