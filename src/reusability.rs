//! The registry of declared structs and enums, used to resolve a field that
//! refers to another declaration.

use vstd::prelude::*;
use crate::tokenizer::{module_view, tree_view, DeclView, ModuleView, TokenSet, TokenType};

verus! {

/// A struct or enum, with the module that declares it.
#[derive(Debug, Clone)]
pub struct ItemDeclarationDescriptor {
    pub module_name: String,
    pub declaration_name: String,
    pub declaration_type: TokenType,
}

/// Every struct and every enum declared directly under a module, in the
/// order of the tree.
#[derive(Debug, Clone)]
pub struct ReusableDeclarations {
    pub structs: Vec<ItemDeclarationDescriptor>,
    pub enums: Vec<ItemDeclarationDescriptor>,
}

pub struct Declaration {
    pub module: Seq<char>,
    pub name: Seq<char>,
    pub kind: TokenType,
}

pub struct Registry {
    pub structs: Seq<Declaration>,
    pub enums: Seq<Declaration>,
}

impl View for ItemDeclarationDescriptor {
    type V = Declaration;

    open spec fn view(&self) -> Declaration {
        Declaration { module: self.module_name@, name: self.declaration_name@, kind: self.declaration_type }
    }
}

pub open spec fn declaration_views(v: Seq<ItemDeclarationDescriptor>) -> Seq<Declaration> {
    v.map_values(|d: ItemDeclarationDescriptor| d@)
}

impl View for ReusableDeclarations {
    type V = Registry;

    open spec fn view(&self) -> Registry {
        Registry { structs: declaration_views(self.structs@), enums: declaration_views(self.enums@) }
    }
}

/// The declarations of kind `kind` among `ds`, owned by `module`.
pub open spec fn declarations_of_kind(module: Seq<char>, ds: Seq<DeclView>, kind: TokenType) -> Seq<Declaration>
    decreases ds.len(),
{
    if ds.len() == 0 {
        Seq::empty()
    } else {
        declarations_of_kind(module, ds.drop_last(), kind) + if ds.last().head.kind == kind {
            seq![Declaration { module, name: ds.last().head.name, kind }]
        } else {
            Seq::empty()
        }
    }
}

/// The declarations of kind `kind` under the module roots of `tree`.
pub open spec fn declarations(tree: Seq<ModuleView>, kind: TokenType) -> Seq<Declaration>
    decreases tree.len(),
{
    if tree.len() == 0 {
        Seq::empty()
    } else {
        declarations(tree.drop_last(), kind) + if tree.last().head.kind == TokenType::Module {
            declarations_of_kind(tree.last().head.name, tree.last().decls, kind)
        } else {
            Seq::empty()
        }
    }
}

pub open spec fn registry_of(tree: Seq<ModuleView>) -> Registry {
    Registry {
        structs: declarations(tree, TokenType::Structure),
        enums: declarations(tree, TokenType::Enumeration),
    }
}

/// The first of `ds` named `name`.
pub open spec fn first_named(ds: Seq<Declaration>, name: Seq<char>) -> Option<Declaration>
    decreases ds.len(),
{
    if ds.len() == 0 {
        None
    } else if ds[0].name == name {
        Some(ds[0])
    } else {
        first_named(ds.drop_first(), name)
    }
}

/// Resolution of a bare name: the first struct of that name, else the first
/// enum of that name.
pub open spec fn lookup(reg: Registry, name: Seq<char>) -> Option<Declaration> {
    match first_named(reg.structs, name) {
        Some(d) => Some(d),
        None => first_named(reg.enums, name),
    }
}

proof fn lemma_declaration_views_push(v: Seq<ItemDeclarationDescriptor>, d: ItemDeclarationDescriptor)
    ensures
        declaration_views(v.push(d)) == declaration_views(v).push(d@),
{
    assert(declaration_views(v.push(d)) =~= declaration_views(v).push(d@));
}

/// Position of the first descriptor of `ds` named `name`.
fn first_index_named(ds: &Vec<ItemDeclarationDescriptor>, name: &String) -> (r: Option<usize>)
    ensures
        match r {
            Some(i) => i < ds@.len() && first_named(declaration_views(ds@), name@) == Some(ds@[i as int]@),
            None => first_named(declaration_views(ds@), name@) is None,
        },
{
    let ghost all = declaration_views(ds@);
    let mut i: usize = 0;
    assert(all.subrange(0, all.len() as int) =~= all);
    while i < ds.len()
        invariant
            i <= ds@.len(),
            all == declaration_views(ds@),
            first_named(all, name@) == first_named(all.subrange(i as int, all.len() as int), name@),
        decreases ds@.len() - i,
    {
        let ghost rest = all.subrange(i as int, all.len() as int);
        assert(rest[0] == ds@[i as int]@);
        if ds[i].declaration_name == *name {
            return Some(i);
        }
        assert(rest.drop_first() =~= all.subrange(i + 1, all.len() as int));
        i = i + 1;
    }
    None
}

/// Appends to `out` the descriptors of the children of kind `kind` of the
/// module `m`.
fn push_declarations_of_kind(m: &TokenSet, kind: TokenType, out: &mut Vec<ItemDeclarationDescriptor>)
    ensures
        declaration_views(final(out)@) == declaration_views(old(out)@) + declarations_of_kind(
            m.token_name@,
            module_view(*m).decls,
            kind,
        ),
{
    let ghost ds = module_view(*m).decls;
    let ghost start = declaration_views(out@);
    let mut j: usize = 0;
    assert(ds.take(0) =~= Seq::<DeclView>::empty());
    assert(start + Seq::<Declaration>::empty() =~= start);
    while j < m.childs.len()
        invariant
            j <= m.childs@.len(),
            ds == module_view(*m).decls,
            declaration_views(out@) == start + declarations_of_kind(m.token_name@, ds.take(j as int), kind),
        decreases m.childs@.len() - j,
    {
        let child = &m.childs[j];
        assert(ds.take(j + 1).drop_last() =~= ds.take(j as int));
        assert(ds.take(j + 1).last().head.kind == child.token_type);
        assert(ds.take(j + 1).last().head.name == child.token_name@);
        if child.token_type == kind {
            let d = ItemDeclarationDescriptor {
                module_name: m.token_name.clone(),
                declaration_name: child.token_name.clone(),
                declaration_type: child.token_type,
            };
            proof {
                lemma_declaration_views_push(out@, d);
            }
            out.push(d);
        }
        assert(declaration_views(out@) =~= start + declarations_of_kind(m.token_name@, ds.take(j + 1), kind));
        j = j + 1;
    }
    assert(ds.take(m.childs@.len() as int) =~= ds);
}

impl ReusableDeclarations {
    /// Builds the registry of the tree `source`.
    pub fn from_token_sets_vec(source: &Vec<TokenSet>) -> (r: Self)
        ensures
            r@ == registry_of(tree_view(source@)),
    {
        let ghost tree = tree_view(source@);
        let mut output = ReusableDeclarations { structs: Vec::new(), enums: Vec::new() };
        let mut i: usize = 0;
        assert(declaration_views(output.structs@) =~= Seq::<Declaration>::empty());
        assert(declaration_views(output.enums@) =~= Seq::<Declaration>::empty());
        assert(tree.take(0) =~= Seq::<ModuleView>::empty());
        while i < source.len()
            invariant
                i <= source@.len(),
                tree == tree_view(source@),
                declaration_views(output.structs@) == declarations(tree.take(i as int), TokenType::Structure),
                declaration_views(output.enums@) == declarations(tree.take(i as int), TokenType::Enumeration),
            decreases source@.len() - i,
        {
            let token = &source[i];
            assert(tree.take(i + 1).drop_last() =~= tree.take(i as int));
            assert(tree.take(i + 1).last() == module_view(*token));
            if token.token_type == TokenType::Module {
                push_declarations_of_kind(token, TokenType::Structure, &mut output.structs);
                push_declarations_of_kind(token, TokenType::Enumeration, &mut output.enums);
            } else {
                assert(declarations(tree.take(i + 1), TokenType::Structure) =~= declarations(tree.take(i as int), TokenType::Structure));
                assert(declarations(tree.take(i + 1), TokenType::Enumeration) =~= declarations(tree.take(i as int), TokenType::Enumeration));
            }
            i = i + 1;
        }
        assert(tree.take(source@.len() as int) =~= tree);
        output
    }

    /// Resolves a bare name: the first struct of that name, else the first
    /// enum of that name, else nothing.
    pub fn find_declaration_descriptor_with_declaration_name(&self, declaration_name: String) -> (r: Option<&ItemDeclarationDescriptor>)
        ensures
            match r {
                Some(d) => lookup(self@, declaration_name@) == Some(d@),
                None => lookup(self@, declaration_name@) is None,
            },
    {
        match first_index_named(&self.structs, &declaration_name) {
            Some(i) => Some(&self.structs[i]),
            None => match first_index_named(&self.enums, &declaration_name) {
                Some(i) => Some(&self.enums[i]),
                None => None,
            },
        }
    }
}

} // verus!
