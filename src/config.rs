//! What one transpilation asks for, and the work it does on the schema text:
//! lines to nodes, nodes to a tree, the tree to the target's file.

use vstd::prelude::*;
use crate::generator::{find_shape_fault, tree_fault, ShapeFault};
use crate::go_target::{go_file_text, go_output};
use crate::reusability::{registry_of, ReusableDeclarations};
use crate::rust_target::{rust_file_text, rust_output};
use crate::text::{is_comment, lines, split_lines, starts_as_comment, views};
use crate::tokenizer::{
    build_tree, entries, entry, line_class, tree_view, Entry, HierarchyError, LineError, ModuleView,
    TokenSet,
};
use crate::ts_target::{ts_file_text, ts_output};

verus! {

/// One transpilation: the target language (`rs`, `ts` or `go`), the directory
/// of the schema files, the output file, and the package name Go needs.
pub struct CommandLineInstructions {
    pub transpile_to_lang: String,
    pub transpile_dir_path: String,
    pub transpile_to_output: String,
    pub go_module_name: Option<String>,
}

/// The configuration file's content: at most one entry per target.
pub struct TranspilerExternalConfig {
    pub ts: Option<ClassicGeneratorConfig>,
    pub rs: Option<ClassicGeneratorConfig>,
    pub go: Option<GoGeneratorConfig>,
}

/// A target that needs only an output file.
#[derive(Clone)]
pub struct ClassicGeneratorConfig {
    pub output_file: String,
}

/// The Go target, which also needs a package name.
#[derive(Clone)]
pub struct GoGeneratorConfig {
    pub output_file: String,
    pub module_name: String,
}

/// Why a transpilation produced no text.
#[derive(Debug, Clone, Copy, PartialEq, Eq, Structural)]
pub enum TranspileError {
    /// The line at this position (from zero) could not be classified.
    Line(usize, LineError),
    /// The tree cannot be built; the error names the line (from zero) of the
    /// offending node.
    Hierarchy(HierarchyError),
    /// The tree has a shape the target cannot render.
    Generation(ShapeFault),
    /// The target language is none of `rs`, `ts` and `go`.
    UnknownTarget,
    /// The Go target was asked for without a package name.
    MissingPackageName,
}

pub open spec fn is_target_name(lang: Seq<char>) -> bool {
    lang == "rs"@ || lang == "ts"@ || lang == "go"@
}

pub open spec fn option_view(o: Option<String>) -> Option<Seq<char>> {
    match o {
        Some(s) => Some(s@),
        None => None,
    }
}

/// `i` asks for `lang`, reading `dir` and writing `file` inside it.
pub open spec fn instruction_for(
    i: CommandLineInstructions,
    lang: Seq<char>,
    dir: Seq<char>,
    file: Seq<char>,
    package: Option<Seq<char>>,
) -> bool {
    &&& i.transpile_to_lang@ == lang
    &&& i.transpile_dir_path@ == dir
    &&& i.transpile_to_output@ == dir + "/"@ + file
    &&& option_view(i.go_module_name) == package
}

/// The nodes that the lines `ls` declare, comments and short lines left out,
/// or the first line that cannot be classified with its position.
pub open spec fn line_entries(ls: Seq<Seq<char>>) -> Result<Seq<Entry>, (usize, LineError)>
    decreases ls.len(),
{
    if ls.len() == 0 {
        Ok(Seq::empty())
    } else {
        match line_entries(ls.drop_last()) {
            Err(e) => Err(e),
            Ok(es) => if is_comment(ls.last()) {
                Ok(es)
            } else {
                match line_class(ls.last()) {
                    Err(e) => Err(((ls.len() - 1) as usize, e)),
                    Ok(None) => Ok(es),
                    Ok(Some(e)) => Ok(es.push(e)),
                }
            },
        }
    }
}

/// The positions of the lines of `ls` that declare a node, in order.
pub open spec fn line_positions(ls: Seq<Seq<char>>) -> Seq<usize>
    decreases ls.len(),
{
    if ls.len() == 0 {
        Seq::empty()
    } else if !is_comment(ls.last()) && line_class(ls.last()) is Ok && line_class(ls.last())->Ok_0 is Some {
        line_positions(ls.drop_last()).push((ls.len() - 1) as usize)
    } else {
        line_positions(ls.drop_last())
    }
}

/// The hierarchy error `h`, which names the `k`-th node, naming instead the
/// line `positions[k]` that declared it.
pub open spec fn at_line(h: HierarchyError, positions: Seq<usize>) -> HierarchyError {
    match h {
        HierarchyError::DeclarationOutsideModule(k) => HierarchyError::DeclarationOutsideModule(positions[k as int]),
        HierarchyError::FieldOutsideDeclaration(k) => HierarchyError::FieldOutsideDeclaration(positions[k as int]),
    }
}

pub open spec fn hierarchy_index(h: HierarchyError) -> usize {
    match h {
        HierarchyError::DeclarationOutsideModule(k) => k,
        HierarchyError::FieldOutsideDeclaration(k) => k,
    }
}

/// The tree that the schema text `text` describes. A hierarchy error names
/// the line (from zero) of the offending node.
pub open spec fn schema_tree(text: Seq<char>) -> Result<Seq<ModuleView>, TranspileError> {
    match line_entries(lines(text)) {
        Err((i, e)) => Err(TranspileError::Line(i, e)),
        Ok(es) => match build_tree(es) {
            Err(h) => Err(TranspileError::Hierarchy(at_line(h, line_positions(lines(text))))),
            Ok(tree) => Ok(tree),
        },
    }
}

proof fn lemma_build_error_index(es: Seq<Entry>)
    ensures
        build_tree(es) is Err ==> hierarchy_index(build_tree(es)->Err_0) < es.len(),
    decreases es.len(),
{
    if es.len() > 0 {
        lemma_build_error_index(es.drop_last());
    }
}

/// The file that the target `lang` makes of the tree: a shape fault first,
/// then the generator's text.
pub open spec fn target_output(lang: Seq<char>, package: Option<Seq<char>>, tree: Seq<ModuleView>) -> Result<Seq<char>, TranspileError> {
    if lang == "rs"@ {
        match tree_fault(tree, true) {
            Some(f) => Err(TranspileError::Generation(f)),
            None => Ok(rust_output(tree, registry_of(tree))->Ok_0),
        }
    } else if lang == "ts"@ {
        match tree_fault(tree, true) {
            Some(f) => Err(TranspileError::Generation(f)),
            None => Ok(ts_output(tree, registry_of(tree))->Ok_0),
        }
    } else if lang == "go"@ {
        match package {
            None => Err(TranspileError::MissingPackageName),
            Some(p) => match tree_fault(tree, false) {
                Some(f) => Err(TranspileError::Generation(f)),
                None => Ok(go_output(tree, registry_of(tree), p)->Ok_0),
            },
        }
    } else {
        Err(TranspileError::UnknownTarget)
    }
}

pub open spec fn transpile_output(lang: Seq<char>, package: Option<Seq<char>>, text: Seq<char>) -> Result<Seq<char>, TranspileError> {
    match schema_tree(text) {
        Err(e) => Err(e),
        Ok(tree) => target_output(lang, package, tree),
    }
}

pub open spec fn output_result(r: Result<String, TranspileError>) -> Result<Seq<char>, TranspileError> {
    match r {
        Ok(s) => Ok(s@),
        Err(e) => Err(e),
    }
}

proof fn lemma_line_error_persists(ls: Seq<Seq<char>>, j: int)
    requires
        0 <= j <= ls.len(),
        line_entries(ls.take(j)) is Err,
    ensures
        line_entries(ls) == line_entries(ls.take(j)),
    decreases ls.len() - j,
{
    if j < ls.len() {
        assert(ls.take(j + 1).drop_last() =~= ls.take(j));
        lemma_line_error_persists(ls, j + 1);
    } else {
        assert(ls.take(j) =~= ls);
    }
}

/// Classifies every line of `ls` that is not a comment; each node comes with
/// the position of its line.
pub fn tokenize_lines(ls: &Vec<String>) -> (r: Result<(Vec<TokenSet>, Vec<usize>), (usize, LineError)>)
    ensures
        match r {
            Ok((v, ps)) => line_entries(views(ls@)) == Ok::<Seq<Entry>, (usize, LineError)>(entries(v@))
                && ps@ == line_positions(views(ls@)) && ps@.len() == v@.len(),
            Err(e) => line_entries(views(ls@)) == Err::<Seq<Entry>, (usize, LineError)>(e),
        },
{
    let ghost all = views(ls@);
    let mut nodes: Vec<TokenSet> = Vec::new();
    let mut positions: Vec<usize> = Vec::new();
    let mut i: usize = 0;
    assert(all.take(0) =~= Seq::<Seq<char>>::empty());
    assert(entries(nodes@) =~= Seq::<Entry>::empty());
    while i < ls.len()
        invariant
            all == views(ls@),
            i <= ls@.len(),
            line_entries(all.take(i as int)) == Ok::<Seq<Entry>, (usize, LineError)>(entries(nodes@)),
            positions@ == line_positions(all.take(i as int)),
            positions@.len() == nodes@.len(),
        decreases ls@.len() - i,
    {
        let line = &ls[i];
        assert(all.take(i + 1).drop_last() =~= all.take(i as int));
        assert(all.take(i + 1).last() == line@);
        if !starts_as_comment(line.as_str()) {
            match TokenSet::token_set_from_string(line.clone()) {
                Err(e) => {
                    proof {
                        lemma_line_error_persists(all, i + 1);
                    }
                    return Err((i, e));
                },
                Ok(None) => {},
                Ok(Some(t)) => {
                    let ghost before = nodes@;
                    nodes.push(t);
                    positions.push(i);
                    assert(entries(nodes@) =~= entries(before).push(entry(t)));
                },
            }
        }
        i = i + 1;
    }
    assert(all.take(ls@.len() as int) =~= all);
    Ok((nodes, positions))
}

/// Builds the tree that a schema text describes.
pub fn parse_schema(source: &String) -> (r: Result<Vec<TokenSet>, TranspileError>)
    ensures
        match r {
            Ok(v) => schema_tree(source@) == Ok::<Seq<ModuleView>, TranspileError>(tree_view(v@)),
            Err(e) => schema_tree(source@) == Err::<Seq<ModuleView>, TranspileError>(e),
        },
{
    let ls = split_lines(source.as_str());
    match tokenize_lines(&ls) {
        Err((i, e)) => Err(TranspileError::Line(i, e)),
        Ok((nodes, positions)) => {
            let ghost es = entries(nodes@);
            match TokenSet::apply_hierarchy_rules(nodes) {
                Err(h) => {
                    proof {
                        lemma_build_error_index(es);
                    }
                    let located = match h {
                        HierarchyError::DeclarationOutsideModule(k) => HierarchyError::DeclarationOutsideModule(positions[k]),
                        HierarchyError::FieldOutsideDeclaration(k) => HierarchyError::FieldOutsideDeclaration(positions[k]),
                    };
                    Err(TranspileError::Hierarchy(located))
                },
                Ok(tree) => Ok(tree),
            }
        },
    }
}

/// Renders the tree `tree` for the target `lang`.
pub fn render_target(lang: &String, package: &Option<String>, tree: &Vec<TokenSet>) -> (r: Result<String, TranspileError>)
    ensures
        output_result(r) == target_output(lang@, option_view(*package), tree_view(tree@)),
{
    let reusability = ReusableDeclarations::from_token_sets_vec(tree);
    if *lang == String::from_str("rs") {
        match find_shape_fault(tree, true) {
            Some(f) => Err(TranspileError::Generation(f)),
            None => match rust_file_text(tree, &reusability) {
                Ok(text) => Ok(text),
                // A tree without a fault always renders.
                Err(message) => Err(TranspileError::Generation(ShapeFault::RootNotModule)),
            },
        }
    } else if *lang == String::from_str("ts") {
        match find_shape_fault(tree, true) {
            Some(f) => Err(TranspileError::Generation(f)),
            None => match ts_file_text(tree, &reusability) {
                Ok(text) => Ok(text),
                // A tree without a fault always renders.
                Err(message) => Err(TranspileError::Generation(ShapeFault::RootNotModule)),
            },
        }
    } else if *lang == String::from_str("go") {
        match package {
            None => Err(TranspileError::MissingPackageName),
            Some(p) => match find_shape_fault(tree, false) {
                Some(f) => Err(TranspileError::Generation(f)),
                None => match go_file_text(tree, &reusability, p) {
                    Ok(text) => Ok(text),
                    // A tree without a fault always renders.
                    Err(message) => Err(TranspileError::Generation(ShapeFault::ChildNotDeclaration)),
                },
            },
        }
    } else {
        Err(TranspileError::UnknownTarget)
    }
}

impl CommandLineInstructions {
    /// The text of the output file for the schema text `source`: the lines
    /// are classified (comments left out), folded into a tree, and rendered
    /// for the target language.
    pub fn transpile_source(&self, source: &String) -> (r: Result<String, TranspileError>)
        ensures
            output_result(r) == transpile_output(self.transpile_to_lang@, option_view(self.go_module_name), source@),
    {
        match parse_schema(source) {
            Err(e) => Err(e),
            Ok(tree) => render_target(&self.transpile_to_lang, &self.go_module_name, &tree),
        }
    }
}

impl TranspilerExternalConfig {
    /// The transpilation that the configuration asks for `for_lang`, which
    /// reads `dir` and writes the configured file inside it; `None` when the
    /// configuration has no entry for that target.
    pub fn make_command_line_instruction(&self, for_lang: &str, dir: &str) -> (r: Option<CommandLineInstructions>)
        requires
            is_target_name(for_lang@),
        ensures
            for_lang@ == "rs"@ ==> match self.rs {
                None => r is None,
                Some(c) => r matches Some(i) && instruction_for(i, "rs"@, dir@, c.output_file@, None),
            },
            for_lang@ == "ts"@ ==> match self.ts {
                None => r is None,
                Some(c) => r matches Some(i) && instruction_for(i, "ts"@, dir@, c.output_file@, None),
            },
            for_lang@ == "go"@ ==> match self.go {
                None => r is None,
                Some(c) => r matches Some(i) && instruction_for(i, "go"@, dir@, c.output_file@, Some(c.module_name@)),
            },
    {
        proof {
            reveal_strlit("rs");
            reveal_strlit("ts");
            reveal_strlit("go");
            assert("rs"@[0] == 'r' && "ts"@[0] == 't' && "go"@[0] == 'g');
        }
        let lang = String::from_str(for_lang);
        let mut transpile_to_output = String::from_str(dir);
        transpile_to_output.append("/");
        if lang == String::from_str("rs") {
            match &self.rs {
                None => None,
                Some(c) => {
                    transpile_to_output.append(c.output_file.as_str());
                    Some(CommandLineInstructions {
                        transpile_to_lang: String::from_str("rs"),
                        transpile_to_output,
                        transpile_dir_path: String::from_str(dir),
                        go_module_name: None,
                    })
                },
            }
        } else if lang == String::from_str("ts") {
            match &self.ts {
                None => None,
                Some(c) => {
                    transpile_to_output.append(c.output_file.as_str());
                    Some(CommandLineInstructions {
                        transpile_to_lang: String::from_str("ts"),
                        transpile_to_output,
                        transpile_dir_path: String::from_str(dir),
                        go_module_name: None,
                    })
                },
            }
        } else {
            match &self.go {
                None => None,
                Some(c) => {
                    transpile_to_output.append(c.output_file.as_str());
                    Some(CommandLineInstructions {
                        transpile_to_lang: String::from_str("go"),
                        transpile_to_output,
                        transpile_dir_path: String::from_str(dir),
                        go_module_name: Some(c.module_name.clone()),
                    })
                },
            }
        }
    }
}

} // verus!
