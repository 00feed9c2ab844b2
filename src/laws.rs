//! Properties of the classifier and of the generators, proved over their
//! specifications.

use vstd::prelude::*;
use crate::config::transpile_output;
use crate::go_target::go_output;
use crate::reusability::Registry;
use crate::rust_target::rust_output;
use crate::text::{is_blank, visible_count, word_scan, words};
use crate::tokenizer::{keyword_type, line_class, parameters_of, Entry, LineError, ModuleView};
use crate::ts_target::ts_output;

verus! {

/// `w` is a word: not empty, and without blanks.
pub open spec fn is_word(w: Seq<char>) -> bool {
    w.len() > 0 && forall|i: int| 0 <= i < w.len() ==> !is_blank(#[trigger] w[i])
}

proof fn lemma_scan_append_word(s: Seq<char>, w: Seq<char>)
    requires
        forall|i: int| 0 <= i < w.len() ==> !is_blank(#[trigger] w[i]),
    ensures
        word_scan(s + w) == (word_scan(s).0, word_scan(s).1 + w),
        visible_count(s + w) == visible_count(s) + w.len(),
    decreases w.len(),
{
    if w.len() == 0 {
        assert(s + w =~= s);
        assert(word_scan(s).1 + w =~= word_scan(s).1);
    } else {
        let v = w.drop_last();
        assert(forall|i: int| 0 <= i < v.len() ==> !is_blank(#[trigger] v[i])) by {
            assert forall|i: int| 0 <= i < v.len() implies !is_blank(#[trigger] v[i]) by {
                assert(v[i] == w[i]);
            }
        }
        lemma_scan_append_word(s, v);
        assert((s + w).drop_last() =~= s + v);
        assert((s + w).last() == w.last());
        assert((word_scan(s).1 + v).push(w.last()) =~= word_scan(s).1 + w);
    }
}

proof fn lemma_scan_append_blank(s: Seq<char>)
    ensures
        word_scan(s + seq![' ']) == (
            if word_scan(s).1.len() > 0 { word_scan(s).0.push(word_scan(s).1) } else { word_scan(s).0 },
            Seq::<char>::empty(),
        ),
        visible_count(s + seq![' ']) == visible_count(s),
{
    assert((s + seq![' ']).drop_last() =~= s);
    assert((s + seq![' ']).last() == ' ');
}

proof fn lemma_keyword_is_word(k: Seq<char>)
    requires
        keyword_type(k) is Some,
    ensures
        is_word(k),
{
    reveal_strlit("module");
    reveal_strlit("struct");
    reveal_strlit("enum");
    reveal_strlit("string");
    reveal_strlit("char");
    reveal_strlit("int_u8");
    reveal_strlit("int_u16");
    reveal_strlit("int_u32");
    reveal_strlit("int_u64");
    reveal_strlit("int_i8");
    reveal_strlit("int_i16");
    reveal_strlit("int_i32");
    reveal_strlit("int_i64");
    reveal_strlit("bool");
}

/// A line made of a type keyword, one more word and a name declares a node of
/// that keyword's kind, with no literal type word, named by the last word.
pub proof fn lemma_keyword_line(k: Seq<char>, x: Seq<char>, name: Seq<char>)
    requires
        keyword_type(k) is Some,
        is_word(x),
        is_word(name),
    ensures
        line_class(k + " "@ + x + " "@ + name) == Ok::<Option<Entry>, LineError>(Some(Entry {
            kind: keyword_type(k)->0,
            custom: None,
            params: parameters_of(seq![x]),
            name,
        })),
{
    reveal_strlit(" ");
    lemma_keyword_is_word(k);
    let e = Seq::<char>::empty();
    let s1 = e + k;
    let s2 = s1 + seq![' '];
    let s3 = s2 + x;
    let s4 = s3 + seq![' '];
    let s5 = s4 + name;
    assert(word_scan(e) == (Seq::<Seq<char>>::empty(), e));
    lemma_scan_append_word(e, k);
    assert(e + k =~= k);
    assert(e + k =~= s1);
    lemma_scan_append_blank(s1);
    lemma_scan_append_word(s2, x);
    lemma_scan_append_blank(s3);
    lemma_scan_append_word(s4, name);
    assert(s5 =~= k + " "@ + x + " "@ + name);
    let ws = words(s5);
    assert(ws =~= seq![k, x, name]);
    assert(ws.subrange(1, ws.len() - 1) =~= seq![x]);
}

/// Rendering depends on the tree, the registry and the package name alone:
/// the same values give byte-identical text, for every target.
pub proof fn lemma_rendering_is_deterministic(
    tree1: Seq<ModuleView>,
    tree2: Seq<ModuleView>,
    reg1: Registry,
    reg2: Registry,
    package1: Seq<char>,
    package2: Seq<char>,
)
    requires
        tree1 == tree2,
        reg1 == reg2,
        package1 == package2,
    ensures
        rust_output(tree1, reg1) == rust_output(tree2, reg2),
        ts_output(tree1, reg1) == ts_output(tree2, reg2),
        go_output(tree1, reg1, package1) == go_output(tree2, reg2, package2),
{
}

/// Transpiling depends on the target, the package name and the schema text
/// alone.
pub proof fn lemma_transpile_is_deterministic(
    lang: Seq<char>,
    package: Option<Seq<char>>,
    text1: Seq<char>,
    text2: Seq<char>,
)
    requires
        text1 == text2,
    ensures
        transpile_output(lang, package, text1) == transpile_output(lang, package, text2),
{
}

} // verus!
