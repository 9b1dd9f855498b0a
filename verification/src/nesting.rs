//! Resolution of nested type expressions: for every expression built by
//! nesting `List<...>`, `Option<...>`, `Map<String, ...>` and
//! `Map<Enum<X>, ...>` over a primitive leaf, resolution succeeds and yields
//! the type reference mirroring the nesting exactly.

use vstd::prelude::*;

use crate::text::{
    close_pos, comma_pos, delim_pos, is_delim_char, is_space_char, trim_seq,
};
use crate::types::{parse_parts, primitive_name, resolve_map, resolve_type, TypeModel};
use crate::error::ErrorModel;

verus! {

/// A character with no structural meaning in the grammar: not a bracket, not
/// a comma, not whitespace.
pub open spec fn plain_char(c: char) -> bool {
    !is_delim_char(c) && c != ',' && !is_space_char(c)
}

/// A sequence of plain characters, such as a constructor or type name.
pub open spec fn plain_seq(u: Seq<char>) -> bool {
    forall|i: int| 0 <= i < u.len() ==> plain_char(u[i])
}

/// Bracket discipline at depth `d`: a closing bracket only under an open
/// one, and depth zero at the end.
pub open spec fn level(w: Seq<char>, d: int) -> bool
    decreases w.len(),
{
    if w.len() == 0 {
        d == 0
    } else if w[0] == '<' {
        level(w.drop_first(), d + 1)
    } else if w[0] == '>' {
        d >= 1 && level(w.drop_first(), d - 1)
    } else {
        level(w.drop_first(), d)
    }
}

/// No comma at bracket depth zero, scanning from depth `d`.
pub open spec fn no_comma0(w: Seq<char>, d: int) -> bool
    decreases w.len(),
{
    if w.len() == 0 {
        true
    } else if w[0] == '<' {
        no_comma0(w.drop_first(), d + 1)
    } else if w[0] == '>' {
        no_comma0(w.drop_first(), d - 1)
    } else if w[0] == ',' {
        d != 0 && no_comma0(w.drop_first(), d)
    } else {
        no_comma0(w.drop_first(), d)
    }
}

/// A generic application: the constructor name, an open bracket, the inner
/// text, a closing bracket.
pub open spec fn wrap(name: Seq<char>, inner: Seq<char>) -> Seq<char> {
    name + seq!['<'] + inner + seq!['>']
}

proof fn lemma_level_append(w: Seq<char>, v: Seq<char>, a: int, b: int)
    requires
        level(w, a),
        level(v, b),
        b >= 0,
    ensures
        level(w + v, a + b),
    decreases w.len(),
{
    if w.len() == 0 {
        assert(w + v =~= v);
    } else {
        assert((w + v).drop_first() =~= w.drop_first() + v);
        assert((w + v)[0] == w[0]);
        if w[0] == '<' {
            lemma_level_append(w.drop_first(), v, a + 1, b);
        } else if w[0] == '>' {
            lemma_level_append(w.drop_first(), v, a - 1, b);
        } else {
            lemma_level_append(w.drop_first(), v, a, b);
        }
    }
}

proof fn lemma_no_comma_append(w: Seq<char>, v: Seq<char>, a: int, e: int)
    requires
        level(w, a),
        no_comma0(w, a + e),
        no_comma0(v, e),
        a >= 0,
        e >= 0,
    ensures
        no_comma0(w + v, a + e),
    decreases w.len(),
{
    if w.len() == 0 {
        assert(w + v =~= v);
    } else {
        assert((w + v).drop_first() =~= w.drop_first() + v);
        assert((w + v)[0] == w[0]);
        if w[0] == '<' {
            lemma_no_comma_append(w.drop_first(), v, a + 1, e);
        } else if w[0] == '>' {
            lemma_no_comma_append(w.drop_first(), v, a - 1, e);
        } else {
            lemma_no_comma_append(w.drop_first(), v, a, e);
        }
    }
}

proof fn lemma_plain_prefix(u: Seq<char>, v: Seq<char>, d: int)
    requires
        plain_seq(u),
    ensures
        level(u + v, d) == level(v, d),
        no_comma0(u + v, d) == no_comma0(v, d),
        delim_pos(u + v) == u.len() + delim_pos(v),
    decreases u.len(),
{
    if u.len() == 0 {
        assert(u + v =~= v);
    } else {
        assert((u + v).drop_first() =~= u.drop_first() + v);
        assert((u + v)[0] == u[0]);
        assert(plain_char(u[0]));
        assert forall|i: int| 0 <= i < u.drop_first().len() implies plain_char(
            u.drop_first()[i],
        ) by {
            assert(u.drop_first()[i] == u[i + 1]);
        }
        lemma_plain_prefix(u.drop_first(), v, d);
    }
}

/// A plain name on its own keeps every bracket balanced and holds no comma.
proof fn lemma_plain_wf(u: Seq<char>, d: int)
    requires
        plain_seq(u),
    ensures
        level(u, 0),
        no_comma0(u, d),
        delim_pos(u) == u.len(),
    decreases u.len(),
{
    lemma_plain_prefix(u, Seq::empty(), 0);
    lemma_plain_prefix(u, Seq::empty(), d);
    assert(u + Seq::empty() =~= u);
}

proof fn lemma_close_skip(w: Seq<char>, r: Seq<char>, d: int, a: int)
    requires
        level(w, a),
        a >= 0,
        d - a >= 1,
    ensures
        close_pos(w + r, d) == w.len() + close_pos(r, d - a),
    decreases w.len(),
{
    if w.len() == 0 {
        assert(w + r =~= r);
    } else {
        assert((w + r).drop_first() =~= w.drop_first() + r);
        assert((w + r)[0] == w[0]);
        if w[0] == '<' {
            lemma_close_skip(w.drop_first(), r, d + 1, a + 1);
        } else if w[0] == '>' {
            lemma_close_skip(w.drop_first(), r, d - 1, a - 1);
        } else {
            lemma_close_skip(w.drop_first(), r, d, a);
        }
    }
}

proof fn lemma_comma_skip(w: Seq<char>, r: Seq<char>, a: int)
    requires
        level(w, a),
        no_comma0(w, a),
        a >= 0,
    ensures
        comma_pos(w + r, a) == w.len() + comma_pos(r, 0),
    decreases w.len(),
{
    if w.len() == 0 {
        assert(w + r =~= r);
    } else {
        assert((w + r).drop_first() =~= w.drop_first() + r);
        assert((w + r)[0] == w[0]);
        if w[0] == '<' {
            lemma_comma_skip(w.drop_first(), r, a + 1);
        } else if w[0] == '>' {
            lemma_comma_skip(w.drop_first(), r, a - 1);
        } else {
            lemma_comma_skip(w.drop_first(), r, a);
        }
    }
}

/// Splitting a well-bracketed generic application: the constructor name up
/// to the `<`, and the whole bracketed text as the inner argument.
proof fn lemma_parse_wrapped(name: Seq<char>, inner: Seq<char>)
    requires
        plain_seq(name),
        !primitive_name(name),
        level(inner, 0),
    ensures
        parse_parts(wrap(name, inner)) == (name, Some(inner)),
        wrap(name, inner).len() > 0,
{
    let s = wrap(name, inner);
    let tail = seq!['<'] + inner + seq!['>'];
    assert(s =~= name + tail);
    assert(tail[0] == '<');
    lemma_plain_prefix(name, tail, 0);
    assert(delim_pos(s) == name.len() + delim_pos(tail));
    assert(delim_pos(tail) == 0);
    let d = delim_pos(s);
    assert(s.subrange(0, d) =~= name);
    if name.len() > 0 {
        assert(!is_space_char(name[0]));
        assert(!is_space_char(name.last()));
    }
    crate::text::lemma_trim_seq_plain(name);
    assert(s[d] == '<');
    let rest = s.subrange(d + 1, s.len() as int);
    assert(rest =~= inner + seq!['>']);
    lemma_close_skip(inner, seq!['>'], 1, 0);
    assert(close_pos(seq!['>'], 1) == 0);
    assert(close_pos(rest, 1) == inner.len());
    assert(rest.subrange(0, inner.len() as int) =~= inner);
}

/// The distinctness and spelling facts about the constructor names that the
/// resolution lemmas branch on.
proof fn lemma_constructor_names()
    ensures
        plain_seq("String"@),
        plain_seq("Int"@),
        plain_seq("Boolean"@),
        plain_seq("Enum"@),
        plain_seq("List"@),
        plain_seq("Option"@),
        plain_seq("Map"@),
        "Enum"@ != "String"@ && "Enum"@ != "Int"@ && "Enum"@ != "Boolean"@,
        "Enum"@ != "BundleText"@ && "Enum"@ != "BundleImage"@,
        "List"@ != "String"@ && "List"@ != "Int"@ && "List"@ != "Boolean"@,
        "List"@ != "BundleText"@ && "List"@ != "BundleImage"@,
        "List"@ != "Enum"@ && "List"@ != "Object"@,
        "Option"@ != "String"@ && "Option"@ != "Int"@ && "Option"@ != "Boolean"@,
        "Option"@ != "BundleText"@ && "Option"@ != "BundleImage"@,
        "Option"@ != "Enum"@ && "Option"@ != "Object"@ && "Option"@ != "List"@,
        "Map"@ != "String"@ && "Map"@ != "Int"@ && "Map"@ != "Boolean"@,
        "Map"@ != "BundleText"@ && "Map"@ != "BundleImage"@,
        "Map"@ != "Enum"@ && "Map"@ != "Object"@ && "Map"@ != "List"@,
        "Map"@ != "Option"@,
        "Int"@ != "String"@,
        "Boolean"@ != "String"@ && "Boolean"@ != "Int"@,
{
    reveal_strlit("String");
    reveal_strlit("Int");
    reveal_strlit("Boolean");
    reveal_strlit("BundleText");
    reveal_strlit("BundleImage");
    reveal_strlit("Enum");
    reveal_strlit("Object");
    reveal_strlit("List");
    reveal_strlit("Option");
    reveal_strlit("Map");
    assert forall|i: int| 0 <= i < "String"@.len() implies plain_char("String"@[i]) by {
        if i == 0 {
        } else if i == 1 {
        } else if i == 2 {
        } else if i == 3 {
        } else if i == 4 {
        } else {
            assert(i == 5);
        }
    }
    assert forall|i: int| 0 <= i < "Int"@.len() implies plain_char("Int"@[i]) by {
        if i == 0 {
        } else if i == 1 {
        } else {
            assert(i == 2);
        }
    }
    assert forall|i: int| 0 <= i < "Boolean"@.len() implies plain_char("Boolean"@[i]) by {
        if i == 0 {
        } else if i == 1 {
        } else if i == 2 {
        } else if i == 3 {
        } else if i == 4 {
        } else if i == 5 {
        } else {
            assert(i == 6);
        }
    }
    assert forall|i: int| 0 <= i < "Enum"@.len() implies plain_char("Enum"@[i]) by {
        if i == 0 {
        } else if i == 1 {
        } else if i == 2 {
        } else {
            assert(i == 3);
        }
    }
    assert forall|i: int| 0 <= i < "List"@.len() implies plain_char("List"@[i]) by {
        if i == 0 {
        } else if i == 1 {
        } else if i == 2 {
        } else {
            assert(i == 3);
        }
    }
    assert forall|i: int| 0 <= i < "Option"@.len() implies plain_char("Option"@[i]) by {
        if i == 0 {
        } else if i == 1 {
        } else if i == 2 {
        } else if i == 3 {
        } else if i == 4 {
        } else {
            assert(i == 5);
        }
    }
    assert forall|i: int| 0 <= i < "Map"@.len() implies plain_char("Map"@[i]) by {
        if i == 0 {
        } else if i == 1 {
        } else {
            assert(i == 2);
        }
    }
    assert("List"@[0] == 'L' && "Enum"@[0] == 'E');
    assert("Option"@[0] == 'O' && "String"@[0] == 'S');
    assert("Option"@[1] == 'p' && "Object"@[1] == 'b');
    assert("Map"@[0] == 'M' && "Int"@[0] == 'I');
}

/// A primitive name resolves to its leaf.
pub proof fn lemma_resolve_primitive(n: Seq<char>)
    requires
        n == "String"@ || n == "Int"@ || n == "Boolean"@,
    ensures
        n == "String"@ ==> resolve_type(n) == Ok::<TypeModel, ErrorModel>(TypeModel::String),
        n == "Int"@ ==> resolve_type(n) == Ok::<TypeModel, ErrorModel>(TypeModel::Int),
        n == "Boolean"@ ==> resolve_type(n) == Ok::<TypeModel, ErrorModel>(TypeModel::Boolean),
        level(n, 0),
        no_comma0(n, 0),
{
    lemma_constructor_names();
    lemma_plain_wf(n, 0);
    assert(n.subrange(0, n.len() as int) =~= n);
    crate::text::lemma_trim_seq_plain(n);
    assert(parse_parts(n) == (n, Option::<Seq<char>>::None));
}

/// An `Enum<X>` expression with a plain name resolves to `Enum(X)`.
proof fn lemma_resolve_enum_name(n: Seq<char>)
    requires
        plain_seq(n),
    ensures
        resolve_type(wrap("Enum"@, n)) == Ok::<TypeModel, ErrorModel>(TypeModel::Enum(n)),
        level(wrap("Enum"@, n), 0),
        no_comma0(wrap("Enum"@, n), 0),
{
    lemma_constructor_names();
    lemma_plain_wf(n, 0);
    lemma_parse_wrapped("Enum"@, n);
    if n.len() > 0 {
        assert(!is_space_char(n[0]));
        assert(!is_space_char(n.last()));
    }
    crate::text::lemma_trim_seq_plain(n);
    lemma_no_comma_mono(n, 0, 1);
    lemma_wrap_wf("Enum"@, n);
}

/// Starting a comma-safe scan deeper keeps it comma-safe.
proof fn lemma_no_comma_mono(w: Seq<char>, a: int, b: int)
    requires
        level(w, a),
        no_comma0(w, a),
        a >= 0,
        b >= a,
    ensures
        no_comma0(w, b),
    decreases w.len(),
{
    if w.len() == 0 {
    } else if w[0] == '<' {
        lemma_no_comma_mono(w.drop_first(), a + 1, b + 1);
    } else if w[0] == '>' {
        lemma_no_comma_mono(w.drop_first(), a - 1, b - 1);
    } else {
        lemma_no_comma_mono(w.drop_first(), a, b);
    }
}

/// A well-bracketed, comma-free inner text keeps the whole application
/// well-bracketed and comma-free.
proof fn lemma_wrap_wf(name: Seq<char>, inner: Seq<char>)
    requires
        plain_seq(name),
        level(inner, 0),
        no_comma0(inner, 1),
    ensures
        level(wrap(name, inner), 0),
        no_comma0(wrap(name, inner), 0),
{
    let tail = seq!['<'] + inner + seq!['>'];
    assert(level(seq!['>'], 1)) by {
        assert(seq!['>'][0] == '>');
        assert(seq!['>'].len() == 1);
        assert(seq!['>'].drop_first() =~= Seq::<char>::empty());
        assert(level(Seq::<char>::empty(), 0));
    }
    assert(no_comma0(seq!['>'], 1)) by {
        assert(seq!['>'][0] == '>');
        assert(seq!['>'].len() == 1);
        assert(seq!['>'].drop_first() =~= Seq::<char>::empty());
        assert(no_comma0(Seq::<char>::empty(), 0));
    }
    lemma_level_append(inner, seq!['>'], 0, 1);
    lemma_no_comma_append(inner, seq!['>'], 0, 1);
    assert(no_comma0(inner + seq!['>'], 1));
    assert(tail.drop_first() =~= inner + seq!['>']);
    assert(level(tail, 0));
    assert(no_comma0(tail, 0));
    lemma_plain_prefix(name, tail, 0);
    assert(wrap(name, inner) =~= name + tail);
}

/// Resolution ignores leading whitespace: a type expression and the same
/// expression with one leading space resolve identically.
proof fn lemma_resolve_leading_space(w: Seq<char>)
    ensures
        resolve_type(seq![' '] + w) == resolve_type(w),
{
    let s = seq![' '] + w;
    assert(s[0] == ' ');
    assert(s.drop_first() =~= w);
    assert(delim_pos(s) == 1 + delim_pos(w));
    crate::text::lemma_delim_pos(w);
    let dw = delim_pos(w);
    let d = delim_pos(s);
    assert(s.subrange(0, d) =~= seq![' '] + w.subrange(0, dw));
    assert((seq![' '] + w.subrange(0, dw)).drop_first() =~= w.subrange(0, dw));
    assert(trim_seq(s.subrange(0, d)) == trim_seq(w.subrange(0, dw)));
    if dw < w.len() {
        assert(s[d] == w[dw]);
        assert(s.subrange(d + 1, s.len() as int) =~= w.subrange(dw + 1, w.len() as int));
    }
    assert(parse_parts(s) == parse_parts(w));
    assert(resolve_type(s) == resolve_type(w));
}

/// `List<w>` resolves to a list of what `w` resolves to.
pub proof fn lemma_resolve_list(w: Seq<char>, t: TypeModel)
    requires
        level(w, 0),
        no_comma0(w, 0),
        resolve_type(w) == Ok::<TypeModel, ErrorModel>(t),
    ensures
        resolve_type(wrap("List"@, w)) == Ok::<TypeModel, ErrorModel>(
            TypeModel::List(Box::new(t)),
        ),
        level(wrap("List"@, w), 0),
        no_comma0(wrap("List"@, w), 0),
{
    lemma_constructor_names();
    lemma_parse_wrapped("List"@, w);
    lemma_no_comma_mono(w, 0, 1);
    lemma_wrap_wf("List"@, w);
}

/// `Option<w>` resolves to an option of what `w` resolves to.
pub proof fn lemma_resolve_option(w: Seq<char>, t: TypeModel)
    requires
        level(w, 0),
        no_comma0(w, 0),
        resolve_type(w) == Ok::<TypeModel, ErrorModel>(t),
    ensures
        resolve_type(wrap("Option"@, w)) == Ok::<TypeModel, ErrorModel>(
            TypeModel::Option(Box::new(t)),
        ),
        level(wrap("Option"@, w), 0),
        no_comma0(wrap("Option"@, w), 0),
{
    lemma_constructor_names();
    lemma_parse_wrapped("Option"@, w);
    lemma_no_comma_mono(w, 0, 1);
    lemma_wrap_wf("Option"@, w);
}

/// The two comma-separated parts of a map argument, as resolution finds
/// them: the key text before the bracket-level comma, the value text after.
proof fn lemma_map_inner(key: Seq<char>, w: Seq<char>)
    requires
        level(key, 0),
        no_comma0(key, 0),
        level(w, 0),
        no_comma0(w, 0),
    ensures
        ({
            let inner = key + seq![','] + seq![' '] + w;
            &&& comma_pos(inner, 0) == key.len()
            &&& inner.subrange(0, key.len() as int) == key
            &&& inner.subrange(key.len() as int + 1, inner.len() as int) == seq![' '] + w
            &&& comma_pos(seq![' '] + w, 0) == 1 + w.len()
            &&& level(inner, 0)
            &&& no_comma0(inner, 1)
            &&& inner.len() == key.len() + 2 + w.len()
        }),
{
    let inner = key + seq![','] + seq![' '] + w;
    let c_sp_w = seq![','] + seq![' '] + w;
    let sp_w = seq![' '] + w;
    assert(inner =~= key + c_sp_w);
    assert(c_sp_w[0] == ',');
    assert(c_sp_w.drop_first() =~= sp_w);
    assert(sp_w[0] == ' ');
    assert(sp_w.drop_first() =~= w);
    // bracket discipline of the whole argument
    assert(level(sp_w, 0));
    assert(level(c_sp_w, 0));
    lemma_level_append(key, c_sp_w, 0, 0);
    assert(level(inner, 0));
    // the comma splits exactly after the key
    lemma_comma_skip(key, c_sp_w, 0);
    assert(comma_pos(c_sp_w, 0) == 0);
    assert(comma_pos(key + c_sp_w, 0) == key.len());
    assert(comma_pos(inner, 0) == key.len());
    assert(inner.subrange(0, key.len() as int) =~= key);
    assert(inner.subrange(key.len() as int + 1, inner.len() as int) =~= sp_w);
    // and the value part holds no further bracket-level comma
    lemma_comma_skip(w, Seq::empty(), 0);
    assert(w + Seq::empty() =~= w);
    assert(comma_pos(w, 0) == w.len());
    assert(comma_pos(sp_w, 0) == 1 + w.len());
    // commas of the whole argument sit at depth one once it is bracketed
    lemma_no_comma_mono(w, 0, 1);
    assert(no_comma0(sp_w, 1));
    assert(no_comma0(c_sp_w, 1));
    lemma_no_comma_mono(key, 0, 1);
    lemma_no_comma_append(key, c_sp_w, 0, 1);
    assert(no_comma0(inner, 1));
}

/// `Map<String, w>` resolves to a string-keyed map of what `w` resolves to.
pub proof fn lemma_resolve_string_map(w: Seq<char>, t: TypeModel)
    requires
        level(w, 0),
        no_comma0(w, 0),
        resolve_type(w) == Ok::<TypeModel, ErrorModel>(t),
    ensures
        resolve_type(wrap("Map"@, "String"@ + seq![','] + seq![' '] + w)) == Ok::<
            TypeModel,
            ErrorModel,
        >(TypeModel::StringMap(Box::new(t))),
        level(wrap("Map"@, "String"@ + seq![','] + seq![' '] + w), 0),
        no_comma0(wrap("Map"@, "String"@ + seq![','] + seq![' '] + w), 0),
{
    lemma_constructor_names();
    let key = "String"@;
    let inner = key + seq![','] + seq![' '] + w;
    lemma_plain_wf(key, 0);
    lemma_map_inner(key, w);
    lemma_parse_wrapped("Map"@, inner);
    lemma_wrap_wf("Map"@, inner);
    lemma_resolve_primitive(key);
    lemma_resolve_leading_space(w);
    assert(resolve_map(inner) == Ok::<TypeModel, ErrorModel>(TypeModel::StringMap(Box::new(t))));
}

/// `Map<Enum<n>, w>` resolves to an enum-keyed map of what `w` resolves to.
pub proof fn lemma_resolve_enum_map(n: Seq<char>, w: Seq<char>, t: TypeModel)
    requires
        plain_seq(n),
        level(w, 0),
        no_comma0(w, 0),
        resolve_type(w) == Ok::<TypeModel, ErrorModel>(t),
    ensures
        resolve_type(wrap("Map"@, wrap("Enum"@, n) + seq![','] + seq![' '] + w)) == Ok::<
            TypeModel,
            ErrorModel,
        >(TypeModel::EnumMap(Box::new(TypeModel::Enum(n)), Box::new(t))),
        level(wrap("Map"@, wrap("Enum"@, n) + seq![','] + seq![' '] + w), 0),
        no_comma0(wrap("Map"@, wrap("Enum"@, n) + seq![','] + seq![' '] + w), 0),
{
    lemma_constructor_names();
    let key = wrap("Enum"@, n);
    let inner = key + seq![','] + seq![' '] + w;
    lemma_resolve_enum_name(n);
    lemma_map_inner(key, w);
    lemma_parse_wrapped("Map"@, inner);
    lemma_wrap_wf("Map"@, inner);
    lemma_resolve_leading_space(w);
    assert(resolve_map(inner) == Ok::<TypeModel, ErrorModel>(
        TypeModel::EnumMap(Box::new(TypeModel::Enum(n)), Box::new(t)),
    ));
}

/// The ways a nested type expression can be built: a primitive leaf, or a
/// `List`, `Option`, string-keyed map or enum-keyed map around another.
pub enum NestShape {
    StringLeaf,
    IntLeaf,
    BooleanLeaf,
    ListOf(Box<NestShape>),
    OptionOf(Box<NestShape>),
    StringMapOf(Box<NestShape>),
    EnumMapOf(Seq<char>, Box<NestShape>),
}

/// The canonical type-expression string a shape denotes.
pub open spec fn render(sh: NestShape) -> Seq<char>
    decreases sh,
{
    match sh {
        NestShape::StringLeaf => "String"@,
        NestShape::IntLeaf => "Int"@,
        NestShape::BooleanLeaf => "Boolean"@,
        NestShape::ListOf(t) => wrap("List"@, render(*t)),
        NestShape::OptionOf(t) => wrap("Option"@, render(*t)),
        NestShape::StringMapOf(t) => wrap("Map"@, "String"@ + seq![','] + seq![' '] + render(*t)),
        NestShape::EnumMapOf(n, t) => wrap(
            "Map"@,
            wrap("Enum"@, n) + seq![','] + seq![' '] + render(*t),
        ),
    }
}

/// The type reference a shape should resolve to, mirroring its nesting.
pub open spec fn shape_model(sh: NestShape) -> TypeModel
    decreases sh,
{
    match sh {
        NestShape::StringLeaf => TypeModel::String,
        NestShape::IntLeaf => TypeModel::Int,
        NestShape::BooleanLeaf => TypeModel::Boolean,
        NestShape::ListOf(t) => TypeModel::List(Box::new(shape_model(*t))),
        NestShape::OptionOf(t) => TypeModel::Option(Box::new(shape_model(*t))),
        NestShape::StringMapOf(t) => TypeModel::StringMap(Box::new(shape_model(*t))),
        NestShape::EnumMapOf(n, t) => TypeModel::EnumMap(
            Box::new(TypeModel::Enum(n)),
            Box::new(shape_model(*t)),
        ),
    }
}

/// A shape is well formed when every enum-map key name is a plain
/// identifier: no bracket, comma or whitespace characters.
pub open spec fn shape_wf(sh: NestShape) -> bool
    decreases sh,
{
    match sh {
        NestShape::StringLeaf => true,
        NestShape::IntLeaf => true,
        NestShape::BooleanLeaf => true,
        NestShape::ListOf(t) => shape_wf(*t),
        NestShape::OptionOf(t) => shape_wf(*t),
        NestShape::StringMapOf(t) => shape_wf(*t),
        NestShape::EnumMapOf(n, t) => plain_seq(n) && shape_wf(*t),
    }
}

/// For every type-expression string built by nesting `List<...>`,
/// `Option<...>`, `Map<String, ...>` and `Map<Enum<X>, ...>` to any depth
/// over a primitive leaf, resolution succeeds and yields the type reference
/// whose structure mirrors the nesting exactly.
pub proof fn lemma_nested_resolution(sh: NestShape)
    requires
        shape_wf(sh),
    ensures
        resolve_type(render(sh)) == Ok::<TypeModel, ErrorModel>(shape_model(sh)),
        level(render(sh), 0),
        no_comma0(render(sh), 0),
    decreases sh,
{
    match sh {
        NestShape::StringLeaf => {
            lemma_resolve_primitive("String"@);
        },
        NestShape::IntLeaf => {
            lemma_resolve_primitive("Int"@);
        },
        NestShape::BooleanLeaf => {
            lemma_resolve_primitive("Boolean"@);
        },
        NestShape::ListOf(t) => {
            lemma_nested_resolution(*t);
            lemma_resolve_list(render(*t), shape_model(*t));
        },
        NestShape::OptionOf(t) => {
            lemma_nested_resolution(*t);
            lemma_resolve_option(render(*t), shape_model(*t));
        },
        NestShape::StringMapOf(t) => {
            lemma_nested_resolution(*t);
            lemma_resolve_string_map(render(*t), shape_model(*t));
        },
        NestShape::EnumMapOf(n, t) => {
            lemma_nested_resolution(*t);
            lemma_resolve_enum_map(n, render(*t), shape_model(*t));
        },
    }
}

/// A plain name that is not a built-in constructor is rejected as an
/// unrecognized constructor, naming the offending token.
pub proof fn lemma_resolve_plain_name(n: Seq<char>)
    requires
        plain_seq(n),
        !primitive_name(n),
        n != "BundleText"@,
        n != "BundleImage"@,
        n != "Enum"@,
        n != "Object"@,
        n != "List"@,
        n != "Option"@,
        n != "Map"@,
    ensures
        resolve_type(n) == Err::<TypeModel, ErrorModel>(ErrorModel::TypeParsingError(n)),
{
    lemma_plain_wf(n, 0);
    assert(n.subrange(0, n.len() as int) =~= n);
    if n.len() > 0 {
        assert(!is_space_char(n[0]));
        assert(!is_space_char(n.last()));
    }
    crate::text::lemma_trim_seq_plain(n);
    assert(parse_parts(n) == (n, Option::<Seq<char>>::None));
}

} // verus!
