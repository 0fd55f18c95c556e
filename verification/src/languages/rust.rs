use vstd::prelude::*;

use crate::languages::{
    TypeSection, lemma_depth_concat, lemma_depth_one, lemma_depth_push, lemma_print_concat,
    lemma_print_one, lemma_print_push, print, spec_depth, spec_line, spec_print,
};
use crate::schema_types::{
    EnumValue, Field, InputValue, Type, TypeKind, wf_declaration, wf_field, wf_input_value,
    wf_resolvable, wf_types,
};

verus! {

/// The Rust backend: turns a schema type collection into Rust declarations.
pub struct Rust;

/// The name a named node carries, or the empty name for wrapper nodes.
pub open spec fn spec_named(name: Option<String>) -> Seq<char> {
    match name {
        Some(n) => n@,
        None => Seq::<char>::empty(),
    }
}

/// Whether the character is uppercase: the result of char::is_uppercase,
/// which depends on the character alone.
pub uninterp spec fn is_upper_of(c: char) -> bool;

/// The lower-case form of the character: what char::to_lowercase yields,
/// which depends on the character alone.
pub uninterp spec fn lower_of(c: char) -> Seq<char>;

/// What one character of a wire name contributes to the normalized
/// identifier: a capital letter is lower-cased and, unless it opens the name,
/// preceded by an underscore; every other character passes through.
pub open spec fn spec_localized_char(c: char, first: bool) -> Seq<char> {
    if is_upper_of(c) {
        (if first {
            Seq::<char>::empty()
        } else {
            seq!['_']
        }) + lower_of(c)
    } else {
        seq![c]
    }
}

/// The normalized identifier form of a wire name.
pub open spec fn spec_localized(s: Seq<char>) -> Seq<char>
    decreases s.len(),
{
    if s.len() == 0 {
        Seq::<char>::empty()
    } else {
        spec_localized(s.drop_last()) + spec_localized_char(s.last(), s.len() == 1)
    }
}

/// The Rust primitive that a built-in scalar name maps to; any other name
/// passes through unchanged.
pub open spec fn spec_base_name(name: Seq<char>) -> Seq<char> {
    if name == "Int"@ {
        "isize"@
    } else if name == "Float"@ {
        "f64"@
    } else if name == "Boolean"@ {
        "bool"@
    } else if name == "ID"@ {
        "String"@
    } else {
        name
    }
}

/// The resolved type name without its outermost nullability wrapper.
pub open spec fn spec_bare_type_name(t: Type) -> Seq<char>
    decreases t,
{
    match t.kind {
        TypeKind::List => match *t.of_type {
            Some(inner) => "Vec<"@ + (if inner.kind == TypeKind::NonNull {
                spec_bare_type_name(inner)
            } else {
                "Option<"@ + spec_bare_type_name(inner) + ">"@
            }) + ">"@,
            None => Seq::<char>::empty(),
        },
        TypeKind::NonNull => match *t.of_type {
            Some(inner) => spec_bare_type_name(inner),
            None => Seq::<char>::empty(),
        },
        _ => spec_base_name(spec_named(t.name)),
    }
}

/// The fully resolved, nullability-annotated type name: named types default
/// to nullable, a list is a nullable `Vec` whose element keeps its own
/// nullability unless the element is `NonNull`-wrapped.
pub open spec fn spec_type_name(t: Type) -> Seq<char> {
    "Option<"@ + spec_bare_type_name(t) + ">"@
}

/// The resolved type name a required member gets: a `NonNull`-wrapped type
/// loses exactly its outermost nullability wrapper.
pub open spec fn spec_input_type_name(t: Type) -> Seq<char> {
    if t.kind == TypeKind::NonNull {
        spec_bare_type_name(t)
    } else {
        spec_type_name(t)
    }
}

/// The five built-in scalar names, which resolve to primitives and emit no
/// declaration of their own.
pub open spec fn is_builtin_scalar(name: Seq<char>) -> bool {
    name == "Int"@ || name == "Float"@ || name == "String"@ || name == "Boolean"@ || name == "ID"@
}

/// Whether the node contributes a declaration at the top level.
pub open spec fn spec_emits(t: Type) -> bool
    decreases t,
{
    match t.kind {
        TypeKind::Scalar => !is_builtin_scalar(spec_named(t.name)),
        TypeKind::List | TypeKind::NonNull => match *t.of_type {
            Some(inner) => spec_emits(inner),
            None => false,
        },
        _ => true,
    }
}

/// The two lines an object field contributes: the wire name kept as
/// serialization metadata, then the renamed member with its resolved type.
pub open spec fn spec_field_text(f: Field) -> Seq<char> {
    spec_line(4, "#[serde(rename = \""@ + spec_named(f.name) + "\")]"@) + spec_line(
        4,
        "pub "@ + spec_localized(spec_named(f.name)) + ": "@ + spec_type_name(f.schema_type)
            + ","@,
    )
}

pub open spec fn spec_fields_text(fs: Seq<Field>) -> Seq<char>
    decreases fs,
{
    if fs.len() == 0 {
        Seq::<char>::empty()
    } else {
        spec_field_text(fs[0]) + spec_fields_text(fs.drop_first())
    }
}

/// The line a possible concrete type contributes to a sum type: one variant
/// wrapping a value of that type.
pub open spec fn spec_variant_text(pt: Type) -> Seq<char> {
    spec_line(4, spec_named(pt.name) + "("@ + spec_named(pt.name) + "),"@)
}

pub open spec fn spec_variants_text(pts: Seq<Type>) -> Seq<char>
    decreases pts,
{
    if pts.len() == 0 {
        Seq::<char>::empty()
    } else {
        spec_variant_text(pts[0]) + spec_variants_text(pts.drop_first())
    }
}

/// The line an enum value contributes: one no-payload variant.
pub open spec fn spec_value_text(ev: EnumValue) -> Seq<char> {
    spec_line(4, ev.name@ + ","@)
}

pub open spec fn spec_values_text(evs: Seq<EnumValue>) -> Seq<char>
    decreases evs,
{
    if evs.len() == 0 {
        Seq::<char>::empty()
    } else {
        spec_value_text(evs[0]) + spec_values_text(evs.drop_first())
    }
}

/// The two lines an input field contributes: the wire name kept as
/// serialization metadata, then the renamed member. Unlike an object field,
/// a required (`NonNull`) field loses its nullability wrapper, since the
/// generated type builds outgoing requests.
pub open spec fn spec_input_field_text(iv: InputValue) -> Seq<char> {
    spec_line(4, "#[serde(rename = \""@ + iv.name@ + "\")]"@) + spec_line(
        4,
        "pub "@ + spec_localized(iv.name@) + ": "@ + spec_input_type_name(iv.schema_type) + ","@,
    )
}

pub open spec fn spec_input_fields_text(ivs: Seq<InputValue>) -> Seq<char>
    decreases ivs,
{
    if ivs.len() == 0 {
        Seq::<char>::empty()
    } else {
        spec_input_field_text(ivs[0]) + spec_input_fields_text(ivs.drop_first())
    }
}

/// The declaration text one type node yields: a record for Object and
/// InputObject, a sum type for Interface, Union and Enum, a newtype over text
/// for a custom scalar, nothing for a built-in scalar; a wrapper node defers
/// to its inner node.
pub open spec fn spec_decl_text(t: Type) -> Seq<char>
    decreases t,
{
    match t.kind {
        TypeKind::Object => spec_line(0, "pub struct "@ + spec_named(t.name) + " {"@)
            + spec_fields_text(
            match t.fields {
                Some(fs) => fs@,
                None => Seq::<Field>::empty(),
            },
        ) + spec_line(0, "}"@),
        TypeKind::Interface | TypeKind::Union => spec_line(
            0,
            "pub enum "@ + spec_named(t.name) + " {"@,
        ) + spec_variants_text(
            match t.possible_types {
                Some(pts) => pts@,
                None => Seq::<Type>::empty(),
            },
        ) + spec_line(0, "}"@),
        TypeKind::Enum => spec_line(0, "pub enum "@ + spec_named(t.name) + " {"@)
            + spec_values_text(
            match t.enum_values {
                Some(evs) => evs@,
                None => Seq::<EnumValue>::empty(),
            },
        ) + spec_line(0, "}"@),
        TypeKind::Scalar => if is_builtin_scalar(spec_named(t.name)) {
            Seq::<char>::empty()
        } else {
            spec_line(0, "pub struct "@ + spec_named(t.name) + "(String);"@)
        },
        TypeKind::InputObject => spec_line(0, "pub struct "@ + spec_named(t.name) + " {"@)
            + spec_input_fields_text(
            match t.input_fields {
                Some(ivs) => ivs@,
                None => Seq::<InputValue>::empty(),
            },
        ) + spec_line(0, "}"@),
        TypeKind::List | TypeKind::NonNull => match *t.of_type {
            Some(inner) => spec_decl_text(inner),
            None => Seq::<char>::empty(),
        },
    }
}

/// What one top-level entry contributes to the output: its declaration,
/// followed by one blank separator line when the declaration is non-empty.
pub open spec fn spec_declaration(t: Type) -> Seq<char> {
    if spec_emits(t) {
        spec_decl_text(t) + spec_line(0, Seq::<char>::empty())
    } else {
        Seq::<char>::empty()
    }
}

/// The whole output: the declarations of all entries, in input order.
pub open spec fn spec_output(ts: Seq<Type>) -> Seq<char>
    decreases ts,
{
    if ts.len() == 0 {
        Seq::<char>::empty()
    } else {
        spec_declaration(ts[0]) + spec_output(ts.drop_first())
    }
}

pub proof fn lemma_fields_text_push(fs: Seq<Field>, f: Field)
    ensures
        spec_fields_text(fs.push(f)) == spec_fields_text(fs) + spec_field_text(f),
    decreases fs,
{
    if fs.len() == 0 {
        assert(fs.push(f).drop_first() =~= Seq::<Field>::empty());
        assert(spec_fields_text(Seq::<Field>::empty()) == Seq::<char>::empty());
        assert(fs.push(f)[0] == f);
        assert(spec_fields_text(fs.push(f)) =~= spec_fields_text(fs) + spec_field_text(f));
    } else {
        assert(fs.push(f).drop_first() =~= fs.drop_first().push(f));
        lemma_fields_text_push(fs.drop_first(), f);
        assert(spec_fields_text(fs.push(f)) =~= spec_fields_text(fs) + spec_field_text(f));
    }
}

pub proof fn lemma_variants_text_push(pts: Seq<Type>, pt: Type)
    ensures
        spec_variants_text(pts.push(pt)) == spec_variants_text(pts) + spec_variant_text(pt),
    decreases pts,
{
    if pts.len() == 0 {
        assert(pts.push(pt).drop_first() =~= Seq::<Type>::empty());
        assert(spec_variants_text(Seq::<Type>::empty()) == Seq::<char>::empty());
        assert(pts.push(pt)[0] == pt);
        assert(spec_variants_text(pts.push(pt)) =~= spec_variants_text(pts) + spec_variant_text(
            pt,
        ));
    } else {
        assert(pts.push(pt).drop_first() =~= pts.drop_first().push(pt));
        lemma_variants_text_push(pts.drop_first(), pt);
        assert(spec_variants_text(pts.push(pt)) =~= spec_variants_text(pts) + spec_variant_text(
            pt,
        ));
    }
}

pub proof fn lemma_values_text_push(evs: Seq<EnumValue>, ev: EnumValue)
    ensures
        spec_values_text(evs.push(ev)) == spec_values_text(evs) + spec_value_text(ev),
    decreases evs,
{
    if evs.len() == 0 {
        assert(evs.push(ev).drop_first() =~= Seq::<EnumValue>::empty());
        assert(spec_values_text(Seq::<EnumValue>::empty()) == Seq::<char>::empty());
        assert(evs.push(ev)[0] == ev);
        assert(spec_values_text(evs.push(ev)) =~= spec_values_text(evs) + spec_value_text(ev));
    } else {
        assert(evs.push(ev).drop_first() =~= evs.drop_first().push(ev));
        lemma_values_text_push(evs.drop_first(), ev);
        assert(spec_values_text(evs.push(ev)) =~= spec_values_text(evs) + spec_value_text(ev));
    }
}

pub proof fn lemma_input_fields_text_push(ivs: Seq<InputValue>, iv: InputValue)
    ensures
        spec_input_fields_text(ivs.push(iv)) == spec_input_fields_text(ivs)
            + spec_input_field_text(iv),
    decreases ivs,
{
    if ivs.len() == 0 {
        assert(ivs.push(iv).drop_first() =~= Seq::<InputValue>::empty());
        assert(spec_input_fields_text(Seq::<InputValue>::empty()) == Seq::<char>::empty());
        assert(ivs.push(iv)[0] == iv);
        assert(spec_input_fields_text(ivs.push(iv)) =~= spec_input_fields_text(ivs)
            + spec_input_field_text(iv));
    } else {
        assert(ivs.push(iv).drop_first() =~= ivs.drop_first().push(iv));
        lemma_input_fields_text_push(ivs.drop_first(), iv);
        assert(spec_input_fields_text(ivs.push(iv)) =~= spec_input_fields_text(ivs)
            + spec_input_field_text(iv));
    }
}

pub proof fn lemma_output_push(ts: Seq<Type>, t: Type)
    ensures
        spec_output(ts.push(t)) == spec_output(ts) + spec_declaration(t),
    decreases ts,
{
    if ts.len() == 0 {
        assert(ts.push(t).drop_first() =~= Seq::<Type>::empty());
        assert(spec_output(Seq::<Type>::empty()) == Seq::<char>::empty());
        assert(ts.push(t)[0] == t);
        assert(spec_output(ts.push(t)) =~= spec_output(ts) + spec_declaration(t));
    } else {
        assert(ts.push(t).drop_first() =~= ts.drop_first().push(t));
        lemma_output_push(ts.drop_first(), t);
        assert(spec_output(ts.push(t)) =~= spec_output(ts) + spec_declaration(t));
    }
}

/// A Scalar node carrying one of the five built-in names contributes no
/// declaration text at all.
pub proof fn lemma_builtin_scalar_emits_nothing(t: Type)
    requires
        t.kind == TypeKind::Scalar,
        is_builtin_scalar(spec_named(t.name)),
    ensures
        spec_declaration(t) == Seq::<char>::empty(),
{
}

/// A Scalar node with any other name contributes exactly one single-member
/// wrapper declaration over text, then the blank separator line.
pub proof fn lemma_custom_scalar_newtype(t: Type)
    requires
        t.kind == TypeKind::Scalar,
        t.name is Some,
        !is_builtin_scalar(t.name->0@),
    ensures
        spec_declaration(t) == spec_line(0, "pub struct "@ + t.name->0@ + "(String);"@)
            + spec_line(0, Seq::<char>::empty()),
{
}

/// The nullability table for a leaf type whose name has no primitive
/// remapping: a bare name resolves to an optional, one NonNull strips one
/// optional, a list is an optional `Vec`, and a NonNull list element drops
/// its own optional.
pub proof fn lemma_nullability_table(
    foo: Type,
    nn_foo: Type,
    list_foo: Type,
    list_nn_foo: Type,
    nn_list_foo: Type,
    nn_list_nn_foo: Type,
)
    requires
        foo.kind != TypeKind::List && foo.kind != TypeKind::NonNull,
        foo.name is Some,
        spec_base_name(foo.name->0@) == foo.name->0@,
        nn_foo.kind == TypeKind::NonNull && *nn_foo.of_type == Some(foo),
        list_foo.kind == TypeKind::List && *list_foo.of_type == Some(foo),
        list_nn_foo.kind == TypeKind::List && *list_nn_foo.of_type == Some(nn_foo),
        nn_list_foo.kind == TypeKind::NonNull && *nn_list_foo.of_type == Some(list_foo),
        nn_list_nn_foo.kind == TypeKind::NonNull && *nn_list_nn_foo.of_type == Some(list_nn_foo),
    ensures
        spec_input_type_name(foo) == "Option<"@ + foo.name->0@ + ">"@,
        spec_input_type_name(nn_foo) == foo.name->0@,
        spec_input_type_name(list_foo) == "Option<"@ + ("Vec<"@ + ("Option<"@ + foo.name->0@
            + ">"@) + ">"@) + ">"@,
        spec_input_type_name(list_nn_foo) == "Option<"@ + ("Vec<"@ + foo.name->0@ + ">"@) + ">"@,
        spec_input_type_name(nn_list_foo) == "Vec<"@ + ("Option<"@ + foo.name->0@ + ">"@) + ">"@,
        spec_input_type_name(nn_list_nn_foo) == "Vec<"@ + foo.name->0@ + ">"@,
{
    assert(spec_bare_type_name(foo) == foo.name->0@);
    assert(spec_bare_type_name(nn_foo) == foo.name->0@);
    assert(spec_bare_type_name(list_foo) == "Vec<"@ + ("Option<"@ + foo.name->0@ + ">"@) + ">"@);
    assert(spec_bare_type_name(list_nn_foo) == "Vec<"@ + foo.name->0@ + ">"@);
    assert(spec_bare_type_name(nn_list_foo) == "Vec<"@ + ("Option<"@ + foo.name->0@ + ">"@)
        + ">"@);
    assert(spec_bare_type_name(nn_list_nn_foo) == "Vec<"@ + foo.name->0@ + ">"@);
    assert(spec_input_type_name(foo) =~= "Option<"@ + foo.name->0@ + ">"@);
    assert(spec_input_type_name(list_foo) =~= "Option<"@ + ("Vec<"@ + ("Option<"@ + foo.name->0@
        + ">"@) + ">"@) + ">"@);
    assert(spec_input_type_name(list_nn_foo) =~= "Option<"@ + ("Vec<"@ + foo.name->0@ + ">"@)
        + ">"@);
    assert(spec_input_type_name(nn_list_foo) =~= "Vec<"@ + ("Option<"@ + foo.name->0@ + ">"@)
        + ">"@);
    assert(spec_input_type_name(nn_list_nn_foo) =~= "Vec<"@ + foo.name->0@ + ">"@);
}

/// An object member keeps the default nullability even when its field is
/// required, while an input member sheds it: the two record shapes diverge
/// exactly on the outermost optional wrapper of a NonNull-typed field.
pub proof fn lemma_required_field_divergence(t: Type)
    requires
        t.kind == TypeKind::NonNull,
    ensures
        spec_type_name(t) == "Option<"@ + spec_input_type_name(t) + ">"@,
{
}

/// Generation is deterministic: runs over identical type collections yield
/// identical output text, so repeated invocations agree byte for byte.
pub proof fn lemma_output_deterministic(a: Seq<Type>, b: Seq<Type>)
    requires
        a == b,
    ensures
        spec_output(a) == spec_output(b),
{
}

/// An empty type collection produces the empty output string.
pub proof fn lemma_empty_output()
    ensures
        spec_output(Seq::<Type>::empty()) == Seq::<char>::empty(),
{
}

fn push_line(lines: &mut Vec<TypeSection>, text: String)
    ensures
        final (lines)@ == old(lines)@.push(TypeSection::Line(text)),
        final (lines)@.len() == old(lines)@.len() + 1,
        spec_depth(final (lines)@) == spec_depth(old(lines)@),
        forall|w: nat, d: nat|
            spec_print(#[trigger] final (lines)@, w, d) == spec_print(old(lines)@, w, d)
                + spec_line(d, text@),
{
    let ghost before = lines@;
    let ghost gt = text@;
    lines.push(TypeSection::Line(text));
    proof {
        let x = lines@.last();
        assert(lines@ == before.push(x));
        lemma_depth_push(before, x);
        lemma_depth_one(x);
        assert forall|w: nat, d: nat|
            spec_print(#[trigger] lines@, w, d) == spec_print(before, w, d) + spec_line(
                d,
                gt,
            ) by {
            lemma_print_push(before, x, w, d);
            lemma_print_one(x, w, d);
        }
    }
}

/// Assembles a braced block: the header line, the body one step deeper, and
/// the closing brace.
fn block(header: String, body: Vec<TypeSection>) -> (r: Vec<TypeSection>)
    requires
        spec_depth(body@) == 0,
    ensures
        spec_print(r@, 4, 0) == spec_line(0, header@) + spec_print(body@, 4, 4) + spec_line(
            0,
            "}"@,
        ),
        spec_depth(r@) <= 1,
        r@.len() == 3,
        r@[0] == TypeSection::Line(header),
        r@[1] == TypeSection::Indent(body),
        r@[2] is Line && r@[2]->Line_0@ == "}"@,
{
    let ghost gh = header@;
    let ghost gb = body@;
    let mut r: Vec<TypeSection> = Vec::new();
    r.push(TypeSection::Line(header));
    r.push(TypeSection::Indent(body));
    r.push(TypeSection::Line(String::from_str("}")));
    proof {
        let a = r@[0];
        let b = r@[1];
        let c = r@[2];
        assert(r@ =~= seq![a] + seq![b] + seq![c]);
        lemma_print_concat(seq![a] + seq![b], seq![c], 4, 0);
        lemma_print_concat(seq![a], seq![b], 4, 0);
        lemma_print_one(a, 4, 0);
        lemma_print_one(b, 4, 0);
        lemma_print_one(c, 4, 0);
        lemma_depth_concat(seq![a] + seq![b], seq![c]);
        lemma_depth_concat(seq![a], seq![b]);
        lemma_depth_one(a);
        lemma_depth_one(b);
        lemma_depth_one(c);
        assert(spec_print(r@, 4, 0) =~= spec_line(0, gh) + spec_print(gb, 4, 4) + spec_line(
            0,
            "}"@,
        ));
    }
    r
}

/// Relies on String::push: appends the given character to the end of the
/// string.
#[verifier::external_body]
fn push_char(s: &mut String, c: char)
    ensures
        final (s)@ == old(s)@ + seq![c],
{
    s.push(c);
}

/// Relies on char::is_uppercase: whether the character has the Unicode
/// uppercase property, a function of the character alone.
#[verifier::external_body]
fn char_is_uppercase(c: char) -> (r: bool)
    ensures
        r == is_upper_of(c),
{
    c.is_uppercase()
}

/// Relies on char::to_lowercase: the Unicode lowercase mapping of the
/// character, a function of the character alone.
#[verifier::external_body]
fn char_to_lowercase(c: char) -> (r: Vec<char>)
    ensures
        r@ == lower_of(c),
{
    c.to_lowercase().collect()
}

impl Rust {
    /// Converts a wire-format name into a snake-case identifier: each ASCII
    /// capital is lower-cased and, unless it opens the name, preceded by an
    /// underscore; all other characters pass through unchanged.
    pub fn localize_name(name: &str) -> (r: String)
        ensures
            r@ == spec_localized(name@),
    {
        let n = name.unicode_len();
        let mut out = String::new();
        let mut i: usize = 0;
        #[verifier::loop_isolation(false)]
        while i < n
            invariant
                i <= n,
                out@ == spec_localized(name@.take(i as int)),
            decreases n - i,
        {
            let c = name.get_char(i);
            if char_is_uppercase(c) {
                if i != 0 {
                    push_char(&mut out, '_');
                }
                let ghost mid = out@;
                let lows = char_to_lowercase(c);
                let mut j: usize = 0;
                #[verifier::loop_isolation(false)]
                while j < lows.len()
                    invariant
                        j <= lows@.len(),
                        out@ == mid + lows@.take(j as int),
                    decreases lows@.len() - j,
                {
                    push_char(&mut out, lows[j]);
                    proof {
                        assert(lows@.take(j + 1) =~= lows@.take(j as int).push(lows@[j as int]));
                        assert(out@ =~= mid + lows@.take(j + 1));
                    }
                    j += 1;
                }
                proof {
                    assert(lows@.take(j as int) =~= lows@);
                }
            } else {
                push_char(&mut out, c);
            }
            proof {
                assert(name@.take(i + 1).drop_last() =~= name@.take(i as int));
                assert(name@.take(i + 1).last() == name@[i as int]);
                assert(out@ =~= spec_localized(name@.take(i + 1)));
            }
            i += 1;
        }
        proof {
            assert(name@.take(i as int) =~= name@);
        }
        out
    }

    /// Maps a built-in scalar name to its Rust primitive; any other name
    /// passes through unchanged.
    fn base_name(name: &String) -> (r: String)
        ensures
            r@ == spec_base_name(name@),
    {
        if name.eq(&String::from_str("Int")) {
            String::from_str("isize")
        } else if name.eq(&String::from_str("Float")) {
            String::from_str("f64")
        } else if name.eq(&String::from_str("Boolean")) {
            String::from_str("bool")
        } else if name.eq(&String::from_str("ID")) {
            String::from_str("String")
        } else {
            name.clone()
        }
    }

    /// The resolved type name without its outermost nullability wrapper.
    pub fn get_bare_type_name(t: &Type) -> (r: String)
        requires
            wf_resolvable(*t),
        ensures
            r@ == spec_bare_type_name(*t),
        decreases *t,
    {
        match t.kind {
            TypeKind::List => {
                let inner = (*t.of_type).as_ref().unwrap();
                let mut r = String::from_str("Vec<");
                if inner.kind == TypeKind::NonNull {
                    let b = Self::get_bare_type_name(inner);
                    r.append(b.as_str());
                } else {
                    r.append("Option<");
                    let b = Self::get_bare_type_name(inner);
                    r.append(b.as_str());
                    r.append(">");
                }
                r.append(">");
                proof {
                    assert(r@ =~= spec_bare_type_name(*t));
                }
                r
            },
            TypeKind::NonNull => {
                let inner = (*t.of_type).as_ref().unwrap();
                Self::get_bare_type_name(inner)
            },
            _ => {
                match t.name.as_ref() {
                    Some(n) => Self::base_name(n),
                    None => {
                        proof {
                            reveal_strlit("Int");
                            reveal_strlit("Float");
                            reveal_strlit("Boolean");
                            reveal_strlit("ID");
                        }
                        String::new()
                    },
                }
            },
        }
    }

    /// Resolves any type node to its nullability-annotated Rust type name:
    /// named types default to nullable.
    pub fn get_type_name(t: &Type) -> (r: String)
        requires
            wf_resolvable(*t),
        ensures
            r@ == spec_type_name(*t),
    {
        let mut r = String::from_str("Option<");
        let b = Self::get_bare_type_name(t);
        r.append(b.as_str());
        r.append(">");
        proof {
            assert(r@ =~= spec_type_name(*t));
        }
        r
    }

    /// Resolves a type node as a required member: a `NonNull`-wrapped type
    /// loses exactly its outermost nullability wrapper.
    pub fn get_type_name_without_option(t: &Type) -> (r: String)
        requires
            wf_resolvable(*t),
        ensures
            r@ == spec_input_type_name(*t),
    {
        if t.kind == TypeKind::NonNull {
            Self::get_bare_type_name(t)
        } else {
            Self::get_type_name(t)
        }
    }

    /// Emits a record with one member per declared field; each member keeps
    /// its wire name as serialization metadata and the default nullability.
    pub fn generate_object(t: &Type) -> (r: Vec<TypeSection>)
        requires
            t.kind == TypeKind::Object,
            wf_declaration(*t),
        ensures
            spec_print(r@, 4, 0) == spec_decl_text(*t),
            spec_depth(r@) <= 1,
            r@.len() == 3,
            r@[0] is Line && r@[0]->Line_0@ == "pub struct "@ + t.name->0@ + " {"@,
            r@[1] is Indent && r@[1]->Indent_0@.len() == 2 * t.fields->0@.len() && spec_depth(
                r@[1]->Indent_0@,
            ) == 0,
            r@[2] is Line && r@[2]->Line_0@ == "}"@,
    {
        let name = t.name.as_ref().unwrap();
        let mut header = String::from_str("pub struct ");
        header.append(name.as_str());
        header.append(" {");
        let fields = t.fields.as_ref().unwrap();
        let mut lines: Vec<TypeSection> = Vec::new();
        let mut i: usize = 0;
        #[verifier::loop_isolation(false)]
        while i < fields.len()
            invariant
                i <= fields@.len(),
                lines@.len() == 2 * i,
                spec_print(lines@, 4, 4) == spec_fields_text(fields@.take(i as int)),
                spec_depth(lines@) == 0,
            decreases fields@.len() - i,
        {
            proof {
                assert(wf_field(fields@[i as int]));
            }
            let f = &fields[i];
            let fname = f.name.as_ref().unwrap();
            let mut attr = String::from_str("#[serde(rename = \"");
            attr.append(fname.as_str());
            attr.append("\")]");
            let mut memb = String::from_str("pub ");
            let ident = Self::localize_name(fname.as_str());
            memb.append(ident.as_str());
            memb.append(": ");
            let tyname = Self::get_type_name(&f.schema_type);
            memb.append(tyname.as_str());
            memb.append(",");
            push_line(&mut lines, attr);
            push_line(&mut lines, memb);
            proof {
                lemma_fields_text_push(fields@.take(i as int), fields@[i as int]);
                assert(fields@.take(i + 1) =~= fields@.take(i as int).push(fields@[i as int]));
                assert(spec_print(lines@, 4, 4) =~= spec_fields_text(fields@.take(i + 1)));
            }
            i += 1;
        }
        proof {
            assert(fields@.take(i as int) =~= fields@);
        }
        block(header, lines)
    }

    /// Emits a closed sum type with one variant per possible concrete type,
    /// each variant wrapping a value of that type.
    pub fn generate_interface(t: &Type) -> (r: Vec<TypeSection>)
        requires
            t.kind == TypeKind::Interface || t.kind == TypeKind::Union,
            wf_declaration(*t),
        ensures
            spec_print(r@, 4, 0) == spec_decl_text(*t),
            spec_depth(r@) <= 1,
            r@.len() == 3,
            r@[0] is Line && r@[0]->Line_0@ == "pub enum "@ + t.name->0@ + " {"@,
            r@[1] is Indent && r@[1]->Indent_0@.len() == t.possible_types->0@.len() && spec_depth(
                r@[1]->Indent_0@,
            ) == 0,
            r@[2] is Line && r@[2]->Line_0@ == "}"@,
    {
        let name = t.name.as_ref().unwrap();
        let mut header = String::from_str("pub enum ");
        header.append(name.as_str());
        header.append(" {");
        let pts = t.possible_types.as_ref().unwrap();
        let mut lines: Vec<TypeSection> = Vec::new();
        let mut i: usize = 0;
        #[verifier::loop_isolation(false)]
        while i < pts.len()
            invariant
                i <= pts@.len(),
                lines@.len() == i,
                spec_print(lines@, 4, 4) == spec_variants_text(pts@.take(i as int)),
                spec_depth(lines@) == 0,
            decreases pts@.len() - i,
        {
            proof {
                assert((pts@[i as int].name) is Some);
            }
            let vname = pts[i].name.as_ref().unwrap();
            let mut variant = vname.clone();
            variant.append("(");
            variant.append(vname.as_str());
            variant.append("),");
            push_line(&mut lines, variant);
            proof {
                lemma_variants_text_push(pts@.take(i as int), pts@[i as int]);
                assert(pts@.take(i + 1) =~= pts@.take(i as int).push(pts@[i as int]));
                assert(spec_print(lines@, 4, 4) =~= spec_variants_text(pts@.take(i + 1)));
            }
            i += 1;
        }
        proof {
            assert(pts@.take(i as int) =~= pts@);
        }
        block(header, lines)
    }

    /// Emits a closed sum type with one no-payload variant per declared enum
    /// value, in declaration order.
    pub fn generate_enum(t: &Type) -> (r: Vec<TypeSection>)
        requires
            t.kind == TypeKind::Enum,
            wf_declaration(*t),
        ensures
            spec_print(r@, 4, 0) == spec_decl_text(*t),
            spec_depth(r@) <= 1,
            r@.len() == 3,
            r@[0] is Line && r@[0]->Line_0@ == "pub enum "@ + t.name->0@ + " {"@,
            r@[1] is Indent && r@[1]->Indent_0@.len() == t.enum_values->0@.len() && spec_depth(
                r@[1]->Indent_0@,
            ) == 0,
            r@[2] is Line && r@[2]->Line_0@ == "}"@,
    {
        let name = t.name.as_ref().unwrap();
        let mut header = String::from_str("pub enum ");
        header.append(name.as_str());
        header.append(" {");
        let evs = t.enum_values.as_ref().unwrap();
        let mut lines: Vec<TypeSection> = Vec::new();
        let mut i: usize = 0;
        #[verifier::loop_isolation(false)]
        while i < evs.len()
            invariant
                i <= evs@.len(),
                lines@.len() == i,
                spec_print(lines@, 4, 4) == spec_values_text(evs@.take(i as int)),
                spec_depth(lines@) == 0,
            decreases evs@.len() - i,
        {
            let mut value = evs[i].name.clone();
            value.append(",");
            push_line(&mut lines, value);
            proof {
                lemma_values_text_push(evs@.take(i as int), evs@[i as int]);
                assert(evs@.take(i + 1) =~= evs@.take(i as int).push(evs@[i as int]));
                assert(spec_print(lines@, 4, 4) =~= spec_values_text(evs@.take(i + 1)));
            }
            i += 1;
        }
        proof {
            assert(evs@.take(i as int) =~= evs@);
        }
        block(header, lines)
    }

    /// Emits nothing for the five built-in scalar names; any other scalar
    /// name gets a single-member newtype over text.
    pub fn generate_scalar(t: &Type) -> (r: Vec<TypeSection>)
        requires
            t.kind == TypeKind::Scalar,
            wf_declaration(*t),
        ensures
            spec_print(r@, 4, 0) == spec_decl_text(*t),
            spec_depth(r@) == 0,
            (r@.len() > 0) == spec_emits(*t),
            spec_emits(*t) ==> r@.len() == 1 && r@[0] is Line && r@[0]->Line_0@ == "pub struct "@
                + t.name->0@ + "(String);"@,
    {
        let name = t.name.as_ref().unwrap();
        if name.eq(&String::from_str("Int")) || name.eq(&String::from_str("Float")) || name.eq(
            &String::from_str("String"),
        ) || name.eq(&String::from_str("Boolean")) || name.eq(&String::from_str("ID")) {
            let r: Vec<TypeSection> = Vec::new();
            proof {
                assert(spec_print(r@, 4, 0) =~= spec_decl_text(*t));
            }
            r
        } else {
            let mut line = String::from_str("pub struct ");
            line.append(name.as_str());
            line.append("(String);");
            let mut r: Vec<TypeSection> = Vec::new();
            push_line(&mut r, line);
            proof {
                assert(spec_print(Seq::<TypeSection>::empty(), 4, 0) == Seq::<char>::empty());
                assert(spec_print(r@, 4, 0) =~= spec_decl_text(*t));
            }
            r
        }
    }

    /// Emits a record with one member per input field; a `NonNull`-wrapped
    /// field is emitted as a required (non-optional) member.
    pub fn generate_input_object(t: &Type) -> (r: Vec<TypeSection>)
        requires
            t.kind == TypeKind::InputObject,
            wf_declaration(*t),
        ensures
            spec_print(r@, 4, 0) == spec_decl_text(*t),
            spec_depth(r@) <= 1,
            r@.len() == 3,
            r@[0] is Line && r@[0]->Line_0@ == "pub struct "@ + t.name->0@ + " {"@,
            r@[1] is Indent && r@[1]->Indent_0@.len() == 2 * t.input_fields->0@.len()
                && spec_depth(r@[1]->Indent_0@) == 0,
            r@[2] is Line && r@[2]->Line_0@ == "}"@,
    {
        let name = t.name.as_ref().unwrap();
        let mut header = String::from_str("pub struct ");
        header.append(name.as_str());
        header.append(" {");
        let ivs = t.input_fields.as_ref().unwrap();
        let mut lines: Vec<TypeSection> = Vec::new();
        let mut i: usize = 0;
        #[verifier::loop_isolation(false)]
        while i < ivs.len()
            invariant
                i <= ivs@.len(),
                lines@.len() == 2 * i,
                spec_print(lines@, 4, 4) == spec_input_fields_text(ivs@.take(i as int)),
                spec_depth(lines@) == 0,
            decreases ivs@.len() - i,
        {
            proof {
                assert(wf_input_value(ivs@[i as int]));
            }
            let iv = &ivs[i];
            let mut attr = String::from_str("#[serde(rename = \"");
            attr.append(iv.name.as_str());
            attr.append("\")]");
            let mut memb = String::from_str("pub ");
            let ident = Self::localize_name(iv.name.as_str());
            memb.append(ident.as_str());
            memb.append(": ");
            let tyname = Self::get_type_name_without_option(&iv.schema_type);
            memb.append(tyname.as_str());
            memb.append(",");
            push_line(&mut lines, attr);
            push_line(&mut lines, memb);
            proof {
                lemma_input_fields_text_push(ivs@.take(i as int), ivs@[i as int]);
                assert(ivs@.take(i + 1) =~= ivs@.take(i as int).push(ivs@[i as int]));
                assert(spec_print(lines@, 4, 4) =~= spec_input_fields_text(ivs@.take(i + 1)));
            }
            i += 1;
        }
        proof {
            assert(ivs@.take(i as int) =~= ivs@);
        }
        block(header, lines)
    }

    /// Dispatches one top-level node to the declaration shape its kind calls
    /// for; a wrapper node defers to its inner node.
    pub fn parse_type(t: &Type) -> (r: Vec<TypeSection>)
        requires
            wf_declaration(*t),
        ensures
            spec_print(r@, 4, 0) == spec_decl_text(*t),
            spec_depth(r@) <= 1,
            (r@.len() > 0) == spec_emits(*t),
        decreases *t,
    {
        match t.kind {
            TypeKind::Object => Self::generate_object(t),
            TypeKind::Interface => Self::generate_interface(t),
            TypeKind::Enum => Self::generate_enum(t),
            TypeKind::Scalar => Self::generate_scalar(t),
            TypeKind::InputObject => Self::generate_input_object(t),
            TypeKind::NonNull => Self::parse_type((*t.of_type).as_ref().unwrap()),
            TypeKind::List => Self::parse_type((*t.of_type).as_ref().unwrap()),
            TypeKind::Union => Self::generate_interface(t),
        }
    }

    /// Translates the whole type collection: each entry's declaration in
    /// input order, each non-empty declaration followed by one blank line.
    pub fn generate_types(types: &Vec<Type>) -> (r: String)
        requires
            wf_types(types@),
        ensures
            r@ == spec_output(types@),
    {
        let mut output: Vec<TypeSection> = Vec::new();
        let mut i: usize = 0;
        #[verifier::loop_isolation(false)]
        while i < types.len()
            invariant
                i <= types@.len(),
                spec_print(output@, 4, 0) == spec_output(types@.take(i as int)),
                spec_depth(output@) <= 1,
            decreases types@.len() - i,
        {
            let mut sections = Self::parse_type(&types[i]);
            if sections.len() > 0 {
                push_line(&mut sections, String::new());
            }
            proof {
                assert(spec_print(sections@, 4, 0) == spec_declaration(types@[i as int]));
            }
            let ghost before = output@;
            let ghost added = sections@;
            output.append(&mut sections);
            proof {
                lemma_print_concat(before, added, 4, 0);
                lemma_depth_concat(before, added);
                lemma_output_push(types@.take(i as int), types@[i as int]);
                assert(types@.take(i + 1) =~= types@.take(i as int).push(types@[i as int]));
                assert(spec_print(output@, 4, 0) =~= spec_output(types@.take(i + 1)));
            }
            i += 1;
        }
        proof {
            assert(types@.take(i as int) =~= types@);
        }
        print(&output, 4, 0)
    }
}

} // verus!
