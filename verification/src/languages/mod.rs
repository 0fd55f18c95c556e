use vstd::prelude::*;

pub mod rust;

pub use rust::Rust;

verus! {

/// One node of renderable output: either a literal line of text, or a group
/// of further nodes printed one indentation step deeper.
pub enum TypeSection {
    Line(String),
    Indent(Vec<TypeSection>),
}

/// `n` columns of leading space.
pub open spec fn spec_indent(n: nat) -> Seq<char> {
    Seq::new(n, |i: int| ' ')
}

/// One rendered line: leading space, the text, a line terminator.
pub open spec fn spec_line(depth: nat, text: Seq<char>) -> Seq<char> {
    spec_indent(depth) + text + "\n"@
}

/// The text that rendering a section sequence produces: each line at
/// `current` columns, each group rendered `indent_size` columns deeper.
pub open spec fn spec_print(sections: Seq<TypeSection>, indent_size: nat, current: nat) -> Seq<char>
    decreases sections,
{
    if sections.len() == 0 {
        Seq::<char>::empty()
    } else {
        (match sections[0] {
            TypeSection::Line(line) => spec_line(current, line@),
            TypeSection::Indent(inner) => spec_print(inner@, indent_size, current + indent_size),
        }) + spec_print(sections.drop_first(), indent_size, current)
    }
}

/// How many indentation steps the deepest group nesting takes.
pub open spec fn spec_depth(sections: Seq<TypeSection>) -> nat
    decreases sections,
{
    if sections.len() == 0 {
        0
    } else {
        let head: nat = match sections[0] {
            TypeSection::Line(_) => 0,
            TypeSection::Indent(inner) => 1 + spec_depth(inner@),
        };
        let rest = spec_depth(sections.drop_first());
        if head > rest {
            head
        } else {
            rest
        }
    }
}

/// Rendering distributes over concatenation of section sequences.
pub proof fn lemma_print_concat(a: Seq<TypeSection>, b: Seq<TypeSection>, w: nat, d: nat)
    ensures
        spec_print(a + b, w, d) == spec_print(a, w, d) + spec_print(b, w, d),
    decreases a,
{
    if a.len() == 0 {
        assert(a + b =~= b);
        assert(spec_print(a, w, d) + spec_print(b, w, d) =~= spec_print(b, w, d));
    } else {
        assert((a + b).drop_first() =~= a.drop_first() + b);
        lemma_print_concat(a.drop_first(), b, w, d);
        assert(spec_print(a + b, w, d) =~= spec_print(a, w, d) + spec_print(b, w, d));
    }
}

/// Rendering one more section appends that section's own text.
pub proof fn lemma_print_push(s: Seq<TypeSection>, x: TypeSection, w: nat, d: nat)
    ensures
        spec_print(s.push(x), w, d) == spec_print(s, w, d) + spec_print(seq![x], w, d),
{
    assert(s.push(x) =~= s + seq![x]);
    lemma_print_concat(s, seq![x], w, d);
}

/// Rendering a single section yields just that section's text.
pub proof fn lemma_print_one(x: TypeSection, w: nat, d: nat)
    ensures
        spec_print(seq![x], w, d) == (match x {
            TypeSection::Line(line) => spec_line(d, line@),
            TypeSection::Indent(inner) => spec_print(inner@, w, d + w),
        }),
{
    assert(seq![x].drop_first() =~= Seq::<TypeSection>::empty());
    assert(spec_print(Seq::<TypeSection>::empty(), w, d) =~= Seq::<char>::empty());
    assert(seq![x][0] == x);
    assert(spec_print(seq![x], w, d) =~= (match x {
        TypeSection::Line(line) => spec_line(d, line@),
        TypeSection::Indent(inner) => spec_print(inner@, w, d + w),
    }));
}

/// Nesting depth never grows under concatenation beyond the two parts.
pub proof fn lemma_depth_concat(a: Seq<TypeSection>, b: Seq<TypeSection>)
    ensures
        spec_depth(a + b) == if spec_depth(a) > spec_depth(b) {
            spec_depth(a)
        } else {
            spec_depth(b)
        },
    decreases a,
{
    if a.len() == 0 {
        assert(a + b =~= b);
    } else {
        assert((a + b).drop_first() =~= a.drop_first() + b);
        lemma_depth_concat(a.drop_first(), b);
    }
}

/// A single line nests nothing; a single group nests one step more than its
/// contents.
pub proof fn lemma_depth_one(x: TypeSection)
    ensures
        spec_depth(seq![x]) == (match x {
            TypeSection::Line(_) => 0nat,
            TypeSection::Indent(inner) => 1 + spec_depth(inner@),
        }),
{
    assert(seq![x].drop_first() =~= Seq::<TypeSection>::empty());
    assert(spec_depth(Seq::<TypeSection>::empty()) == 0);
    assert(seq![x][0] == x);
}

/// Appending one section keeps the depth at the larger of the two.
pub proof fn lemma_depth_push(s: Seq<TypeSection>, x: TypeSection)
    ensures
        spec_depth(s.push(x)) == if spec_depth(s) > spec_depth(seq![x]) {
            spec_depth(s)
        } else {
            spec_depth(seq![x])
        },
{
    assert(s.push(x) =~= s + seq![x]);
    lemma_depth_concat(s, seq![x]);
}

/// The deepest nesting of the whole sequence bounds each group in it.
pub proof fn lemma_depth_element(s: Seq<TypeSection>, i: int)
    requires
        0 <= i < s.len(),
    ensures
        match s[i] {
            TypeSection::Indent(inner) => spec_depth(s) >= 1 + spec_depth(inner@),
            TypeSection::Line(_) => true,
        },
    decreases s,
{
    if i > 0 {
        lemma_depth_element(s.drop_first(), i - 1);
        assert(s.drop_first()[i - 1] == s[i]);
    }
}

/// Renders the sections as indented text: each line node at `current_indent`
/// columns of leading space, each group one `indent_size` step deeper.
pub fn print(sections: &Vec<TypeSection>, indent_size: usize, current_indent: usize) -> (r: String)
    requires
        current_indent + indent_size * spec_depth(sections@) <= usize::MAX,
    ensures
        r@ == spec_print(sections@, indent_size as nat, current_indent as nat),
    decreases sections@,
{
    let mut output = String::new();
    let mut i: usize = 0;
    #[verifier::loop_isolation(false)]
    while i < sections.len()
        invariant
            i <= sections@.len(),
            output@ == spec_print(
                sections@.take(i as int),
                indent_size as nat,
                current_indent as nat,
            ),
        decreases sections@.len() - i,
    {
        match &sections[i] {
            TypeSection::Line(line) => {
                let mut j: usize = 0;
                #[verifier::loop_isolation(false)]
                while j < current_indent
                    invariant
                        j <= current_indent,
                        output@ == spec_print(
                            sections@.take(i as int),
                            indent_size as nat,
                            current_indent as nat,
                        ) + spec_indent(j as nat),
                    decreases current_indent - j,
                {
                    output.append(" ");
                    proof {
                        reveal_strlit(" ");
                        assert(spec_indent(j as nat) + " "@ =~= spec_indent((j + 1) as nat));
                        assert(output@ =~= spec_print(
                            sections@.take(i as int),
                            indent_size as nat,
                            current_indent as nat,
                        ) + spec_indent((j + 1) as nat));
                    }
                    j += 1;
                }
                output.append(line.as_str());
                output.append("\n");
            },
            TypeSection::Indent(inner) => {
                proof {
                    lemma_depth_element(sections@, i as int);
                    let d = spec_depth(sections@);
                    let di = spec_depth(inner@);
                    assert(indent_size * d >= indent_size + indent_size * di)
                        by (nonlinear_arith)
                        requires
                            d >= 1 + di,
                    ;
                }
                let sub = print(inner, indent_size, current_indent + indent_size);
                output.append(sub.as_str());
            },
        }
        proof {
            lemma_print_push(
                sections@.take(i as int),
                sections@[i as int],
                indent_size as nat,
                current_indent as nat,
            );
            lemma_print_one(sections@[i as int], indent_size as nat, current_indent as nat);
            assert(sections@.take(i + 1) =~= sections@.take(i as int).push(sections@[i as int]));
            assert(output@ =~= spec_print(
                sections@.take(i + 1),
                indent_size as nat,
                current_indent as nat,
            ));
        }
        i += 1;
    }
    proof {
        assert(sections@.take(i as int) =~= sections@);
    }
    output
}

} // verus!
