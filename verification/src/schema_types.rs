use vstd::prelude::*;

verus! {

/// The closed set of introspection type categories.
#[derive(PartialEq, Eq, Structural, Clone, Copy, Debug)]
pub enum TypeKind {
    Scalar,
    Object,
    Interface,
    Union,
    Enum,
    InputObject,
    List,
    NonNull,
}

/// One node of the introspection type graph. Named kinds carry a name and at
/// most one children collection; the wrapper kinds (List, NonNull) carry an
/// inner node instead.
pub struct Type {
    pub kind: TypeKind,
    pub name: Option<String>,
    pub description: Option<String>,
    /// Object and Interface only.
    pub fields: Option<Vec<Field>>,
    /// Object only.
    pub interfaces: Option<Vec<Type>>,
    /// Interface and Union only.
    pub possible_types: Option<Vec<Type>>,
    /// Enum only.
    pub enum_values: Option<Vec<EnumValue>>,
    /// InputObject only.
    pub input_fields: Option<Vec<InputValue>>,
    /// NonNull and List only.
    pub of_type: Box<Option<Type>>,
}

/// A field of an Object or Interface type.
pub struct Field {
    pub name: Option<String>,
    pub description: Option<String>,
    pub args: Vec<InputValue>,
    pub schema_type: Type,
    pub is_deprecated: bool,
    pub deprecation_reason: Option<String>,
}

/// A field of an InputObject type, or an argument.
pub struct InputValue {
    pub name: String,
    pub description: Option<String>,
    pub schema_type: Type,
    pub default_value: Option<String>,
}

/// One value of an Enum type.
pub struct EnumValue {
    pub name: String,
    pub description: Option<String>,
    pub is_deprecated: bool,
    pub deprecation_reason: Option<String>,
}

/// A reference to a root operation type, by name.
pub struct TypeReference {
    pub name: String,
}

/// The whole introspection result: the type collection that generation
/// consumes, plus root-operation references and directive metadata that are
/// carried only for completeness.
pub struct Schema {
    pub types: Vec<Type>,
    pub query_type: TypeReference,
    pub mutation_type: Option<TypeReference>,
    pub subscription_type: Option<TypeReference>,
    pub directives: Vec<Directive>,
}

pub struct Directive {
    pub name: String,
    pub description: Option<String>,
    pub locations: Vec<DirectiveLocation>,
    pub args: Vec<InputValue>,
}

#[derive(PartialEq, Eq, Structural, Clone, Copy, Debug)]
pub enum DirectiveLocation {
    Query,
    Mutation,
    Subscription,
    Field,
    FragmentDefinition,
    FragmentSpread,
    InlineFragment,
    Schema,
    Scalar,
    Object,
    FieldDefinition,
    ArgumentDefinition,
    Interface,
    Union,
    Enum,
    EnumValue,
    InputObject,
    InputFieldDefinition,
}

/// Every List or NonNull wrapper along the node carries an inner type, so the
/// node can be resolved to a type name.
pub open spec fn wf_resolvable(t: Type) -> bool
    decreases t,
{
    match t.kind {
        TypeKind::List | TypeKind::NonNull => match *t.of_type {
            Some(inner) => wf_resolvable(inner),
            None => false,
        },
        _ => true,
    }
}

/// A field carries a name and a resolvable type.
pub open spec fn wf_field(f: Field) -> bool {
    &&& f.name is Some
    &&& wf_resolvable(f.schema_type)
}

/// An input field carries a resolvable type.
pub open spec fn wf_input_value(v: InputValue) -> bool {
    wf_resolvable(v.schema_type)
}

/// The structural invariant of the introspection format that generation
/// relies on: the node's kind-specific children collection is present and
/// well formed, named kinds carry a name, and wrappers carry an inner node.
pub open spec fn wf_declaration(t: Type) -> bool
    decreases t,
{
    match t.kind {
        TypeKind::Scalar => t.name is Some,
        TypeKind::Object => {
            &&& t.name is Some
            &&& t.fields is Some
            &&& forall|i: int|
                0 <= i < t.fields->0@.len() ==> #[trigger] wf_field(t.fields->0@[i])
        },
        TypeKind::Interface | TypeKind::Union => {
            &&& t.name is Some
            &&& t.possible_types is Some
            &&& forall|i: int|
                0 <= i < t.possible_types->0@.len() ==> (#[trigger] t.possible_types->0@[i].name)
                    is Some
        },
        TypeKind::Enum => {
            &&& t.name is Some
            &&& t.enum_values is Some
        },
        TypeKind::InputObject => {
            &&& t.name is Some
            &&& t.input_fields is Some
            &&& forall|i: int|
                0 <= i < t.input_fields->0@.len() ==> #[trigger] wf_input_value(
                    t.input_fields->0@[i],
                )
        },
        TypeKind::List | TypeKind::NonNull => match *t.of_type {
            Some(inner) => wf_declaration(inner),
            None => false,
        },
    }
}

/// Every entry of a type collection satisfies the structural invariant.
pub open spec fn wf_types(ts: Seq<Type>) -> bool {
    forall|i: int| 0 <= i < ts.len() ==> #[trigger] wf_declaration(ts[i])
}

impl Type {
    /// Decides whether the node can be resolved to a type name: every wrapper
    /// along it carries an inner type.
    pub fn check_resolvable(&self) -> (r: bool)
        ensures
            r == wf_resolvable(*self),
        decreases *self,
    {
        match self.kind {
            TypeKind::List | TypeKind::NonNull => match (*self.of_type).as_ref() {
                Some(inner) => inner.check_resolvable(),
                None => false,
            },
            _ => true,
        }
    }

    /// Decides whether the node satisfies the structural invariant that
    /// declaration emission relies on.
    pub fn check_declaration(&self) -> (r: bool)
        ensures
            r == wf_declaration(*self),
        decreases *self,
    {
        match self.kind {
            TypeKind::Scalar => self.name.is_some(),
            TypeKind::Object => {
                if self.name.is_none() {
                    return false;
                }
                match self.fields.as_ref() {
                    Some(fields) => {
                        let mut i: usize = 0;
                        #[verifier::loop_isolation(false)]
                        while i < fields.len()
                            invariant
                                i <= fields@.len(),
                                forall|j: int| 0 <= j < i ==> #[trigger] wf_field(fields@[j]),
                            decreases fields@.len() - i,
                        {
                            let f = &fields[i];
                            if f.name.is_none() || !f.schema_type.check_resolvable() {
                                proof {
                                    assert(!wf_field(fields@[i as int]));
                                }
                                return false;
                            }
                            i += 1;
                        }
                        true
                    },
                    None => false,
                }
            },
            TypeKind::Interface | TypeKind::Union => {
                if self.name.is_none() {
                    return false;
                }
                match self.possible_types.as_ref() {
                    Some(pts) => {
                        let mut i: usize = 0;
                        #[verifier::loop_isolation(false)]
                        while i < pts.len()
                            invariant
                                i <= pts@.len(),
                                forall|j: int| 0 <= j < i ==> (#[trigger] pts@[j].name) is Some,
                            decreases pts@.len() - i,
                        {
                            if pts[i].name.is_none() {
                                proof {
                                    assert(!((pts@[i as int].name) is Some));
                                }
                                return false;
                            }
                            i += 1;
                        }
                        true
                    },
                    None => false,
                }
            },
            TypeKind::Enum => self.name.is_some() && self.enum_values.is_some(),
            TypeKind::InputObject => {
                if self.name.is_none() {
                    return false;
                }
                match self.input_fields.as_ref() {
                    Some(ivs) => {
                        let mut i: usize = 0;
                        #[verifier::loop_isolation(false)]
                        while i < ivs.len()
                            invariant
                                i <= ivs@.len(),
                                forall|j: int| 0 <= j < i ==> #[trigger] wf_input_value(ivs@[j]),
                            decreases ivs@.len() - i,
                        {
                            if !ivs[i].schema_type.check_resolvable() {
                                proof {
                                    assert(!wf_input_value(ivs@[i as int]));
                                }
                                return false;
                            }
                            i += 1;
                        }
                        true
                    },
                    None => false,
                }
            },
            TypeKind::List | TypeKind::NonNull => match (*self.of_type).as_ref() {
                Some(inner) => inner.check_declaration(),
                None => false,
            },
        }
    }
}

/// Decides whether every entry of the collection satisfies the structural
/// invariant, so that generation can be attempted at all.
pub fn check_types(types: &Vec<Type>) -> (r: bool)
    ensures
        r == wf_types(types@),
{
    let mut i: usize = 0;
    while i < types.len()
        invariant
            i <= types@.len(),
            forall|j: int| 0 <= j < i ==> #[trigger] wf_declaration(types@[j]),
        decreases types@.len() - i,
    {
        if !types[i].check_declaration() {
            return false;
        }
        i += 1;
    }
    true
}

} // verus!
