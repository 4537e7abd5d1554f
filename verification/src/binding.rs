//! Scalar bindings: the record that ties a native type to its scalar type.
//!
//! A binding is resolved once, when the schema is built, from what the type's
//! declaration says: its identifier, its documentation, and the overrides it
//! carries. Each of the three operations is either the explicit one that the
//! declaration names or, for a type with a single field, the one of that
//! field. The record is immutable afterwards.

use vstd::prelude::*;
use vstd::string::*;

verus! {

/// The characters of an optional string.
pub open spec fn opt_text(o: Option<String>) -> Option<Seq<char>> {
    match o {
        Some(s) => Some(s@),
        None => None,
    }
}

/// A copy of an optional string.
pub fn clone_opt(o: &Option<String>) -> (r: Option<String>)
    ensures
        opt_text(r) == opt_text(*o),
{
    match o {
        Some(s) => Some(s.clone()),
        None => None,
    }
}

/// How many fields the native type has: one, whose scalar type the binding
/// can delegate to, or several, with nothing to delegate to.
#[derive(Clone, Copy, Debug, PartialEq, Eq, Structural)]
pub enum Shape {
    SingleField,
    MultiField,
}

/// One of the three operations of a binding.
#[derive(Clone, Copy, Debug, PartialEq, Eq, Structural)]
pub enum Operation {
    ToOutput,
    FromInput,
    ParseToken,
}

/// Where an operation of a binding comes from.
#[derive(Clone, Copy, Debug, PartialEq, Eq, Structural)]
pub enum Slot {
    /// The operation that the declaration names.
    Explicit,
    /// The operation of the type's single field.
    Delegated,
}

/// Why a schema could not be built.
#[derive(Debug, PartialEq, Eq)]
pub enum SchemaError {
    /// Two types were registered under one name.
    DuplicateName { name: String },
    /// A type with several fields names no explicit operation for one of
    /// the three, and has no field to delegate to.
    MissingOperation { scalar: String, operation: Operation },
}

/// What a schema error is, over characters.
pub enum SchemaErrorModel {
    DuplicateName { name: Seq<char> },
    MissingOperation { scalar: Seq<char>, operation: Operation },
}

impl View for SchemaError {
    type V = SchemaErrorModel;

    open spec fn view(&self) -> SchemaErrorModel {
        match self {
            SchemaError::DuplicateName { name } => SchemaErrorModel::DuplicateName { name: name@ },
            SchemaError::MissingOperation { scalar, operation } => SchemaErrorModel::MissingOperation {
                scalar: scalar@,
                operation: *operation,
            },
        }
    }
}

/// What the declaration of a scalar type says.
#[derive(Debug, PartialEq, Eq)]
pub struct ScalarAttrs {
    /// The identifier of the native type.
    pub ident: String,
    /// The documentation text above the declaration.
    pub doc: Option<String>,
    /// The name override.
    pub name: Option<String>,
    /// The description override.
    pub description: Option<String>,
    /// The URL of the scalar's specification.
    pub specified_by_url: Option<String>,
    /// One field or several.
    pub shape: Shape,
    /// Whether the declaration names an encoder.
    pub to_output_with: bool,
    /// Whether the declaration names a decoder.
    pub from_input_with: bool,
    /// Whether the declaration names a token validator.
    pub parse_token_with: bool,
}

/// What a declaration is, over characters.
pub struct ScalarAttrsModel {
    pub ident: Seq<char>,
    pub doc: Option<Seq<char>>,
    pub name: Option<Seq<char>>,
    pub description: Option<Seq<char>>,
    pub specified_by_url: Option<Seq<char>>,
    pub shape: Shape,
    pub to_output_with: bool,
    pub from_input_with: bool,
    pub parse_token_with: bool,
}

/// The resolved binding of a scalar type.
#[derive(Debug, PartialEq, Eq)]
pub struct ScalarBinding {
    pub name: String,
    pub description: Option<String>,
    pub specified_by_url: Option<String>,
    pub to_output: Slot,
    pub from_input: Slot,
    pub parse_token: Slot,
}

/// What a binding is, over characters.
pub struct BindingModel {
    pub name: Seq<char>,
    pub description: Option<Seq<char>>,
    pub specified_by_url: Option<Seq<char>>,
    pub to_output: Slot,
    pub from_input: Slot,
    pub parse_token: Slot,
}

impl View for ScalarAttrs {
    type V = ScalarAttrsModel;

    open spec fn view(&self) -> ScalarAttrsModel {
        ScalarAttrsModel {
            ident: self.ident@,
            doc: opt_text(self.doc),
            name: opt_text(self.name),
            description: opt_text(self.description),
            specified_by_url: opt_text(self.specified_by_url),
            shape: self.shape,
            to_output_with: self.to_output_with,
            from_input_with: self.from_input_with,
            parse_token_with: self.parse_token_with,
        }
    }
}

impl View for ScalarBinding {
    type V = BindingModel;

    open spec fn view(&self) -> BindingModel {
        BindingModel {
            name: self.name@,
            description: opt_text(self.description),
            specified_by_url: opt_text(self.specified_by_url),
            to_output: self.to_output,
            from_input: self.from_input,
            parse_token: self.parse_token,
        }
    }
}

/// The slot of an operation: explicit where the declaration names one.
pub open spec fn slot_of(explicit: bool) -> Slot {
    if explicit {
        Slot::Explicit
    } else {
        Slot::Delegated
    }
}

impl ScalarAttrsModel {
    /// The declaration of a type with one field and no override.
    pub open spec fn plain(ident: Seq<char>) -> Self {
        ScalarAttrsModel {
            ident,
            doc: None,
            name: None,
            description: None,
            specified_by_url: None,
            shape: Shape::SingleField,
            to_output_with: false,
            from_input_with: false,
            parse_token_with: false,
        }
    }

    /// The name under which the type is bound: the override where there is
    /// one, else the identifier.
    pub open spec fn bound_name(self) -> Seq<char> {
        match self.name {
            Some(n) => n,
            None => self.ident,
        }
    }

    /// The description of the binding: the override where there is one,
    /// else the documentation text, else none.
    pub open spec fn bound_description(self) -> Option<Seq<char>> {
        match self.description {
            Some(d) => Some(d),
            None => self.doc,
        }
    }

    /// The first operation, in the order encoder, decoder, validator, that
    /// can be neither explicit nor delegated.
    pub open spec fn missing_operation(self) -> Option<Operation> {
        if self.shape == Shape::SingleField {
            None
        } else if !self.to_output_with {
            Some(Operation::ToOutput)
        } else if !self.from_input_with {
            Some(Operation::FromInput)
        } else if !self.parse_token_with {
            Some(Operation::ParseToken)
        } else {
            None
        }
    }

    /// The binding that the declaration resolves to, or why it resolves to
    /// none.
    pub open spec fn resolve(self) -> Result<BindingModel, SchemaErrorModel> {
        match self.missing_operation() {
            Some(operation) => Err(
                SchemaErrorModel::MissingOperation { scalar: self.bound_name(), operation },
            ),
            None => Ok(
                BindingModel {
                    name: self.bound_name(),
                    description: self.bound_description(),
                    specified_by_url: self.specified_by_url,
                    to_output: slot_of(self.to_output_with),
                    from_input: slot_of(self.from_input_with),
                    parse_token: slot_of(self.parse_token_with),
                },
            ),
        }
    }
}

impl ScalarBinding {
    /// A copy of the binding.
    pub fn duplicate(&self) -> (r: Self)
        ensures
            r@ == self@,
    {
        ScalarBinding {
            name: self.name.clone(),
            description: clone_opt(&self.description),
            specified_by_url: clone_opt(&self.specified_by_url),
            to_output: self.to_output,
            from_input: self.from_input,
            parse_token: self.parse_token,
        }
    }
}

impl ScalarAttrs {
    /// The declaration of a type with one field and no override.
    pub fn new(ident: &str) -> (r: Self)
        ensures
            r@ == ScalarAttrsModel::plain(ident@),
    {
        ScalarAttrs {
            ident: String::from_str(ident),
            doc: None,
            name: None,
            description: None,
            specified_by_url: None,
            shape: Shape::SingleField,
            to_output_with: false,
            from_input_with: false,
            parse_token_with: false,
        }
    }

    /// The same declaration with documentation text above it.
    pub fn doc(self, text: &str) -> (r: Self)
        ensures
            r@ == (ScalarAttrsModel { doc: Some(text@), ..self@ }),
    {
        let mut r = self;
        r.doc = Some(String::from_str(text));
        r
    }

    /// The same declaration with a name override.
    pub fn name(self, name: &str) -> (r: Self)
        ensures
            r@ == (ScalarAttrsModel { name: Some(name@), ..self@ }),
    {
        let mut r = self;
        r.name = Some(String::from_str(name));
        r
    }

    /// The same declaration with a description override.
    pub fn description(self, text: &str) -> (r: Self)
        ensures
            r@ == (ScalarAttrsModel { description: Some(text@), ..self@ }),
    {
        let mut r = self;
        r.description = Some(String::from_str(text));
        r
    }

    /// The same declaration with the URL of the scalar's specification.
    pub fn specified_by_url(self, url: &str) -> (r: Self)
        ensures
            r@ == (ScalarAttrsModel { specified_by_url: Some(url@), ..self@ }),
    {
        let mut r = self;
        r.specified_by_url = Some(String::from_str(url));
        r
    }

    /// The same declaration for a type with several fields.
    pub fn multi_field(self) -> (r: Self)
        ensures
            r@ == (ScalarAttrsModel { shape: Shape::MultiField, ..self@ }),
    {
        let mut r = self;
        r.shape = Shape::MultiField;
        r
    }

    /// The same declaration naming an explicit encoder.
    pub fn to_output_with(self) -> (r: Self)
        ensures
            r@ == (ScalarAttrsModel { to_output_with: true, ..self@ }),
    {
        let mut r = self;
        r.to_output_with = true;
        r
    }

    /// The same declaration naming an explicit decoder.
    pub fn from_input_with(self) -> (r: Self)
        ensures
            r@ == (ScalarAttrsModel { from_input_with: true, ..self@ }),
    {
        let mut r = self;
        r.from_input_with = true;
        r
    }

    /// The same declaration naming an explicit token validator.
    pub fn parse_token_with(self) -> (r: Self)
        ensures
            r@ == (ScalarAttrsModel { parse_token_with: true, ..self@ }),
    {
        let mut r = self;
        r.parse_token_with = true;
        r
    }

    /// The first operation that can be neither explicit nor delegated.
    fn missing_operation(&self) -> (r: Option<Operation>)
        ensures
            r == self@.missing_operation(),
    {
        match self.shape {
            Shape::SingleField => None,
            Shape::MultiField => {
                if !self.to_output_with {
                    Some(Operation::ToOutput)
                } else if !self.from_input_with {
                    Some(Operation::FromInput)
                } else if !self.parse_token_with {
                    Some(Operation::ParseToken)
                } else {
                    None
                }
            },
        }
    }

    /// The name under which the type is bound.
    pub fn bound_name(&self) -> (r: String)
        ensures
            r@ == self@.bound_name(),
    {
        match &self.name {
            Some(n) => n.clone(),
            None => self.ident.clone(),
        }
    }

    /// Resolves the declaration: the binding, or the operation that a type
    /// with several fields fails to name.
    pub fn resolve(&self) -> (r: Result<ScalarBinding, SchemaError>)
        ensures
            match r {
                Ok(b) => self@.resolve() == Ok::<BindingModel, SchemaErrorModel>(b@),
                Err(e) => self@.resolve() == Err::<BindingModel, SchemaErrorModel>(e@),
            },
    {
        match self.missing_operation() {
            Some(operation) => Err(
                SchemaError::MissingOperation { scalar: self.bound_name(), operation },
            ),
            None => {
                let description = match &self.description {
                    Some(d) => Some(d.clone()),
                    None => clone_opt(&self.doc),
                };
                Ok(
                    ScalarBinding {
                        name: self.bound_name(),
                        description,
                        specified_by_url: clone_opt(&self.specified_by_url),
                        to_output: if self.to_output_with {
                            Slot::Explicit
                        } else {
                            Slot::Delegated
                        },
                        from_input: if self.from_input_with {
                            Slot::Explicit
                        } else {
                            Slot::Delegated
                        },
                        parse_token: if self.parse_token_with {
                            Slot::Explicit
                        } else {
                            Slot::Delegated
                        },
                    },
                )
            },
        }
    }
}

/// A declaration resolves to a binding exactly where no operation is
/// missing: always for a type with one field, and for a type with several
/// where it names all three.
pub proof fn lemma_resolves(attrs: ScalarAttrsModel)
    ensures
        attrs.resolve() is Ok <==> (attrs.shape == Shape::SingleField || (attrs.to_output_with
            && attrs.from_input_with && attrs.parse_token_with)),
{
}

/// The description of a binding: none where the declaration has neither
/// documentation nor an override; the documentation text where there is no
/// override; the override wherever there is one.
pub proof fn lemma_description(attrs: ScalarAttrsModel)
    requires
        attrs.resolve() is Ok,
    ensures
        attrs.doc is None && attrs.description is None ==> attrs.resolve()->Ok_0.description is None,
        attrs.description is None ==> attrs.resolve()->Ok_0.description == attrs.doc,
        attrs.description is Some ==> attrs.resolve()->Ok_0.description == attrs.description,
{
}

/// The name of a binding: the override wherever there is one, else the
/// identifier.
pub proof fn lemma_name(attrs: ScalarAttrsModel)
    requires
        attrs.resolve() is Ok,
    ensures
        attrs.name is Some ==> Some(attrs.resolve()->Ok_0.name) == attrs.name,
        attrs.name is None ==> attrs.resolve()->Ok_0.name == attrs.ident,
{
}

/// The URL of a binding is the one that the declaration gives, and none
/// where it gives none.
pub proof fn lemma_specified_by_url(attrs: ScalarAttrsModel)
    requires
        attrs.resolve() is Ok,
    ensures
        attrs.resolve()->Ok_0.specified_by_url == attrs.specified_by_url,
{
}

/// Each operation of a binding is the explicit one exactly where the
/// declaration names one: nothing of the field's operation is left beside
/// an explicit one.
pub proof fn lemma_slots(attrs: ScalarAttrsModel)
    requires
        attrs.resolve() is Ok,
    ensures
        attrs.resolve()->Ok_0.to_output == Slot::Explicit <==> attrs.to_output_with,
        attrs.resolve()->Ok_0.from_input == Slot::Explicit <==> attrs.from_input_with,
        attrs.resolve()->Ok_0.parse_token == Slot::Explicit <==> attrs.parse_token_with,
        attrs.shape == Shape::MultiField ==> attrs.resolve()->Ok_0.to_output == Slot::Explicit
            && attrs.resolve()->Ok_0.from_input == Slot::Explicit && attrs.resolve()->Ok_0.parse_token
            == Slot::Explicit,
{
}

} // verus!
