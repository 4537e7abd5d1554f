//! The type registry of a schema, and what introspection reads from it.
//!
//! A schema registers its root object type and the scalar types that the
//! root's fields use, each under its own name. Introspection looks a type up
//! by name and reads the record: it never runs a conversion.

use vstd::prelude::*;
use vstd::string::*;
use core::marker::PhantomData;
use crate::binding::{clone_opt, opt_text, BindingModel, ScalarBinding, SchemaError, SchemaErrorModel};
use crate::scalar_value::{DefaultScalarValue, ScalarValue};

verus! {

/// The kind of a registered type.
#[derive(Clone, Copy, Debug, PartialEq, Eq, Structural)]
pub enum TypeKind {
    Scalar,
    Object,
}

/// The name of a kind as introspection reports it.
pub open spec fn kind_text(kind: TypeKind) -> Seq<char> {
    match kind {
        TypeKind::Scalar => "SCALAR"@,
        TypeKind::Object => "OBJECT"@,
    }
}

impl TypeKind {
    /// The name of the kind as introspection reports it.
    pub fn as_str(&self) -> (r: &'static str)
        ensures
            r@ == kind_text(*self),
    {
        match self {
            TypeKind::Scalar => "SCALAR",
            TypeKind::Object => "OBJECT",
        }
    }
}

/// The record of a registered type: what introspection can read of it.
#[derive(Debug, PartialEq, Eq)]
pub struct TypeInfo {
    pub kind: TypeKind,
    pub name: String,
    pub description: Option<String>,
    pub specified_by_url: Option<String>,
}

/// What a type record is, over characters.
pub struct TypeInfoModel {
    pub kind: TypeKind,
    pub name: Seq<char>,
    pub description: Option<Seq<char>>,
    pub specified_by_url: Option<Seq<char>>,
}

impl View for TypeInfo {
    type V = TypeInfoModel;

    open spec fn view(&self) -> TypeInfoModel {
        TypeInfoModel {
            kind: self.kind,
            name: self.name@,
            description: opt_text(self.description),
            specified_by_url: opt_text(self.specified_by_url),
        }
    }
}

/// The record of a scalar type: its binding's name, description and URL,
/// with the kind `SCALAR`.
pub open spec fn scalar_info(b: BindingModel) -> TypeInfoModel {
    TypeInfoModel {
        kind: TypeKind::Scalar,
        name: b.name,
        description: b.description,
        specified_by_url: b.specified_by_url,
    }
}

/// The record of an object type.
pub open spec fn object_info(name: Seq<char>) -> TypeInfoModel {
    TypeInfoModel { kind: TypeKind::Object, name, description: None, specified_by_url: None }
}

/// Whether a type is registered under `name`.
pub open spec fn has_name(types: Seq<TypeInfoModel>, name: Seq<char>) -> bool {
    exists|i: int| 0 <= i < types.len() && (#[trigger] types[i]).name == name
}

/// Whether no two registered types share a name.
pub open spec fn names_unique(types: Seq<TypeInfoModel>) -> bool {
    forall|i: int, j: int|
        0 <= i < j < types.len() ==> (#[trigger] types[i]).name != (#[trigger] types[j]).name
}

/// The type registered under `name`: the first with that name, `None`
/// where there is none.
pub open spec fn lookup(types: Seq<TypeInfoModel>, name: Seq<char>) -> Option<TypeInfoModel>
    decreases types.len(),
{
    if types.len() == 0 {
        None
    } else if types[0].name == name {
        Some(types[0])
    } else {
        lookup(types.drop_first(), name)
    }
}

/// Registering one type: refused where the name is taken, else the type
/// comes last.
pub open spec fn register(types: Seq<TypeInfoModel>, t: TypeInfoModel) -> Result<
    Seq<TypeInfoModel>,
    SchemaErrorModel,
> {
    if has_name(types, t.name) {
        Err(SchemaErrorModel::DuplicateName { name: t.name })
    } else {
        Ok(types.push(t))
    }
}

/// Registering the scalar types of `bindings` in order, stopping at the
/// first whose name is taken.
pub open spec fn register_scalars(types: Seq<TypeInfoModel>, bindings: Seq<BindingModel>) -> Result<
    Seq<TypeInfoModel>,
    SchemaErrorModel,
>
    decreases bindings.len(),
{
    if bindings.len() == 0 {
        Ok(types)
    } else {
        match register(types, scalar_info(bindings[0])) {
            Ok(next) => register_scalars(next, bindings.drop_first()),
            Err(e) => Err(e),
        }
    }
}

/// The registry of a schema with the root object `root` and the scalar
/// types of `bindings`.
pub open spec fn schema_types(root: Seq<char>, bindings: Seq<BindingModel>) -> Result<
    Seq<TypeInfoModel>,
    SchemaErrorModel,
> {
    register_scalars(seq![object_info(root)], bindings)
}

/// `lookup` finds a type exactly where one has the name, and the type it
/// finds has that name and is registered.
pub proof fn lemma_lookup(types: Seq<TypeInfoModel>, name: Seq<char>)
    ensures
        lookup(types, name) is Some <==> has_name(types, name),
        lookup(types, name) matches Some(t) ==> t.name == name && types.contains(t),
    decreases types.len(),
{
    if types.len() == 0 {
    } else if types[0].name == name {
        assert(types[0] == types[0]);
    } else {
        let rest = types.drop_first();
        lemma_lookup(rest, name);
        if has_name(rest, name) {
            let i = choose|i: int| 0 <= i < rest.len() && (#[trigger] rest[i]).name == name;
            assert(types[i + 1] == rest[i]);
        }
        if has_name(types, name) {
            let i = choose|i: int| 0 <= i < types.len() && (#[trigger] types[i]).name == name;
            assert(rest[i - 1] == types[i]);
        }
        if let Some(t) = lookup(rest, name) {
            let i = choose|i: int| 0 <= i < rest.len() && rest[i] == t;
            assert(types[i + 1] == t);
        }
    }
}

/// A type that was just registered is found under its name, and every name
/// that was found before still finds the same type.
pub proof fn lemma_lookup_after_push(types: Seq<TypeInfoModel>, t: TypeInfoModel, name: Seq<char>)
    ensures
        lookup(types.push(t), name) == if has_name(types, name) {
            lookup(types, name)
        } else if t.name == name {
            Some(t)
        } else {
            None
        },
    decreases types.len(),
{
    lemma_lookup(types, name);
    if types.len() == 0 {
        assert(types.push(t).drop_first() =~= types);
    } else if types[0].name == name {
        assert(types[0] == types[0]);
    } else {
        let rest = types.drop_first();
        assert(types.push(t).drop_first() =~= rest.push(t));
        lemma_lookup_after_push(rest, t, name);
        lemma_lookup(rest, name);
    }
}

/// Whether one of `bindings` has the name `name`.
pub open spec fn binds_name(bindings: Seq<BindingModel>, name: Seq<char>) -> bool {
    exists|i: int| 0 <= i < bindings.len() && (#[trigger] bindings[i]).name == name
}

/// After the scalar types of `bindings` are registered, a name that was
/// taken before still finds its type, a binding's name finds the record of
/// that binding, and any other name finds nothing.
pub proof fn lemma_register_scalars(
    types: Seq<TypeInfoModel>,
    bindings: Seq<BindingModel>,
    name: Seq<char>,
)
    requires
        register_scalars(types, bindings) is Ok,
    ensures
        has_name(types, name) ==> lookup(register_scalars(types, bindings)->Ok_0, name) == lookup(
            types,
            name,
        ),
        !has_name(types, name) ==> forall|i: int|
            0 <= i < bindings.len() && (#[trigger] bindings[i]).name == name ==> lookup(
                register_scalars(types, bindings)->Ok_0,
                name,
            ) == Some(scalar_info(bindings[i])),
        !has_name(types, name) && !binds_name(bindings, name) ==> lookup(
            register_scalars(types, bindings)->Ok_0,
            name,
        ) is None,
    decreases bindings.len(),
{
    if bindings.len() == 0 {
        lemma_lookup(types, name);
    } else {
        let first = scalar_info(bindings[0]);
        let next = types.push(first);
        let rest = bindings.drop_first();
        lemma_register_scalars(next, rest, name);
        lemma_lookup_after_push(types, first, name);
        lemma_lookup(types, name);
        lemma_lookup(next, name);
        if binds_name(rest, name) {
            let k = choose|k: int| 0 <= k < rest.len() && (#[trigger] rest[k]).name == name;
            assert(bindings[k + 1] == rest[k]);
        }
        if !has_name(types, name) {
            assert forall|i: int|
                0 <= i < bindings.len() && (#[trigger] bindings[i]).name == name implies lookup(
                register_scalars(types, bindings)->Ok_0,
                name,
            ) == Some(scalar_info(bindings[i])) by {
                if i == 0 {
                } else {
                    assert(rest[i - 1] == bindings[i]);
                    if first.name == name {
                        // The name was taken by the first binding, so a
                        // later one with the same name is refused.
                        lemma_register_scalars_refuses(next, rest, i - 1);
                    }
                }
            }
        }
    }
}

/// Registration fails where a binding's name is already taken.
pub proof fn lemma_register_scalars_refuses(
    types: Seq<TypeInfoModel>,
    bindings: Seq<BindingModel>,
    i: int,
)
    requires
        0 <= i < bindings.len(),
        has_name(types, bindings[i].name),
    ensures
        register_scalars(types, bindings) is Err,
    decreases bindings.len(),
{
    if i == 0 {
    } else {
        let first = scalar_info(bindings[0]);
        if !has_name(types, first.name) {
            let next = types.push(first);
            let rest = bindings.drop_first();
            let k = choose|k: int| 0 <= k < types.len() && (#[trigger] types[k]).name == bindings[i].name;
            assert(next[k] == types[k]);
            assert(rest[i - 1] == bindings[i]);
            lemma_register_scalars_refuses(next, rest, i - 1);
        }
    }
}

/// In a schema that was built, every scalar binding is found under its
/// name, and what is found is of the kind `SCALAR` and carries the
/// binding's description and URL, whatever the declaration overrides.
pub proof fn lemma_scalar_is_found(root: Seq<char>, bindings: Seq<BindingModel>, i: int)
    requires
        schema_types(root, bindings) is Ok,
        0 <= i < bindings.len(),
    ensures
        lookup(schema_types(root, bindings)->Ok_0, bindings[i].name) == Some(scalar_info(bindings[i])),
        kind_text(scalar_info(bindings[i]).kind) == "SCALAR"@,
        scalar_info(bindings[i]).description == bindings[i].description,
        scalar_info(bindings[i]).specified_by_url == bindings[i].specified_by_url,
{
    let types = seq![object_info(root)];
    let name = bindings[i].name;
    if has_name(types, name) {
        lemma_register_scalars_refuses(types, bindings, i);
    }
    lemma_register_scalars(types, bindings, name);
}

/// In a schema that was built, a name that is neither the root's nor a
/// binding's finds nothing. So a type that is bound under an override is
/// not found under its identifier, unless another type took that name.
pub proof fn lemma_unbound_name_is_not_found(
    root: Seq<char>,
    bindings: Seq<BindingModel>,
    name: Seq<char>,
)
    requires
        schema_types(root, bindings) is Ok,
        name != root,
        !binds_name(bindings, name),
    ensures
        lookup(schema_types(root, bindings)->Ok_0, name) is None,
{
    let types = seq![object_info(root)];
    if has_name(types, name) {
        let k = choose|k: int| 0 <= k < types.len() && (#[trigger] types[k]).name == name;
        assert(types[k].name == root);
    }
    lemma_register_scalars(types, bindings, name);
}

/// The type registry of a schema. No two types in it share a name.
#[derive(Debug, PartialEq, Eq)]
pub struct Registry {
    types: Vec<TypeInfo>,
}

impl View for Registry {
    type V = Seq<TypeInfoModel>;

    closed spec fn view(&self) -> Seq<TypeInfoModel> {
        Seq::new(self.types@.len(), |i: int| self.types@[i]@)
    }
}

impl Registry {
    /// Whether no two types of the registry share a name. Every registry
    /// that this module hands out is well formed.
    pub open spec fn wf(&self) -> bool {
        names_unique(self@)
    }

    /// The registry without any type.
    pub fn new() -> (r: Self)
        ensures
            r@ == Seq::<TypeInfoModel>::empty(),
            r.wf(),
    {
        let r = Registry { types: Vec::new() };
        assert(r@ =~= Seq::<TypeInfoModel>::empty());
        r
    }

    /// The number of registered types.
    pub fn len(&self) -> (r: usize)
        ensures
            r == self@.len(),
    {
        self.types.len()
    }

    /// The type registered under `name`, `None` where there is none.
    pub fn get(&self, name: &str) -> (r: Option<&TypeInfo>)
        ensures
            match r {
                Some(t) => lookup(self@, name@) == Some(t@),
                None => lookup(self@, name@) is None,
            },
    {
        let wanted = String::from_str(name);
        let mut i: usize = 0;
        assert(self@.subrange(0, self@.len() as int) =~= self@);
        while i < self.types.len()
            invariant
                0 <= i <= self.types.len(),
                wanted@ == name@,
                lookup(self@, name@) == lookup(self@.subrange(i as int, self@.len() as int), name@),
            decreases self.types.len() - i,
        {
            let ghost rest = self@.subrange(i as int, self@.len() as int);
            assert(rest[0] == self.types@[i as int]@);
            assert(rest.drop_first() =~= self@.subrange(i + 1, self@.len() as int));
            if self.types[i].name == wanted {
                return Some(&self.types[i]);
            }
            i = i + 1;
        }
        assert(self@.subrange(i as int, self@.len() as int) =~= Seq::<TypeInfoModel>::empty());
        None
    }

    /// Registers a type under its name. Refused, with the registry
    /// unchanged, where the name is taken.
    fn insert(&mut self, t: TypeInfo) -> (r: Result<(), SchemaError>)
        requires
            old(self).wf(),
        ensures
            final(self).wf(),
            match r {
                Ok(()) => register(old(self)@, t@) == Ok::<Seq<TypeInfoModel>, SchemaErrorModel>(
                    final(self)@,
                ),
                Err(e) => register(old(self)@, t@) == Err::<Seq<TypeInfoModel>, SchemaErrorModel>(e@)
                    && final(self)@ == old(self)@,
            },
    {
        proof {
            lemma_lookup(self@, t.name@);
        }
        let taken = self.get(t.name.as_str()).is_some();
        if taken {
            Err(SchemaError::DuplicateName { name: t.name })
        } else {
            let ghost before = self@;
            self.types.push(t);
            assert(self@ =~= before.push(t@));
            assert forall|i: int, j: int| 0 <= i < j < self@.len() implies (#[trigger] self@[i]).name != (
            #[trigger] self@[j]).name by {
                if j == before.len() {
                    assert(before[i] == self@[i]);
                } else {
                    assert(before[i] == self@[i]);
                    assert(before[j] == self@[j]);
                }
            }
            Ok(())
        }
    }

    /// Registers a scalar type by its binding. Refused, with the registry
    /// unchanged, where the binding's name is taken.
    pub fn register_scalar(&mut self, binding: &ScalarBinding) -> (r: Result<(), SchemaError>)
        requires
            old(self).wf(),
        ensures
            final(self).wf(),
            match r {
                Ok(()) => register(old(self)@, scalar_info(binding@)) == Ok::<
                    Seq<TypeInfoModel>,
                    SchemaErrorModel,
                >(final(self)@),
                Err(e) => register(old(self)@, scalar_info(binding@)) == Err::<
                    Seq<TypeInfoModel>,
                    SchemaErrorModel,
                >(e@) && final(self)@ == old(self)@,
            },
    {
        self.insert(
            TypeInfo {
                kind: TypeKind::Scalar,
                name: binding.name.clone(),
                description: clone_opt(&binding.description),
                specified_by_url: clone_opt(&binding.specified_by_url),
            },
        )
    }

    /// Registers an object type by its name. Refused, with the registry
    /// unchanged, where the name is taken.
    pub fn register_object(&mut self, name: &str) -> (r: Result<(), SchemaError>)
        requires
            old(self).wf(),
        ensures
            final(self).wf(),
            match r {
                Ok(()) => register(old(self)@, object_info(name@)) == Ok::<
                    Seq<TypeInfoModel>,
                    SchemaErrorModel,
                >(final(self)@),
                Err(e) => register(old(self)@, object_info(name@)) == Err::<
                    Seq<TypeInfoModel>,
                    SchemaErrorModel,
                >(e@) && final(self)@ == old(self)@,
            },
    {
        self.insert(
            TypeInfo {
                kind: TypeKind::Object,
                name: String::from_str(name),
                description: None,
                specified_by_url: None,
            },
        )
    }
}

/// An object type at the root of a schema, as far as the registry needs
/// it: its name and the bindings of the scalar types that its fields take
/// and return.
pub trait GraphQLType<S: ScalarValue> {
    /// The name of the object type.
    spec fn name_spec(&self) -> Seq<char>;

    /// The bindings of the scalar types of its fields, each once.
    spec fn scalars_spec(&self) -> Seq<BindingModel>;

    /// The name of the object type.
    fn name(&self) -> (r: String)
        ensures
            r@ == self.name_spec(),
    ;

    /// The bindings of the scalar types of its fields, each once.
    fn scalars(&self) -> (r: Vec<ScalarBinding>)
        ensures
            r@.len() == self.scalars_spec().len(),
            forall|i: int| 0 <= i < r@.len() ==> (#[trigger] r@[i])@ == self.scalars_spec()[i],
    ;
}

/// An object type given as data: its name and the bindings of the scalar
/// types of its fields.
#[derive(Debug, PartialEq, Eq)]
pub struct ObjectInfo {
    pub name: String,
    pub scalars: Vec<ScalarBinding>,
}

impl<S: ScalarValue> GraphQLType<S> for ObjectInfo {
    open spec fn name_spec(&self) -> Seq<char> {
        self.name@
    }

    open spec fn scalars_spec(&self) -> Seq<BindingModel> {
        Seq::new(self.scalars@.len(), |i: int| self.scalars@[i]@)
    }

    fn name(&self) -> (r: String) {
        self.name.clone()
    }

    fn scalars(&self) -> (r: Vec<ScalarBinding>) {
        let mut r: Vec<ScalarBinding> = Vec::new();
        let mut i: usize = 0;
        while i < self.scalars.len()
            invariant
                0 <= i <= self.scalars.len(),
                r@.len() == i,
                forall|k: int| 0 <= k < i ==> (#[trigger] r@[k])@ == self.scalars@[k]@,
            decreases self.scalars.len() - i,
        {
            r.push(self.scalars[i].duplicate());
            i = i + 1;
        }
        r
    }
}

/// A schema: the query root and the registry of its types.
pub struct RootNode<Q, S> {
    query_root: Q,
    types: Registry,
    scalar: PhantomData<S>,
}

impl<S: ScalarValue, Q: GraphQLType<S>> RootNode<Q, S> {
    /// The registered types, in the order of their registration.
    pub closed spec fn types(&self) -> Seq<TypeInfoModel> {
        self.types@
    }

    /// The query root that the schema was built from.
    pub closed spec fn root(&self) -> Q {
        self.query_root
    }

    /// The query root that the schema was built from.
    pub fn query_root(&self) -> (r: &Q)
        ensures
            *r == self.root(),
    {
        &self.query_root
    }

    /// Builds the schema of a query root: registers the root, then the
    /// scalar types of its fields in order. Fails at the first name that is
    /// taken; the schema is then never produced.
    pub fn new_with_scalar_value(query_root: Q) -> (r: Result<Self, SchemaError>)
        ensures
            match r {
                Ok(node) => schema_types(query_root.name_spec(), query_root.scalars_spec()) == Ok::<
                    Seq<TypeInfoModel>,
                    SchemaErrorModel,
                >(node.types()) && node.root() == query_root && names_unique(node.types()),
                Err(e) => schema_types(query_root.name_spec(), query_root.scalars_spec()) == Err::<
                    Seq<TypeInfoModel>,
                    SchemaErrorModel,
                >(e@),
            },
    {
        let mut types = Registry::new();
        let name = query_root.name();
        assert(!has_name(types@, name@));
        match types.register_object(name.as_str()) {
            Ok(()) => {},
            Err(e) => {
                return Err(e);
            },
        }
        assert(types@ =~= seq![object_info(query_root.name_spec())]);
        let scalars = query_root.scalars();
        let ghost all = query_root.scalars_spec();
        let mut i: usize = 0;
        assert(all.subrange(0, all.len() as int) =~= all);
        while i < scalars.len()
            invariant
                0 <= i <= scalars.len(),
                types.wf(),
                all == query_root.scalars_spec(),
                scalars@.len() == all.len(),
                forall|k: int| 0 <= k < scalars@.len() ==> (#[trigger] scalars@[k])@ == all[k],
                schema_types(query_root.name_spec(), all) == register_scalars(
                    types@,
                    all.subrange(i as int, all.len() as int),
                ),
            decreases scalars.len() - i,
        {
            let ghost rest = all.subrange(i as int, all.len() as int);
            assert(rest[0] == scalars@[i as int]@);
            assert(rest.drop_first() =~= all.subrange(i + 1, all.len() as int));
            let ghost before = types@;
            match types.register_scalar(&scalars[i]) {
                Ok(()) => {},
                Err(e) => {
                    assert(register_scalars(before, rest) == Err::<Seq<TypeInfoModel>, SchemaErrorModel>(
                        e@,
                    ));
                    return Err(e);
                },
            }
            i = i + 1;
        }
        assert(all.subrange(i as int, all.len() as int) =~= Seq::<BindingModel>::empty());
        Ok(RootNode { query_root, types, scalar: PhantomData })
    }

    /// What introspection reads of the type registered under `name`;
    /// `None`, and no error, where no type has that name.
    pub fn type_by_name(&self, name: &str) -> (r: Option<&TypeInfo>)
        ensures
            match r {
                Some(t) => lookup(self.types(), name@) == Some(t@),
                None => lookup(self.types(), name@) is None,
            },
    {
        self.types.get(name)
    }
}

/// Builds the schema of a query root over the default scalar value type:
/// the registry holds the root, then the scalar types of its fields in
/// order. Fails at the first name that is taken.
pub fn schema<Q: GraphQLType<DefaultScalarValue>>(query_root: Q) -> (r: Result<
    RootNode<Q, DefaultScalarValue>,
    SchemaError,
>)
    ensures
        match r {
            Ok(node) => schema_types(query_root.name_spec(), query_root.scalars_spec()) == Ok::<
                Seq<TypeInfoModel>,
                SchemaErrorModel,
            >(node.types()) && node.root() == query_root && names_unique(node.types()),
            Err(e) => schema_types(query_root.name_spec(), query_root.scalars_spec()) == Err::<
                Seq<TypeInfoModel>,
                SchemaErrorModel,
            >(e@),
        },
{
    RootNode::new_with_scalar_value(query_root)
}

/// Builds the schema of a query root over the scalar value type `S`: the
/// registry holds the root, then the scalar types of its fields in order.
/// Fails at the first name that is taken.
pub fn schema_with_scalar<S: ScalarValue, Q: GraphQLType<S>>(query_root: Q) -> (r: Result<
    RootNode<Q, S>,
    SchemaError,
>)
    ensures
        match r {
            Ok(node) => schema_types(query_root.name_spec(), query_root.scalars_spec()) == Ok::<
                Seq<TypeInfoModel>,
                SchemaErrorModel,
            >(node.types()) && node.root() == query_root && names_unique(node.types()),
            Err(e) => schema_types(query_root.name_spec(), query_root.scalars_spec()) == Err::<
                Seq<TypeInfoModel>,
                SchemaErrorModel,
            >(e@),
        },
{
    RootNode::new_with_scalar_value(query_root)
}

} // verus!
