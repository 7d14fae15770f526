//! Describes the shape of data types as an in-memory schema tree.
//!
//! A type implements [`Describe`]: it reports its shape to a [`Describer`] by
//! one call of the describer's operations. Composite shapes report their
//! members through a builder that the describer hands back; each member is
//! described first, with a copy of the same describer, and its description is
//! handed to the builder. [`describe`] drives a type with the reference
//! describer, [`SchemaDescriber`], which builds a [`Schema`].
//!
//! Every contract is stated over [`Shape`], the mathematical view of a schema:
//! `describe::<T>()` returns a schema whose view is `T::shape()`.
use vstd::prelude::*;
use vstd::string::StringExecFns;

mod decimal;
pub mod describe;
pub mod laws;
mod primitive;
pub mod schema;
pub mod schema_describer;
pub mod shape;

pub use crate::describe::{
    Describe, DescribeEnum, DescribeStruct, DescribeStructVariant, DescribeTuple,
    DescribeTupleStruct, DescribeTupleVariant, Describer,
};
pub use crate::schema::{
    Array, Enum, Field, Mapping, NewtypeStruct, Primitive, PrimitiveValue, Schema, Sequence,
    Struct, StructLike, TupleStruct, UnitStruct, Variant,
};
pub use crate::schema_describer::{
    EnumDescriber, SchemaDescriber, StructDescriber, StructVariantDescriber, TupleDescriber,
    TupleStructDescriber, TupleVariantDescriber,
};
pub use crate::shape::{Shape, TypeNameView, VariantShape};
use crate::shape::{composite, generic_name, joined, qualified};

verus! {

/// Unique name for a type.
///
/// A type is identified by its name together with the module in which it is
/// declared: two types of one name cannot be declared in the same module.
#[derive(Debug, PartialEq, Eq, Hash)]
pub struct TypeName {
    /// The local name of the type.
    pub name: String,
    /// The path of the module where the type is declared, starting with the crate name.
    pub module: String,
}

impl View for TypeName {
    type V = TypeNameView;

    open spec fn view(&self) -> TypeNameView {
        TypeNameView { name: self.name@, module: self.module@ }
    }
}

/// Describes `T` into an in-memory representation of its type tree.
///
/// Each call starts a fresh describer; describing never fails.
pub fn describe<T: Describe>() -> (r: Result<Schema, ()>)
    ensures
        r is Ok,
        r->Ok_0@ == T::shape(),
{
    T::describe(SchemaDescriber)
}

/// The identities of `args`, in order.
pub open spec fn names_view(args: Seq<TypeName>) -> Seq<TypeNameView> {
    args.map_values(|t: TypeName| t@)
}

impl Clone for TypeName {
    fn clone(&self) -> (r: Self)
        ensures
            r == *self,
    {
        TypeName { name: self.name.clone(), module: self.module.clone() }
    }
}

impl TypeName {
    /// The identity of the type `name` declared in `module`.
    pub fn new(name: &str, module: &str) -> (r: TypeName)
        ensures
            r@ == (TypeNameView { name: name@, module: module@ }),
    {
        TypeName { name: String::from_str(name), module: String::from_str(module) }
    }

    /// The identity of the generic type `name` of `module` applied to `args`.
    ///
    /// The arguments are folded into the name, so that one generic type applied
    /// to different arguments has different identities.
    pub fn generic(name: &str, module: &str, args: Vec<TypeName>) -> (r: TypeName)
        ensures
            r@ == generic_name(name@, module@, names_view(args@)),
    {
        let mut full = String::from_str(name);
        full.append("<");
        let ghost views = names_view(args@);
        let ghost start = full@;
        let mut i: usize = 0;
        while i < args.len()
            invariant
                0 <= i <= args@.len(),
                views == names_view(args@),
                full@ == start + joined(views.take(i as int)),
            decreases args@.len() - i,
        {
            let ghost before = full@;
            if i > 0 {
                full.append(", ");
            }
            let arg = &args[i];
            full.append(arg.qualified_name().as_str());
            proof {
                assert(views[i as int] == arg@);
                assert(views.take(i as int + 1).drop_last() =~= views.take(i as int));
                if i == 0 {
                    assert(views.take(1) =~= seq![arg@]);
                }
                assert(full@ =~= start + joined(views.take(i as int + 1)));
            }
            i = i + 1;
        }
        full.append(">");
        proof {
            assert(views.take(args@.len() as int) =~= views);
            assert(full@ =~= composite(name@, views));
        }
        TypeName { name: full, module: String::from_str(module) }
    }

    /// The name of the type with the path of its module in front.
    pub fn qualified_name(&self) -> (r: String)
        ensures
            r@ == qualified(self@),
    {
        if self.module.as_str().unicode_len() == 0 {
            self.name.clone()
        } else {
            let mut r = self.module.clone();
            r.append("::");
            r.append(self.name.as_str());
            r
        }
    }
}

} // verus!
