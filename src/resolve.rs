//! The type resolver, which names each type reference for use sites, and the
//! dependency collector, which lists the other headers a declaration needs.
use vstd::prelude::*;

use crate::cpp::Cpp;
use crate::model::{
    lookup, AlgebraicTypeDef, AlgebraicTypeRef, AlgebraicTypeUse, ModuleDef, ProductTypeDef,
    TypeDef,
};
use crate::sorted::{insert_sorted, lemma_is_sorted_list, names, sorted_list, strictly_sorted};
use crate::text::{append_decimal, decimal};

verus! {

/// The name of the first named type declared at `r`, if there is one.
pub open spec fn named_at(types: Seq<TypeDef>, r: AlgebraicTypeRef) -> Option<Seq<char>>
    decreases types.len(),
{
    if types.len() == 0 {
        None
    } else if types[0].ty == r {
        Some(types[0].name.name@)
    } else {
        named_at(types.drop_first(), r)
    }
}

/// The placeholder for a reference that no named type declares: the shape
/// of its definition and its position in the typespace.
pub open spec fn synthesized_name(m: ModuleDef, r: AlgebraicTypeRef) -> Seq<char> {
    match lookup(m, r) {
        Some(AlgebraicTypeDef::Product(_)) => "ProductType_"@ + decimal(r.0 as nat),
        Some(AlgebraicTypeDef::Sum(_)) => "SumType_"@ + decimal(r.0 as nat),
        Some(AlgebraicTypeDef::PlainEnum(_)) => "PlainEnum_"@ + decimal(r.0 as nat),
        None => "TypeRef_"@ + decimal(r.0 as nat),
    }
}

/// The name rendered wherever `r` is used.
pub open spec fn resolved_name(m: ModuleDef, r: AlgebraicTypeRef) -> Seq<char> {
    match named_at(m.types@, r) {
        Some(n) => n,
        None => synthesized_name(m, r),
    }
}

/// The names that a use of a type depends on: the declared name of each
/// reference inside arrays and options that a named type declares; a
/// reference that no named type declares gets a synthesized placeholder
/// name and no header of its own, so it is left out.
pub open spec fn use_deps(m: ModuleDef, t: AlgebraicTypeUse) -> Set<Seq<char>>
    decreases t,
{
    match t {
        AlgebraicTypeUse::Array(e) => use_deps(m, *e),
        AlgebraicTypeUse::Option(e) => use_deps(m, *e),
        AlgebraicTypeUse::Ref(r) => match named_at(m.types@, r) {
            Some(n) => set![n],
            None => Set::empty(),
        },
        _ => Set::empty(),
    }
}

/// The names that a list of fields or variants depends on.
pub open spec fn fields_deps(m: ModuleDef, fields: Seq<(String, AlgebraicTypeUse)>) -> Set<
    Seq<char>,
>
    decreases fields.len(),
{
    if fields.len() == 0 {
        Set::empty()
    } else {
        fields_deps(m, fields.drop_last()).union(use_deps(m, fields.last().1))
    }
}

/// The dependency list of a list of fields: its names, sorted.
pub open spec fn field_dependencies(m: ModuleDef, fields: Seq<(String, AlgebraicTypeUse)>) -> Seq<
    Seq<char>,
> {
    sorted_list(fields_deps(m, fields))
}

impl Cpp {
    /// Collect all type dependencies from an AlgebraicTypeUse.
    pub fn collect_type_dependencies(
        &self,
        module: &ModuleDef,
        typ: &AlgebraicTypeUse,
        deps: &mut Vec<String>,
    )
        requires
            strictly_sorted(names(old(deps)@)),
        ensures
            strictly_sorted(names(final(deps)@)),
            names(final(deps)@).to_set() == names(old(deps)@).to_set().union(
                use_deps(*module, *typ),
            ),
        decreases typ,
    {
        match typ {
            AlgebraicTypeUse::Array(elem_type) => {
                self.collect_type_dependencies(module, &**elem_type, deps);
            },
            AlgebraicTypeUse::Option(inner_type) => {
                self.collect_type_dependencies(module, &**inner_type, deps);
            },
            AlgebraicTypeUse::Ref(type_ref) => {
                if let Some(name) = self.find_named_type(module, type_ref) {
                    insert_sorted(deps, name);
                    assert(names(old(deps)@).to_set().insert(resolved_name(*module, *type_ref))
                        =~= names(old(deps)@).to_set().union(use_deps(*module, *typ)));
                } else {
                    assert(names(old(deps)@).to_set() =~= names(old(deps)@).to_set().union(
                        use_deps(*module, *typ),
                    ));
                }
            },
            _ => {
                assert(names(old(deps)@).to_set() =~= names(old(deps)@).to_set().union(
                    use_deps(*module, *typ),
                ));
            },
        }
    }

    /// The sorted dependency list of a list of fields or variants.
    pub fn collect_field_dependencies(
        &self,
        module: &ModuleDef,
        elements: &Vec<(String, AlgebraicTypeUse)>,
    ) -> (r: Vec<String>)
        ensures
            names(r@) == field_dependencies(*module, elements@),
    {
        let mut deps: Vec<String> = Vec::new();
        let mut i: usize = 0;
        assert(names(deps@).to_set() =~= Set::empty());
        while i < elements.len()
            invariant
                i <= elements.len(),
                strictly_sorted(names(deps@)),
                names(deps@).to_set() == fields_deps(*module, elements@.take(i as int)),
            decreases elements.len() - i,
        {
            self.collect_type_dependencies(module, &elements[i].1, &mut deps);
            assert(elements@.take(i + 1).drop_last() =~= elements@.take(i as int));
            i = i + 1;
        }
        assert(elements@.take(i as int) =~= elements@);
        proof {
            lemma_is_sorted_list(names(deps@));
        }
        deps
    }

    /// Collect all type dependencies from a ProductTypeDef.
    pub fn collect_product_dependencies(&self, module: &ModuleDef, product: &ProductTypeDef) -> (r:
        Vec<String>)
        ensures
            names(r@) == field_dependencies(*module, product.elements@),
    {
        self.collect_field_dependencies(module, &product.elements)
    }

    /// The name of the first named type declared at `type_ref`, if any.
    pub fn find_named_type(&self, module: &ModuleDef, type_ref: &AlgebraicTypeRef) -> (r: Option<
        String,
    >)
        ensures
            match named_at(module.types@, *type_ref) {
                Some(n) => r.is_some() && r.unwrap()@ == n,
                None => r.is_none(),
            },
    {
        let types = module.types();
        let mut i: usize = 0;
        assert(types@.skip(0) =~= types@);
        while i < types.len()
            invariant
                types@ == module.types@,
                i <= types@.len(),
                named_at(types@, *type_ref) == named_at(types@.skip(i as int), *type_ref),
            decreases types.len() - i,
        {
            if types[i].ty == *type_ref {
                return Some(types[i].name.name().clone());
            }
            assert(types@.skip(i as int).drop_first() =~= types@.skip(i + 1));
            i = i + 1;
        }
        assert(types@.skip(i as int).len() == 0);
        None
    }

    /// Resolve a type reference to its C++ type name.
    pub fn resolve_type_ref(&self, module: &ModuleDef, type_ref: &AlgebraicTypeRef) -> (r: String)
        ensures
            r@ == resolved_name(*module, *type_ref),
    {
        if let Some(name) = self.find_named_type(module, type_ref) {
            return name;
        }
        let idx = type_ref.idx() as u64;
        match module.get(*type_ref) {
            Some(AlgebraicTypeDef::Product(_)) => {
                let mut s = String::from_str("ProductType_");
                append_decimal(&mut s, idx);
                s
            },
            Some(AlgebraicTypeDef::Sum(_)) => {
                let mut s = String::from_str("SumType_");
                append_decimal(&mut s, idx);
                s
            },
            Some(AlgebraicTypeDef::PlainEnum(_)) => {
                let mut s = String::from_str("PlainEnum_");
                append_decimal(&mut s, idx);
                s
            },
            None => {
                let mut s = String::from_str("TypeRef_");
                append_decimal(&mut s, idx);
                s
            },
        }
    }
}

} // verus!
