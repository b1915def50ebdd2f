//! Properties of generation as a whole, stated over the spec functions that
//! the emitters' contracts use.
use vstd::prelude::*;

use crate::entities::{
    dep_headers, generated, lemma_generated_paths_distinct, paths_distinct, reducer_path,
    table_path, type_includes, type_path,
};
use crate::model::{AlgebraicTypeDef, AlgebraicTypeRef, AlgebraicTypeUse, ModuleDef, ProductTypeDef};
use crate::resolve::{field_dependencies, fields_deps, named_at, resolved_name, use_deps};
use crate::cpp::type_text;
use crate::shapes::{
    ctor_inits, ctor_params, enumerator_line, enumerator_lines, init_text, member_line,
    member_lines, param_text,
};
use crate::sorted::{lemma_sorted_list_exists, strictly_sorted};
use crate::text::{concat, decimal, lemma_concat_split, lemma_decimal_injective};

verus! {

/// Generation yields exactly one header per named type, table and reducer,
/// in that order, each at the path of its own kind and name; in a
/// well-formed module no two headers share a path.
pub proof fn lemma_one_header_per_entity(m: ModuleDef, ns: Seq<char>)
    ensures
        generated(m, ns).len() == m.types@.len() + m.tables@.len() + m.reducers@.len(),
        forall|k: int|
            0 <= k < m.types@.len() ==> #[trigger] generated(m, ns)[k].0 == type_path(
                m.types@[k].name.name@,
            ),
        forall|k: int|
            0 <= k < m.tables@.len() ==> #[trigger] generated(m, ns)[m.types@.len() + k].0
                == table_path(m.tables@[k].name@),
        forall|k: int|
            0 <= k < m.reducers@.len() ==> #[trigger] generated(m, ns)[m.types@.len()
                + m.tables@.len() + k].0 == reducer_path(m.reducers@[k].name@),
        m.wf() ==> paths_distinct(generated(m, ns)),
{
    if m.wf() {
        lemma_generated_paths_distinct(m, ns);
    }
}

/// What a use of a type depends on is a finite set.
pub proof fn lemma_use_deps_finite(m: ModuleDef, t: AlgebraicTypeUse)
    ensures
        use_deps(m, t).finite(),
    decreases t,
{
    match t {
        AlgebraicTypeUse::Array(e) => lemma_use_deps_finite(m, *e),
        AlgebraicTypeUse::Option(e) => lemma_use_deps_finite(m, *e),
        _ => {},
    }
}

/// A name is a dependency of a field list exactly when some field's type depends on it.
pub proof fn lemma_fields_deps_members(m: ModuleDef, fields: Seq<(String, AlgebraicTypeUse)>)
    ensures
        fields_deps(m, fields).finite(),
        forall|x: Seq<char>|
            fields_deps(m, fields).contains(x) <==> exists|i: int|
                0 <= i < fields.len() && #[trigger] use_deps(m, fields[i].1).contains(x),
    decreases fields.len(),
{
    if fields.len() > 0 {
        let front = fields.drop_last();
        lemma_fields_deps_members(m, front);
        lemma_use_deps_finite(m, fields.last().1);
        assert forall|x: Seq<char>| fields_deps(m, fields).contains(x) <==> exists|i: int|
            0 <= i < fields.len() && #[trigger] use_deps(m, fields[i].1).contains(x) by {
            if fields_deps(m, front).contains(x) {
                let i = choose|i: int|
                    0 <= i < front.len() && #[trigger] use_deps(m, front[i].1).contains(x);
                assert(fields[i] == front[i]);
            }
            if exists|i: int| 0 <= i < fields.len() && #[trigger] use_deps(m, fields[i].1).contains(
                x,
            ) {
                let i = choose|i: int|
                    0 <= i < fields.len() && #[trigger] use_deps(m, fields[i].1).contains(x);
                if i < fields.len() - 1 {
                    assert(front[i] == fields[i]);
                }
            }
        }
    }
}

/// The dependency list of a field list is strictly sorted and holds exactly
/// the names that the fields' own types reference: the list is one level
/// deep, with nothing from the dependencies' own fields.
pub proof fn lemma_dependency_list_exact(m: ModuleDef, fields: Seq<(String, AlgebraicTypeUse)>)
    ensures
        strictly_sorted(field_dependencies(m, fields)),
        forall|x: Seq<char>|
            field_dependencies(m, fields).contains(x) <==> exists|i: int|
                0 <= i < fields.len() && #[trigger] use_deps(m, fields[i].1).contains(x),
{
    lemma_fields_deps_members(m, fields);
    lemma_sorted_list_exists(fields_deps(m, fields));
    let l = field_dependencies(m, fields);
    assert forall|x: Seq<char>| l.contains(x) <==> fields_deps(m, fields).contains(x) by {
        assert(l.to_set().contains(x) <==> l.contains(x));
    }
}

/// The dependency list does not depend on the order of the fields, nor on
/// anything but which field types occur: generation leaks no ordering.
pub proof fn lemma_dependencies_ignore_field_order(
    m: ModuleDef,
    f1: Seq<(String, AlgebraicTypeUse)>,
    f2: Seq<(String, AlgebraicTypeUse)>,
)
    requires
        f1.to_set() == f2.to_set(),
    ensures
        field_dependencies(m, f1) == field_dependencies(m, f2),
{
    lemma_fields_deps_members(m, f1);
    lemma_fields_deps_members(m, f2);
    assert forall|x: Seq<char>| fields_deps(m, f1).contains(x) <==> fields_deps(m, f2).contains(
        x,
    ) by {
        if fields_deps(m, f1).contains(x) {
            let i = choose|i: int| 0 <= i < f1.len() && #[trigger] use_deps(m, f1[i].1).contains(x);
            assert(f1.to_set().contains(f1[i]));
            let j = choose|j: int| 0 <= j < f2.len() && f2[j] == f1[i];
            assert(use_deps(m, f2[j].1).contains(x));
        }
        if fields_deps(m, f2).contains(x) {
            let i = choose|i: int| 0 <= i < f2.len() && #[trigger] use_deps(m, f2[i].1).contains(x);
            assert(f2.to_set().contains(f2[i]));
            let j = choose|j: int| 0 <= j < f1.len() && f1[j] == f2[i];
            assert(use_deps(m, f1[j].1).contains(x));
        }
    }
    assert(fields_deps(m, f1) =~= fields_deps(m, f2));
}

/// A record whose field refers to a named record includes that record's
/// header; a field's array or option wrapping changes nothing.
pub proof fn lemma_direct_dependency_included(
    m: ModuleDef,
    product: ProductTypeDef,
    i: int,
    r: AlgebraicTypeRef,
)
    requires
        0 <= i < product.elements@.len(),
        use_deps(m, product.elements@[i].1).contains(resolved_name(m, r)),
    ensures
        field_dependencies(m, product.elements@).contains(resolved_name(m, r)),
        type_includes(m, AlgebraicTypeDef::Product(product)).contains(
            resolved_name(m, r) + ".g.h"@,
        ),
{
    let fields = product.elements@;
    lemma_dependency_list_exact(m, fields);
    let l = field_dependencies(m, fields);
    assert(l.contains(resolved_name(m, r)));
    let k = choose|k: int| 0 <= k < l.len() && l[k] == resolved_name(m, r);
    let h = dep_headers(l);
    assert(h.len() == l.len());
    assert(h[k] == l[k] + ".g.h"@);
    assert(h.contains(resolved_name(m, r) + ".g.h"@));
}

/// A reference that a named type declares depends on that type, whatever its name.
pub proof fn lemma_reference_is_dependency(m: ModuleDef, r: AlgebraicTypeRef)
    requires
        named_at(m.types@, r).is_some(),
    ensures
        use_deps(m, AlgebraicTypeUse::Ref(r)).contains(resolved_name(m, r)),
{
}

/// A record's members, constructor parameters and member initializers each
/// follow the declared field order, whatever the field types; each member
/// stands whole between the members before it and those after it.
pub proof fn lemma_record_field_order(m: ModuleDef, fields: Seq<(String, AlgebraicTypeUse)>)
    ensures
        member_lines(m, fields).len() == fields.len(),
        ctor_params(m, fields).len() == fields.len(),
        ctor_inits(fields).len() == fields.len(),
        forall|i: int|
            0 <= i < fields.len() ==> #[trigger] member_lines(m, fields)[i] == member_line(
                m,
                fields[i],
            ) && ctor_params(m, fields)[i] == param_text(m, fields[i]) && ctor_inits(fields)[i]
                == init_text(fields[i]),
        forall|i: int|
            0 <= i < fields.len() ==> #[trigger] concat(member_lines(m, fields)) == concat(
                member_lines(m, fields).take(i),
            ) + member_line(m, fields[i]) + concat(member_lines(m, fields).skip(i + 1)),
{
    assert forall|i: int| 0 <= i < fields.len() implies #[trigger] concat(member_lines(m, fields))
        == concat(member_lines(m, fields).take(i)) + member_line(m, fields[i]) + concat(
        member_lines(m, fields).skip(i + 1),
    ) by {
        lemma_concat_split(member_lines(m, fields), i);
    }
}

/// The name that a member line, a constructor parameter or an initializer
/// carries for field `f`: member lines end in `" " + name + ";\n"`,
/// parameters in `" " + name`, and initializers read `name(name)`.
pub open spec fn field_name(f: (String, AlgebraicTypeUse)) -> Seq<char> {
    f.0@
}

/// Two records whose fields carry the same names in the same order, with any
/// field types, name their members, parameters and initializers alike and in
/// that order: no field type changes the order or the names.
pub proof fn lemma_field_names_independent_of_types(
    m: ModuleDef,
    f1: Seq<(String, AlgebraicTypeUse)>,
    f2: Seq<(String, AlgebraicTypeUse)>,
)
    requires
        f1.len() == f2.len(),
        forall|i: int| 0 <= i < f1.len() ==> #[trigger] f1[i].0@ == f2[i].0@,
    ensures
        ctor_inits(f1) == ctor_inits(f2),
        forall|i: int|
            0 <= i < f1.len() ==> {
                &&& #[trigger] member_lines(m, f1)[i] == "    "@ + type_text(m, f1[i].1) + " "@
                    + field_name(f2[i]) + ";\n"@
                &&& ctor_params(m, f1)[i] == type_text(m, f1[i].1) + " "@ + field_name(f2[i])
                &&& ctor_inits(f1)[i] == field_name(f2[i]) + "("@ + field_name(f2[i]) + ")"@
            },
{
    assert(ctor_inits(f1) =~= ctor_inits(f2));
}

/// In a plain enumeration of at most 256 variants, the variant at position
/// `i` is declared with ordinal `i`, which fits in the one byte that the
/// serialize function writes; distinct variants have distinct ordinals, so
/// reading a byte below the variant count gives back exactly the variant
/// at that position.
pub proof fn lemma_enum_ordinals(variants: Seq<String>)
    requires
        variants.len() <= 256,
    ensures
        enumerator_lines(variants).len() == variants.len(),
        forall|i: int|
            0 <= i < variants.len() ==> #[trigger] enumerator_lines(variants)[i] == "    "@
                + variants[i]@ + " = "@ + decimal(i as nat) + ",\n"@ && i <= 255,
        forall|i: int, j: int|
            0 <= i < variants.len() && 0 <= j < variants.len() && i != j ==> #[trigger] decimal(
                i as nat,
            ) != #[trigger] decimal(j as nat),
        forall|i: int|
            0 <= i < variants.len() ==> #[trigger] concat(enumerator_lines(variants)) == concat(
                enumerator_lines(variants).take(i),
            ) + enumerator_line(i as nat, variants[i]@) + concat(
                enumerator_lines(variants).skip(i + 1),
            ),
{
    assert forall|i: int, j: int|
        0 <= i < variants.len() && 0 <= j < variants.len() && i != j implies #[trigger] decimal(
        i as nat,
    ) != #[trigger] decimal(j as nat) by {
        if decimal(i as nat) == decimal(j as nat) {
            lemma_decimal_injective(i as nat, j as nat);
        }
    }
    assert forall|i: int| 0 <= i < variants.len() implies #[trigger] concat(
        enumerator_lines(variants),
    ) == concat(enumerator_lines(variants).take(i)) + enumerator_line(i as nat, variants[i]@)
        + concat(enumerator_lines(variants).skip(i + 1)) by {
        lemma_concat_split(enumerator_lines(variants), i);
    }
}

} // verus!
