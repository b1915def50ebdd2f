//! The declaration emitters for the three shapes of type definition: records,
//! tagged unions and plain enumerations.
use vstd::prelude::*;

use crate::cpp::{type_text, Cpp};
use crate::model::{AlgebraicTypeUse, ModuleDef, PlainEnumTypeDef, ProductTypeDef, SumTypeDef};
use vstd::seq_lib::lemma_concat_associative;

use crate::text::{append_decimal, concat, decimal, join, lemma_concat_push, lemma_join_push};

verus! {

/// The member declaration of a record field.
pub open spec fn member_line(m: ModuleDef, f: (String, AlgebraicTypeUse)) -> Seq<char> {
    "    "@ + type_text(m, f.1) + " "@ + f.0@ + ";\n"@
}

/// The constructor parameter of a record field.
pub open spec fn param_text(m: ModuleDef, f: (String, AlgebraicTypeUse)) -> Seq<char> {
    type_text(m, f.1) + " "@ + f.0@
}

/// The member initializer of a record field.
pub open spec fn init_text(f: (String, AlgebraicTypeUse)) -> Seq<char> {
    f.0@ + "("@ + f.0@ + ")"@
}

/// The member declarations, one per field, in field order.
pub open spec fn member_lines(m: ModuleDef, fields: Seq<(String, AlgebraicTypeUse)>) -> Seq<
    Seq<char>,
> {
    fields.map_values(|f: (String, AlgebraicTypeUse)| member_line(m, f))
}

/// The constructor parameters, one per field, in field order.
pub open spec fn ctor_params(m: ModuleDef, fields: Seq<(String, AlgebraicTypeUse)>) -> Seq<
    Seq<char>,
> {
    fields.map_values(|f: (String, AlgebraicTypeUse)| param_text(m, f))
}

/// The member initializers, one per field, in field order.
pub open spec fn ctor_inits(fields: Seq<(String, AlgebraicTypeUse)>) -> Seq<Seq<char>> {
    fields.map_values(|f: (String, AlgebraicTypeUse)| init_text(f))
}

/// The full-value constructor; a record without fields has none.
pub open spec fn full_ctor_text(
    m: ModuleDef,
    name: Seq<char>,
    fields: Seq<(String, AlgebraicTypeUse)>,
) -> Seq<char> {
    if fields.len() > 0 {
        "    "@ + name + "("@ + join(ctor_params(m, fields), ", "@) + ")\n"@ + "        : "@
            + join(ctor_inits(fields), ", "@) + " {}\n"@
    } else {
        Seq::empty()
    }
}

/// The serialization declarations and the deserializing factory of a record.
pub open spec fn product_tail_text(name: Seq<char>) -> Seq<char> {
    "\n"@ + "    // BSATN serialization support\n"@
        + "    void bsatn_serialize(SpacetimeDb::bsatn::Writer& writer) const;\n"@
        + "    void bsatn_deserialize(SpacetimeDb::bsatn::Reader& reader);\n"@ + "\n"@
        + "    // Static factory method for BSATN deserialization\n"@ + "    static "@ + name
        + " from_bsatn(SpacetimeDb::bsatn::Reader& reader) {\n"@ + "        "@ + name
        + " result;\n"@ + "        result.bsatn_deserialize(reader);\n"@
        + "        return result;\n"@ + "    }\n"@ + "};\n"@
}

/// The opening of a record: its members and its default constructor.
pub open spec fn product_head_text(
    m: ModuleDef,
    name: Seq<char>,
    fields: Seq<(String, AlgebraicTypeUse)>,
) -> Seq<char> {
    "struct "@ + name + " {\n"@ + concat(member_lines(m, fields)) + "\n"@ + "    "@ + name
        + "() = default;\n"@ + "\n"@
}

/// The declaration of a record named `name`.
pub open spec fn product_text(
    m: ModuleDef,
    name: Seq<char>,
    fields: Seq<(String, AlgebraicTypeUse)>,
) -> Seq<char> {
    product_head_text(m, name, fields) + full_ctor_text(m, name, fields) + product_tail_text(name)
}

/// The tag enumerator of the variant at position `i`.
pub open spec fn tag_line(i: nat, variant: Seq<char>) -> Seq<char> {
    "        "@ + variant + " = "@ + decimal(i) + ",\n"@
}

/// The tag enumerators, one per variant, numbered by position.
pub open spec fn tag_lines(variants: Seq<(String, AlgebraicTypeUse)>) -> Seq<Seq<char>> {
    Seq::new(variants.len(), |i: int| tag_line(i as nat, variants[i].0@))
}

/// The declaration of a tagged union named `name`.
pub open spec fn sum_text(name: Seq<char>, variants: Seq<(String, AlgebraicTypeUse)>) -> Seq<char> {
    "class "@ + name + " {\n"@ + "public:\n"@ + "    enum class Tag {\n"@ + concat(
        tag_lines(variants),
    ) + "    };\n"@ + "\n"@ + "private:\n"@ + "    Tag tag_;\n"@
        + "    // Union of variant data would go here\n"@ + "\n"@ + "public:\n"@
        + "    Tag get_tag() const { return tag_; }\n"@ + "\n"@
        + "    // BSATN serialization support\n"@
        + "    void bsatn_serialize(SpacetimeDb::bsatn::Writer& writer) const;\n"@
        + "    void bsatn_deserialize(SpacetimeDb::bsatn::Reader& reader);\n"@ + "};\n"@
}

/// The enumerator of the variant at position `i`: its ordinal is `i`.
pub open spec fn enumerator_line(i: nat, variant: Seq<char>) -> Seq<char> {
    "    "@ + variant + " = "@ + decimal(i) + ",\n"@
}

/// The enumerators, one per variant, numbered by position.
pub open spec fn enumerator_lines(variants: Seq<String>) -> Seq<Seq<char>> {
    Seq::new(variants.len(), |i: int| enumerator_line(i as nat, variants[i]@))
}

/// The declaration of a plain enumeration named `name`.
pub open spec fn plain_enum_text(name: Seq<char>, variants: Seq<String>) -> Seq<char> {
    "enum class "@ + name + " {\n"@ + concat(enumerator_lines(variants)) + "};\n"@
}

impl Cpp {
    /// Writes the member declarations of the fields, in field order.
    fn write_members(&self, output: &mut String, module: &ModuleDef, elements: &Vec<(String, AlgebraicTypeUse)>)
        ensures
            final(output)@ == old(output)@ + concat(member_lines(*module, elements@)),
    {
        let ghost members = member_lines(*module, elements@);
        let mut i: usize = 0;
        assert(members.take(0) =~= Seq::<Seq<char>>::empty());
        while i < elements.len()
            invariant
                i <= elements@.len(),
                members == member_lines(*module, elements@),
                output@ == old(output)@ + concat(members.take(i as int)),
            decreases elements.len() - i,
        {
            output.append("    ");
            self.write_algebraic_type(output, module, &elements[i].1);
            output.append(" ");
            output.append(elements[i].0.as_str());
            output.append(";\n");
            proof {
                assert(members.take(i + 1) =~= members.take(i as int).push(members[i as int]));
                lemma_concat_push(members.take(i as int), members[i as int]);
                assert(output@ =~= old(output)@ + concat(members.take(i + 1)));
            }
            i = i + 1;
        }
        assert(members.take(i as int) =~= members);
    }

    /// Writes the constructor parameters of the fields, in field order.
    fn write_ctor_params(&self, output: &mut String, module: &ModuleDef, elements: &Vec<(String, AlgebraicTypeUse)>)
        ensures
            final(output)@ == old(output)@ + join(ctor_params(*module, elements@), ", "@),
    {
        let ghost params = ctor_params(*module, elements@);
        let mut i: usize = 0;
        assert(params.take(0) =~= Seq::<Seq<char>>::empty());
        while i < elements.len()
            invariant
                i <= elements@.len(),
                params == ctor_params(*module, elements@),
                output@ == old(output)@ + join(params.take(i as int), ", "@),
            decreases elements.len() - i,
        {
                if i > 0 {
                output.append(", ");
            }
            self.write_algebraic_type(output, module, &elements[i].1);
            output.append(" ");
            output.append(elements[i].0.as_str());
            proof {
                assert(params.take(i + 1) =~= params.take(i as int).push(params[i as int]));
                lemma_join_push(params.take(i as int), ", "@, params[i as int]);
                assert(output@ =~= old(output)@ + join(params.take(i + 1), ", "@));
            }
            i = i + 1;
        }
        assert(params.take(i as int) =~= params);
    }

    /// Writes the member initializers of the fields, in field order.
    fn write_ctor_inits(&self, output: &mut String, elements: &Vec<(String, AlgebraicTypeUse)>)
        ensures
            final(output)@ == old(output)@ + join(ctor_inits(elements@), ", "@),
    {
        let ghost inits = ctor_inits(elements@);
        let mut i: usize = 0;
        assert(inits.take(0) =~= Seq::<Seq<char>>::empty());
        while i < elements.len()
            invariant
                i <= elements@.len(),
                inits == ctor_inits(elements@),
                output@ == old(output)@ + join(inits.take(i as int), ", "@),
            decreases elements.len() - i,
        {
            if i > 0 {
                output.append(", ");
            }
            let field_name = elements[i].0.as_str();
            output.append(field_name);
            output.append("(");
            output.append(field_name);
            output.append(")");
            proof {
                assert(inits.take(i + 1) =~= inits.take(i as int).push(inits[i as int]));
                lemma_join_push(inits.take(i as int), ", "@, inits[i as int]);
                assert(output@ =~= old(output)@ + join(inits.take(i + 1), ", "@));
            }
            i = i + 1;
        }
        assert(inits.take(i as int) =~= inits);
    }

    /// Writes a record: members in field order, a default constructor, a
    /// full-value constructor when there are fields, and serialization stubs.
    pub fn write_product_type(
        &self,
        output: &mut String,
        module: &ModuleDef,
        name: &str,
        product: &ProductTypeDef,
    )
        ensures
            final(output)@ == old(output)@ + product_text(*module, name@, product.elements@),
    {
        let ghost fields = product.elements@;
        let ghost start = output@;
        output.append("struct ");
        output.append(name);
        output.append(" {\n");
        self.write_members(output, module, &product.elements);
        output.append("\n");
        output.append("    ");
        output.append(name);
        output.append("() = default;\n");
        output.append("\n");
        assert(output@ =~= start + product_head_text(*module, name@, fields));
        let ghost before_ctor = output@;
        if product.elements.len() > 0 {
            output.append("    ");
            output.append(name);
            output.append("(");
            self.write_ctor_params(output, module, &product.elements);
            output.append(")\n");
            output.append("        : ");
            self.write_ctor_inits(output, &product.elements);
            output.append(" {}\n");
        }
        assert(output@ =~= before_ctor + full_ctor_text(*module, name@, fields));
        let ghost before_tail = output@;
        output.append("\n");
        output.append("    // BSATN serialization support\n");
        output.append("    void bsatn_serialize(SpacetimeDb::bsatn::Writer& writer) const;\n");
        output.append("    void bsatn_deserialize(SpacetimeDb::bsatn::Reader& reader);\n");
        output.append("\n");
        output.append("    // Static factory method for BSATN deserialization\n");
        output.append("    static ");
        output.append(name);
        output.append(" from_bsatn(SpacetimeDb::bsatn::Reader& reader) {\n");
        output.append("        ");
        output.append(name);
        output.append(" result;\n");
        output.append("        result.bsatn_deserialize(reader);\n");
        output.append("        return result;\n");
        output.append("    }\n");
        output.append("};\n");
        assert(output@ =~= before_tail + product_tail_text(name@));
        proof {
            let h = product_head_text(*module, name@, fields);
            let c = full_ctor_text(*module, name@, fields);
            lemma_concat_associative(start, h, c);
            lemma_concat_associative(start, h + c, product_tail_text(name@));
        }
    }

    /// Writes a tagged union: a tag enumeration numbered by variant position,
    /// its accessor and serialization stubs; payload storage is left out.
    pub fn write_sum_type(
        &self,
        output: &mut String,
        _module: &ModuleDef,
        name: &str,
        sum: &SumTypeDef,
    )
        ensures
            final(output)@ == old(output)@ + sum_text(name@, sum.variants@),
    {
        let ghost variants = sum.variants@;
        output.append("class ");
        output.append(name);
        output.append(" {\n");
        output.append("public:\n");
        output.append("    enum class Tag {\n");
        let ghost head = output@;
        let ghost tags = tag_lines(variants);
        let mut i: usize = 0;
        while i < sum.variants.len()
            invariant
                i <= variants.len(),
                variants == sum.variants@,
                tags == tag_lines(variants),
                output@ == head + concat(tags.take(i as int)),
            decreases sum.variants.len() - i,
        {
            output.append("        ");
            output.append(sum.variants[i].0.as_str());
            output.append(" = ");
            append_decimal(output, i as u64);
            output.append(",\n");
            proof {
                assert(tags.take(i + 1) =~= tags.take(i as int).push(tags[i as int]));
                lemma_concat_push(tags.take(i as int), tags[i as int]);
                assert(output@ =~= head + concat(tags.take(i + 1)));
            }
            i = i + 1;
        }
        assert(tags.take(i as int) =~= tags);
        output.append("    };\n");
        output.append("\n");
        output.append("private:\n");
        output.append("    Tag tag_;\n");
        output.append("    // Union of variant data would go here\n");
        output.append("\n");
        output.append("public:\n");
        output.append("    Tag get_tag() const { return tag_; }\n");
        output.append("\n");
        output.append("    // BSATN serialization support\n");
        output.append("    void bsatn_serialize(SpacetimeDb::bsatn::Writer& writer) const;\n");
        output.append("    void bsatn_deserialize(SpacetimeDb::bsatn::Reader& reader);\n");
        output.append("};\n");
        assert(output@ =~= old(output)@ + sum_text(name@, variants));
    }

    /// Writes a plain enumeration whose ordinals are the variant positions.
    pub fn write_plain_enum(&self, output: &mut String, name: &str, plain_enum: &PlainEnumTypeDef)
        ensures
            final(output)@ == old(output)@ + plain_enum_text(name@, plain_enum.variants@),
    {
        let ghost variants = plain_enum.variants@;
        output.append("enum class ");
        output.append(name);
        output.append(" {\n");
        let ghost head = output@;
        let ghost lines = enumerator_lines(variants);
        let mut i: usize = 0;
        while i < plain_enum.variants.len()
            invariant
                i <= variants.len(),
                variants == plain_enum.variants@,
                lines == enumerator_lines(variants),
                output@ == head + concat(lines.take(i as int)),
            decreases plain_enum.variants.len() - i,
        {
            output.append("    ");
            output.append(plain_enum.variants[i].as_str());
            output.append(" = ");
            append_decimal(output, i as u64);
            output.append(",\n");
            proof {
                assert(lines.take(i + 1) =~= lines.take(i as int).push(lines[i as int]));
                lemma_concat_push(lines.take(i as int), lines[i as int]);
                assert(output@ =~= head + concat(lines.take(i + 1)));
            }
            i = i + 1;
        }
        assert(lines.take(i as int) =~= lines);
        output.append("};\n");
        assert(output@ =~= old(output)@ + plain_enum_text(name@, variants));
    }
}

} // verus!
