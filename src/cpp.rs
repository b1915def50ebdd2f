//! The C++ backend: the text that each emitter writes, stated as spec
//! functions, and the emitters that write it.
use vstd::prelude::*;

use crate::model::{AlgebraicTypeUse, ModuleDef, PrimitiveType};
use crate::resolve::resolved_name;
use crate::sorted::names;
use crate::text::{concat, lemma_concat_push};

verus! {

/// The C++ backend, configured with the namespace that every header opens.
pub struct Cpp {
    pub namespace: &'static str,
}

/// The banner at the top of every header.
pub open spec fn header_comment_text() -> Seq<char> {
    "// THIS FILE IS AUTOMATICALLY GENERATED BY SPACETIMEDB. EDITS TO THIS FILE\n"@
        + "// WILL NOT BE SAVED. MODIFY TABLES IN YOUR MODULE SOURCE CODE INSTEAD.\n"@ + "\n"@
        + "// This was generated using spacetimedb codegen.\n"@ + "\n"@
}

/// The directive that pulls in the header `file`.
pub open spec fn include_line(file: Seq<char>) -> Seq<char> {
    "#include \""@ + file + "\"\n"@
}

/// The standard directives of every header.
pub open spec fn standard_includes_text() -> Seq<char> {
    "#pragma once\n"@ + "\n"@ + "#include <cstdint>\n"@ + "#include <string>\n"@
        + "#include <vector>\n"@ + "#include <optional>\n"@ + "#include <memory>\n"@
        + "#include \"spacetimedb/bsatn/bsatn.h\"\n"@
}

/// The include section: the standard directives, one directive per extra
/// header in the given order, and a blank line.
pub open spec fn includes_text(extra: Seq<Seq<char>>) -> Seq<char> {
    standard_includes_text() + concat(extra.map_values(|f: Seq<char>| include_line(f)))
        + "\n"@
}

/// The opening of the namespace `ns`.
pub open spec fn namespace_begin_text(ns: Seq<char>) -> Seq<char> {
    "namespace "@ + ns + " {\n"@ + "\n"@
}

/// The closing of the namespace `ns`.
pub open spec fn namespace_end_text(ns: Seq<char>) -> Seq<char> {
    "} // namespace "@ + ns + "\n"@
}

/// The C++ spelling of a primitive type.
pub open spec fn primitive_text(p: PrimitiveType) -> Seq<char> {
    match p {
        PrimitiveType::Bool => "bool"@,
        PrimitiveType::I8 => "int8_t"@,
        PrimitiveType::U8 => "uint8_t"@,
        PrimitiveType::I16 => "int16_t"@,
        PrimitiveType::U16 => "uint16_t"@,
        PrimitiveType::I32 => "int32_t"@,
        PrimitiveType::U32 => "uint32_t"@,
        PrimitiveType::I64 => "int64_t"@,
        PrimitiveType::U64 => "uint64_t"@,
        PrimitiveType::I128 => "SpacetimeDb::Types::int128_t_placeholder"@,
        PrimitiveType::U128 => "SpacetimeDb::Types::uint128_t_placeholder"@,
        PrimitiveType::I256 => "SpacetimeDb::sdk::i256_placeholder"@,
        PrimitiveType::U256 => "SpacetimeDb::sdk::u256_placeholder"@,
        PrimitiveType::F32 => "float"@,
        PrimitiveType::F64 => "double"@,
    }
}

/// The C++ spelling of a use of a type.
pub open spec fn type_text(m: ModuleDef, t: AlgebraicTypeUse) -> Seq<char>
    decreases t,
{
    match t {
        AlgebraicTypeUse::Primitive(p) => primitive_text(p),
        AlgebraicTypeUse::Array(e) => "std::vector<"@ + type_text(m, *e) + ">"@,
        AlgebraicTypeUse::Option(e) => "std::optional<"@ + type_text(m, *e) + ">"@,
        AlgebraicTypeUse::String => "std::string"@,
        AlgebraicTypeUse::Ref(r) => resolved_name(m, r),
        AlgebraicTypeUse::Unhandled => "/* unhandled type */"@,
    }
}

impl Cpp {
    /// Writes the banner that marks the header as generated and not to be edited.
    pub fn write_header_comment(&self, output: &mut String)
        ensures
            final(output)@ == old(output)@ + header_comment_text(),
    {
        output.append("// THIS FILE IS AUTOMATICALLY GENERATED BY SPACETIMEDB. EDITS TO THIS FILE\n");
        output.append("// WILL NOT BE SAVED. MODIFY TABLES IN YOUR MODULE SOURCE CODE INSTEAD.\n");
        output.append("\n");
        output.append("// This was generated using spacetimedb codegen.\n");
        output.append("\n");
        assert(output@ =~= old(output)@ + header_comment_text());
    }

    /// Writes the include section: the standard headers, then one directive per extra header.
    pub fn write_includes(&self, output: &mut String, extra_includes: &Vec<String>)
        ensures
            final(output)@ == old(output)@ + includes_text(names(extra_includes@)),
    {
        output.append("#pragma once\n");
        output.append("\n");
        output.append("#include <cstdint>\n");
        output.append("#include <string>\n");
        output.append("#include <vector>\n");
        output.append("#include <optional>\n");
        output.append("#include <memory>\n");
        output.append("#include \"spacetimedb/bsatn/bsatn.h\"\n");
        assert(output@ =~= old(output)@ + standard_includes_text());
        let ghost start = output@;
        let ghost lines = names(extra_includes@).map_values(|f: Seq<char>| include_line(f));
        let mut i: usize = 0;
        while i < extra_includes.len()
            invariant
                i <= extra_includes@.len(),
                lines == names(extra_includes@).map_values(|f: Seq<char>| include_line(f)),
                output@ == start + concat(lines.take(i as int)),
            decreases extra_includes.len() - i,
        {
            output.append("#include \"");
            output.append(extra_includes[i].as_str());
            output.append("\"\n");
            proof {
                assert(lines.take(i + 1) =~= lines.take(i as int).push(lines[i as int]));
                lemma_concat_push(lines.take(i as int), lines[i as int]);
            }
            i = i + 1;
        }
        assert(lines.take(i as int) =~= lines);
        output.append("\n");
        assert(output@ =~= old(output)@ + includes_text(names(extra_includes@)));
    }

    /// Opens the configured namespace.
    pub fn write_namespace_begin(&self, output: &mut String)
        ensures
            final(output)@ == old(output)@ + namespace_begin_text(self.namespace@),
    {
        output.append("namespace ");
        output.append(self.namespace);
        output.append(" {\n");
        output.append("\n");
        assert(output@ =~= old(output)@ + namespace_begin_text(self.namespace@));
    }

    /// Closes the configured namespace.
    pub fn write_namespace_end(&self, output: &mut String)
        ensures
            final(output)@ == old(output)@ + namespace_end_text(self.namespace@),
    {
        output.append("} // namespace ");
        output.append(self.namespace);
        output.append("\n");
        assert(output@ =~= old(output)@ + namespace_end_text(self.namespace@));
    }

    /// The C++ spelling of a primitive type.
    pub fn cpp_primitive_type(&self, primitive: &PrimitiveType) -> (r: &'static str)
        ensures
            r@ == primitive_text(*primitive),
    {
        match primitive {
            PrimitiveType::Bool => "bool",
            PrimitiveType::I8 => "int8_t",
            PrimitiveType::U8 => "uint8_t",
            PrimitiveType::I16 => "int16_t",
            PrimitiveType::U16 => "uint16_t",
            PrimitiveType::I32 => "int32_t",
            PrimitiveType::U32 => "uint32_t",
            PrimitiveType::I64 => "int64_t",
            PrimitiveType::U64 => "uint64_t",
            PrimitiveType::I128 => "SpacetimeDb::Types::int128_t_placeholder",
            PrimitiveType::U128 => "SpacetimeDb::Types::uint128_t_placeholder",
            PrimitiveType::I256 => "SpacetimeDb::sdk::i256_placeholder",
            PrimitiveType::U256 => "SpacetimeDb::sdk::u256_placeholder",
            PrimitiveType::F32 => "float",
            PrimitiveType::F64 => "double",
        }
    }

    /// Writes the C++ spelling of a use of a type; shapes without a rendering
    /// become a visible placeholder comment.
    pub fn write_algebraic_type(&self, output: &mut String, module: &ModuleDef, typ: &AlgebraicTypeUse)
        ensures
            final(output)@ == old(output)@ + type_text(*module, *typ),
        decreases typ,
    {
        match typ {
            AlgebraicTypeUse::Primitive(p) => {
                output.append(self.cpp_primitive_type(p));
            },
            AlgebraicTypeUse::Array(elem_type) => {
                output.append("std::vector<");
                self.write_algebraic_type(output, module, &**elem_type);
                output.append(">");
                assert(output@ =~= old(output)@ + type_text(*module, *typ));
            },
            AlgebraicTypeUse::Option(inner_type) => {
                output.append("std::optional<");
                self.write_algebraic_type(output, module, &**inner_type);
                output.append(">");
                assert(output@ =~= old(output)@ + type_text(*module, *typ));
            },
            AlgebraicTypeUse::String => {
                output.append("std::string");
            },
            AlgebraicTypeUse::Ref(type_ref) => {
                let resolved = self.resolve_type_ref(module, type_ref);
                output.append(resolved.as_str());
            },
            AlgebraicTypeUse::Unhandled => {
                output.append("/* unhandled type */");
            },
        }
    }
}

} // verus!
