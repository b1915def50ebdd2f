use spacetimedb_codegen::cpp::Cpp;
use spacetimedb_codegen::entities::{generate, has_unique_paths};
use spacetimedb_codegen::model::{
    AlgebraicTypeDef, AlgebraicTypeRef, AlgebraicTypeUse, ModuleDef, PlainEnumTypeDef,
    PrimitiveType, ProductTypeDef, ReducerDef, ScopedTypeName, SumTypeDef, TableDef, TypeDef,
};

const NS: &str = "SpacetimeDb::Internal";

fn cpp() -> Cpp {
    Cpp { namespace: NS }
}

fn field(name: &str, ty: AlgebraicTypeUse) -> (String, AlgebraicTypeUse) {
    (name.to_string(), ty)
}

fn prim(p: PrimitiveType) -> AlgebraicTypeUse {
    AlgebraicTypeUse::Primitive(p)
}

fn reference(i: u32) -> AlgebraicTypeUse {
    AlgebraicTypeUse::Ref(AlgebraicTypeRef(i))
}

fn product(fields: Vec<(String, AlgebraicTypeUse)>) -> AlgebraicTypeDef {
    AlgebraicTypeDef::Product(ProductTypeDef { elements: fields })
}

fn plain_enum(variants: &[&str]) -> AlgebraicTypeDef {
    AlgebraicTypeDef::PlainEnum(PlainEnumTypeDef {
        variants: variants.iter().map(|v| v.to_string()).collect(),
    })
}

fn named(name: &str, i: u32) -> TypeDef {
    TypeDef {
        name: ScopedTypeName { scope: vec![], name: name.to_string() },
        ty: AlgebraicTypeRef(i),
    }
}

fn module(typespace: Vec<AlgebraicTypeDef>, types: Vec<TypeDef>) -> ModuleDef {
    ModuleDef { typespace: typespace.into_iter().map(Some).collect(), types, tables: vec![], reducers: vec![] }
}

fn file<'a>(files: &'a [(String, String)], path: &str) -> &'a str {
    &files.iter().find(|(p, _)| p == path).expect("missing header").1
}

const BANNER: &str = "// THIS FILE IS AUTOMATICALLY GENERATED BY SPACETIMEDB. EDITS TO THIS FILE\n\
// WILL NOT BE SAVED. MODIFY TABLES IN YOUR MODULE SOURCE CODE INSTEAD.\n\
\n\
// This was generated using spacetimedb codegen.\n\
\n";

const STANDARD_INCLUDES: &str = "#pragma once\n\
\n\
#include <cstdint>\n\
#include <string>\n\
#include <vector>\n\
#include <optional>\n\
#include <memory>\n\
#include \"spacetimedb/bsatn/bsatn.h\"\n";

#[test]
fn point_record_scenario() {
    let m = module(
        vec![product(vec![field("x", prim(PrimitiveType::I32)), field("y", prim(PrimitiveType::I32))])],
        vec![named("Point", 0)],
    );
    let files = generate(&m, &cpp());
    assert_eq!(files.len(), 1);
    assert_eq!(files[0].0, "Types/Point.g.h");
    let expected = format!(
        "{BANNER}{STANDARD_INCLUDES}\n\
namespace SpacetimeDb::Internal {{\n\
\n\
struct Point {{\n\
\x20   int32_t x;\n\
\x20   int32_t y;\n\
\n\
\x20   Point() = default;\n\
\n\
\x20   Point(int32_t x, int32_t y)\n\
\x20       : x(x), y(y) {{}}\n\
\n\
\x20   // BSATN serialization support\n\
\x20   void bsatn_serialize(SpacetimeDb::bsatn::Writer& writer) const;\n\
\x20   void bsatn_deserialize(SpacetimeDb::bsatn::Reader& reader);\n\
\n\
\x20   // Static factory method for BSATN deserialization\n\
\x20   static Point from_bsatn(SpacetimeDb::bsatn::Reader& reader) {{\n\
\x20       Point result;\n\
\x20       result.bsatn_deserialize(reader);\n\
\x20       return result;\n\
\x20   }}\n\
}};\n\
}} // namespace SpacetimeDb::Internal\n"
    );
    assert_eq!(files[0].1, expected);
}

#[test]
fn color_enum_scenario() {
    let m = module(vec![plain_enum(&["Red", "Green", "Blue"])], vec![named("Color", 0)]);
    let files = generate(&m, &cpp());
    assert_eq!(files.len(), 1);
    let expected = format!(
        "{BANNER}{STANDARD_INCLUDES}\n\
namespace SpacetimeDb::Internal {{\n\
\n\
enum class Color {{\n\
\x20   Red = 0,\n\
\x20   Green = 1,\n\
\x20   Blue = 2,\n\
}};\n\
}} // namespace SpacetimeDb::Internal\n\
\n\
// BSATN serialization for Color\n\
namespace SpacetimeDb::bsatn {{\n\
\x20   inline void serialize(Writer& w, const SpacetimeDb::Internal::Color& value) {{\n\
\x20       w.write_u8(static_cast<uint8_t>(value));\n\
\x20   }}\n\
\n\
\x20   template<>\n\
\x20   inline SpacetimeDb::Internal::Color deserialize<SpacetimeDb::Internal::Color>(Reader& r) {{\n\
\x20       return static_cast<SpacetimeDb::Internal::Color>(r.read_u8());\n\
\x20   }}\n\
}}\n"
    );
    assert_eq!(files[0].1, expected);
    assert!(!files[0].1.contains("= 3"));
}

#[test]
fn enum_ordinals_follow_declaration_order() {
    let names: Vec<String> = (0..12).map(|i| format!("V{i}")).collect();
    let refs: Vec<&str> = names.iter().map(|s| s.as_str()).collect();
    let m = module(vec![plain_enum(&refs)], vec![named("Many", 0)]);
    let files = generate(&m, &cpp());
    let text = &files[0].1;
    for (i, n) in names.iter().enumerate() {
        assert!(text.contains(&format!("    {n} = {i},\n")), "missing ordinal {i}");
    }
    let pos: Vec<usize> = names.iter().map(|n| text.find(&format!("    {n} = ")).unwrap()).collect();
    assert!(pos.windows(2).all(|w| w[0] < w[1]));
}

#[test]
fn one_header_per_entity() {
    let mut m = module(
        vec![
            product(vec![field("id", prim(PrimitiveType::U64))]),
            plain_enum(&["On", "Off"]),
        ],
        vec![named("User", 0), named("Switch", 1)],
    );
    m.tables.push(TableDef { name: "users".to_string(), product_type_ref: AlgebraicTypeRef(0) });
    m.reducers.push(ReducerDef { name: "add_user".to_string(), params: vec![] });
    let files = generate(&m, &cpp());
    let paths: Vec<&str> = files.iter().map(|(p, _)| p.as_str()).collect();
    assert_eq!(
        paths,
        vec!["Types/User.g.h", "Types/Switch.g.h", "Tables/users.g.h", "Reducers/add_user.g.h"]
    );
    assert!(has_unique_paths(&files));
}

#[test]
fn same_name_in_different_kinds_gets_distinct_paths() {
    let mut m = module(vec![product(vec![])], vec![named("Thing", 0)]);
    m.tables.push(TableDef { name: "Thing".to_string(), product_type_ref: AlgebraicTypeRef(0) });
    m.reducers.push(ReducerDef { name: "Thing".to_string(), params: vec![] });
    let files = generate(&m, &cpp());
    let paths: Vec<&str> = files.iter().map(|(p, _)| p.as_str()).collect();
    assert_eq!(paths, vec!["Types/Thing.g.h", "Tables/Thing.g.h", "Reducers/Thing.g.h"]);
    assert!(has_unique_paths(&files));
}

#[test]
fn duplicate_paths_are_detected() {
    let files = vec![
        ("Types/A.g.h".to_string(), "a".to_string()),
        ("Types/B.g.h".to_string(), "b".to_string()),
        ("Types/A.g.h".to_string(), "c".to_string()),
    ];
    assert!(!has_unique_paths(&files));
    assert!(has_unique_paths(&files[..2].to_vec()));
    assert!(has_unique_paths(&vec![]));
}

#[test]
fn declared_names_like_placeholders_are_dependencies() {
    let m = module(
        vec![
            product(vec![field("a", reference(1)), field("b", reference(2)), field("c", reference(3))]),
            product(vec![]),
            product(vec![]),
            product(vec![]),
        ],
        vec![named("Host", 0), named("ProductType_7", 1), named("TypeRef_2", 2)],
    );
    let files = generate(&m, &cpp());
    let host = file(&files, "Types/Host.g.h");
    assert!(host.contains("#include \"ProductType_7.g.h\"\n#include \"TypeRef_2.g.h\"\n\n"));
    assert!(host.contains("    ProductType_3 c;\n"));
    assert!(!host.contains("ProductType_3.g.h"));
}

fn dependency_module(order: &[usize]) -> ModuleDef {
    let all = vec![
        field("z", reference(1)),
        field("a", reference(2)),
        field("m", reference(3)),
        field("a2", reference(2)),
    ];
    let mut fields = vec![];
    for &i in order {
        let (n, t) = &all[i];
        let t = match t {
            AlgebraicTypeUse::Ref(r) => AlgebraicTypeUse::Ref(*r),
            _ => unreachable!(),
        };
        fields.push((n.clone(), t));
    }
    module(
        vec![product(fields), product(vec![]), product(vec![]), product(vec![])],
        vec![named("Root", 0), named("Zeta", 1), named("Alpha", 2), named("Mid", 3)],
    )
}

#[test]
fn generation_is_deterministic() {
    let m = dependency_module(&[0, 1, 2, 3]);
    let first = generate(&m, &cpp());
    let second = generate(&m, &cpp());
    assert_eq!(first, second);
    let text = file(&first, "Types/Root.g.h");
    let includes = "#include \"spacetimedb/bsatn/bsatn.h\"\n\
#include \"Alpha.g.h\"\n\
#include \"Mid.g.h\"\n\
#include \"Zeta.g.h\"\n\
\n";
    assert!(text.contains(includes));
    assert_eq!(text.matches("#include \"Alpha.g.h\"").count(), 1);
}

#[test]
fn dependency_order_ignores_field_order() {
    let a = generate(&dependency_module(&[0, 1, 2, 3]), &cpp());
    let b = generate(&dependency_module(&[3, 2, 1, 0]), &cpp());
    let inc = |t: &str| -> Vec<String> {
        t.lines().filter(|l| l.starts_with("#include \"") && l.ends_with(".g.h\"")).map(String::from).collect()
    };
    assert_eq!(inc(file(&a, "Types/Root.g.h")), inc(file(&b, "Types/Root.g.h")));
}

#[test]
fn record_fields_keep_declared_order() {
    let m = module(
        vec![product(vec![
            field("c", AlgebraicTypeUse::String),
            field("a", prim(PrimitiveType::Bool)),
            field("b", AlgebraicTypeUse::Array(Box::new(prim(PrimitiveType::U8)))),
        ])],
        vec![named("Rec", 0)],
    );
    let files = generate(&m, &cpp());
    let text = &files[0].1;
    assert!(text.contains(
        "struct Rec {\n    std::string c;\n    bool a;\n    std::vector<uint8_t> b;\n\n"
    ));
    assert!(text.contains("    Rec(std::string c, bool a, std::vector<uint8_t> b)\n        : c(c), a(a), b(b) {}\n"));
}

#[test]
fn empty_record_has_no_full_constructor() {
    let m = module(vec![product(vec![])], vec![named("Empty", 0)]);
    let files = generate(&m, &cpp());
    let text = &files[0].1;
    assert!(text.contains("struct Empty {\n\n    Empty() = default;\n\n\n    // BSATN serialization support\n"));
    assert_eq!(text.matches("Empty(").count(), 1);
}

#[test]
fn dependencies_are_single_level() {
    let m = module(
        vec![
            product(vec![field("q", reference(1))]),
            product(vec![field("r", reference(2))]),
            product(vec![field("v", prim(PrimitiveType::U8))]),
        ],
        vec![named("P", 0), named("Q", 1), named("R", 2)],
    );
    let files = generate(&m, &cpp());
    let p = file(&files, "Types/P.g.h");
    assert!(p.contains("#include \"Q.g.h\"\n"));
    assert!(!p.contains("R.g.h"));
    assert!(p.contains("    Q q;\n"));
    let q = file(&files, "Types/Q.g.h");
    assert!(q.contains("#include \"R.g.h\"\n"));
    let r = file(&files, "Types/R.g.h");
    assert_eq!(r.matches("#include").count(), 6);
}

#[test]
fn wrapped_references_are_dependencies() {
    let m = module(
        vec![
            product(vec![field(
                "items",
                AlgebraicTypeUse::Array(Box::new(AlgebraicTypeUse::Option(Box::new(reference(1))))),
            )]),
            product(vec![]),
        ],
        vec![named("Bag", 0), named("Item", 1)],
    );
    let files = generate(&m, &cpp());
    let bag = file(&files, "Types/Bag.g.h");
    assert!(bag.contains("    std::vector<std::optional<Item>> items;\n"));
    assert!(bag.contains("#include \"Item.g.h\"\n"));
}

#[test]
fn anonymous_references_get_placeholders() {
    let mut typespace = vec![product(vec![
        field("p", reference(1)),
        field("s", reference(2)),
        field("e", reference(3)),
        field("missing", reference(9)),
        field("u", AlgebraicTypeUse::Unhandled),
    ])];
    typespace.push(product(vec![]));
    typespace.push(AlgebraicTypeDef::Sum(SumTypeDef { variants: vec![] }));
    typespace.push(plain_enum(&["A"]));
    let m = module(typespace, vec![named("Holder", 0)]);
    let files = generate(&m, &cpp());
    let text = &files[0].1;
    assert!(text.contains("    ProductType_1 p;\n"));
    assert!(text.contains("    SumType_2 s;\n"));
    assert!(text.contains("    PlainEnum_3 e;\n"));
    assert!(text.contains("    TypeRef_9 missing;\n"));
    assert!(text.contains("    /* unhandled type */ u;\n"));
    assert_eq!(text.matches("#include").count(), 6);
}

#[test]
fn placeholder_index_is_decimal() {
    let mut typespace: Vec<AlgebraicTypeDef> = (0..12).map(|_| product(vec![])).collect();
    typespace.push(AlgebraicTypeDef::Sum(SumTypeDef { variants: vec![] }));
    typespace[0] = product(vec![field("f", reference(12))]);
    let m = module(typespace, vec![named("Host", 0)]);
    let cpp = cpp();
    assert_eq!(cpp.resolve_type_ref(&m, &AlgebraicTypeRef(12)), "SumType_12");
    assert_eq!(cpp.resolve_type_ref(&m, &AlgebraicTypeRef(0)), "Host");
    assert_eq!(cpp.resolve_type_ref(&m, &AlgebraicTypeRef(1000)), "TypeRef_1000");
}

#[test]
fn first_named_type_wins() {
    let m = module(vec![product(vec![])], vec![named("First", 0), named("Second", 0)]);
    assert_eq!(cpp().resolve_type_ref(&m, &AlgebraicTypeRef(0)), "First");
}

#[test]
fn tagged_union_tags_follow_variant_order() {
    let m = module(
        vec![
            AlgebraicTypeDef::Sum(SumTypeDef {
                variants: vec![field("Circle", prim(PrimitiveType::F32)), field("Square", reference(1))],
            }),
            product(vec![]),
        ],
        vec![named("Shape", 0), named("Side", 1)],
    );
    let files = generate(&m, &cpp());
    let text = file(&files, "Types/Shape.g.h");
    assert!(text.contains("class Shape {\npublic:\n    enum class Tag {\n        Circle = 0,\n        Square = 1,\n    };\n"));
    assert!(text.contains("    Tag get_tag() const { return tag_; }\n"));
    assert!(text.contains("    // Union of variant data would go here\n"));
    assert!(text.contains("#include \"Side.g.h\"\n"));
    assert!(text.ends_with("};\n} // namespace SpacetimeDb::Internal\n"));
}

#[test]
fn table_and_reducer_headers() {
    let mut m = module(
        vec![product(vec![field("owner", reference(1))]), product(vec![])],
        vec![named("Row", 0), named("Owner", 1)],
    );
    m.tables.push(TableDef { name: "rows".to_string(), product_type_ref: AlgebraicTypeRef(0) });
    m.reducers.push(ReducerDef { name: "tick".to_string(), params: vec![field("n", prim(PrimitiveType::U32))] });
    let cpp = cpp();
    let table = cpp.generate_table(&m, &m.tables[0]);
    assert!(table.starts_with(BANNER));
    assert!(table.contains("#include \"Owner.g.h\"\n"));
    assert!(table.contains("// Table definition for rows\n"));
    assert!(table.contains("using TableDef_rows = void*;\n"));
    let reducer = cpp.generate_reducer(&m, &m.reducers[0]);
    assert!(reducer.starts_with(BANNER));
    assert_eq!(reducer.matches("#include").count(), 6);
    assert!(reducer.contains("// Reducer definition for tick\n"));
    assert!(reducer.contains("using ReducerDef_tick = void*;\n"));
    assert!(reducer.ends_with("} // namespace SpacetimeDb::Internal\n"));
    assert!(table.contains("// TODO: Replace with actual table type from schema\n"));
    assert!(reducer.contains("// TODO: Replace with actual reducer type from schema\n"));
    assert_eq!(cpp.table_filename(&m, &m.tables[0]), "Tables/rows.g.h");
    assert_eq!(cpp.reducer_filename(&m.reducers[0].name), "Reducers/tick.g.h");
    assert_eq!(cpp.type_filename(&m.types[1].name), "Types/Owner.g.h");
    assert!(cpp.generate_globals(&m).is_empty());
}

#[test]
fn table_without_record_row_has_no_extra_includes() {
    let mut m = module(vec![plain_enum(&["A"])], vec![]);
    m.tables.push(TableDef { name: "odd".to_string(), product_type_ref: AlgebraicTypeRef(0) });
    m.tables.push(TableDef { name: "lost".to_string(), product_type_ref: AlgebraicTypeRef(7) });
    let cpp = cpp();
    assert_eq!(cpp.generate_table(&m, &m.tables[0]).matches("#include").count(), 6);
    assert_eq!(cpp.generate_table(&m, &m.tables[1]).matches("#include").count(), 6);
}

#[test]
fn namespace_is_used_verbatim() {
    let m = module(vec![plain_enum(&["X"])], vec![named("E", 0)]);
    let files = generate(&m, &Cpp { namespace: "TestNamespace::Internal" });
    let text = &files[0].1;
    assert!(text.contains("namespace TestNamespace::Internal {\n\n"));
    assert!(text.contains("} // namespace TestNamespace::Internal\n"));
    assert!(text.contains("const TestNamespace::Internal::E& value"));
}

#[test]
fn header_pieces() {
    let c = cpp();
    let mut out = String::from("x");
    c.write_header_comment(&mut out);
    assert_eq!(out, format!("x{BANNER}"));
    let mut out = String::new();
    c.write_includes(&mut out, &vec!["A.g.h".to_string(), "B.g.h".to_string()]);
    assert_eq!(out, format!("{STANDARD_INCLUDES}#include \"A.g.h\"\n#include \"B.g.h\"\n\n"));
    let mut out = String::new();
    c.write_namespace_begin(&mut out);
    c.write_namespace_end(&mut out);
    assert_eq!(out, "namespace SpacetimeDb::Internal {\n\n} // namespace SpacetimeDb::Internal\n");
}

#[test]
fn primitive_spellings() {
    let c = cpp();
    let cases = [
        (PrimitiveType::Bool, "bool"),
        (PrimitiveType::I8, "int8_t"),
        (PrimitiveType::U8, "uint8_t"),
        (PrimitiveType::I16, "int16_t"),
        (PrimitiveType::U16, "uint16_t"),
        (PrimitiveType::I32, "int32_t"),
        (PrimitiveType::U32, "uint32_t"),
        (PrimitiveType::I64, "int64_t"),
        (PrimitiveType::U64, "uint64_t"),
        (PrimitiveType::I128, "SpacetimeDb::Types::int128_t_placeholder"),
        (PrimitiveType::U128, "SpacetimeDb::Types::uint128_t_placeholder"),
        (PrimitiveType::I256, "SpacetimeDb::sdk::i256_placeholder"),
        (PrimitiveType::U256, "SpacetimeDb::sdk::u256_placeholder"),
        (PrimitiveType::F32, "float"),
        (PrimitiveType::F64, "double"),
    ];
    for (p, s) in cases {
        assert_eq!(c.cpp_primitive_type(&p), s);
    }
}

#[test]
fn collected_dependencies_are_sorted_and_unique() {
    let m = dependency_module(&[0, 1, 2, 3]);
    let c = cpp();
    let deps = match &m.typespace[0] {
        Some(AlgebraicTypeDef::Product(p)) => c.collect_product_dependencies(&m, p),
        _ => unreachable!(),
    };
    assert_eq!(deps, vec!["Alpha".to_string(), "Mid".to_string(), "Zeta".to_string()]);
}

#[test]
fn reference_to_a_position_without_definition() {
    let mut m = module(vec![product(vec![field("g", reference(1))])], vec![named("Host", 0)]);
    m.typespace.push(None);
    let files = generate(&m, &cpp());
    let text = &files[0].1;
    assert!(text.contains("    TypeRef_1 g;\n"));
    assert_eq!(text.matches("#include").count(), 6);
}

#[test]
fn field_types_do_not_change_name_order() {
    let a = module(
        vec![product(vec![field("k", prim(PrimitiveType::U8)), field("j", AlgebraicTypeUse::String)])],
        vec![named("R", 0)],
    );
    let b = module(
        vec![product(vec![
            field("k", AlgebraicTypeUse::Option(Box::new(AlgebraicTypeUse::String))),
            field("j", prim(PrimitiveType::I64)),
        ])],
        vec![named("R", 0)],
    );
    let ta = generate(&a, &cpp()).remove(0).1;
    let tb = generate(&b, &cpp()).remove(0).1;
    assert!(ta.contains("        : k(k), j(j) {}\n"));
    assert!(tb.contains("        : k(k), j(j) {}\n"));
    assert!(tb.contains("    R(std::optional<std::string> k, int64_t j)\n"));
    assert!(tb.contains("    std::optional<std::string> k;\n    int64_t j;\n"));
}
