//! One header per entity: named types, tables and reducers, their paths,
//! and the driver that generates every header of a module.
use vstd::prelude::*;
use vstd::seq_lib::lemma_concat_associative;

use crate::cpp::{header_comment_text, includes_text, namespace_begin_text, namespace_end_text, Cpp};
use crate::model::{
    lookup, AlgebraicTypeDef, ModuleDef, ReducerDef, ScopedTypeName, TableDef, TypeDef,
};
use crate::resolve::field_dependencies;
use crate::shapes::{plain_enum_text, product_text, sum_text};
use crate::sorted::names;

verus! {

/// The header files of a dependency list, in the same order.
pub open spec fn dep_headers(deps: Seq<Seq<char>>) -> Seq<Seq<char>> {
    deps.map_values(|d: Seq<char>| d + ".g.h"@)
}

/// The extra headers that a type definition includes: those of the names
/// its fields or variants depend on; none for a plain enumeration.
pub open spec fn type_includes(m: ModuleDef, def: AlgebraicTypeDef) -> Seq<Seq<char>> {
    match def {
        AlgebraicTypeDef::Product(p) => dep_headers(field_dependencies(m, p.elements@)),
        AlgebraicTypeDef::Sum(s) => dep_headers(field_dependencies(m, s.variants@)),
        AlgebraicTypeDef::PlainEnum(_) => Seq::empty(),
    }
}

/// The free serialize function of a plain enumeration: it writes the ordinal as one byte.
pub open spec fn enum_serialize_text(ns: Seq<char>, name: Seq<char>) -> Seq<char> {
    "    inline void serialize(Writer& w, const "@ + ns + "::"@ + name + "& value) {\n"@
        + "        w.write_u8(static_cast<uint8_t>(value));\n"@ + "    }\n"@
}

/// The free deserialize function of a plain enumeration: it reads one byte as the ordinal.
pub open spec fn enum_deserialize_text(ns: Seq<char>, name: Seq<char>) -> Seq<char> {
    "    template<>\n"@ + "    inline "@ + ns + "::"@ + name + " deserialize<"@ + ns + "::"@
        + name + ">(Reader& r) {\n"@ + "        return static_cast<"@ + ns + "::"@ + name
        + ">(r.read_u8());\n"@ + "    }\n"@
}

/// The free serialization functions of a plain enumeration, outside its namespace.
pub open spec fn enum_serialization_text(ns: Seq<char>, name: Seq<char>) -> Seq<char> {
    "// BSATN serialization for "@ + name + "\n"@ + "namespace SpacetimeDb::bsatn {\n"@
        + enum_serialize_text(ns, name) + "\n"@ + enum_deserialize_text(ns, name) + "}\n"@
}

/// The declaration of a type definition and the close of the namespace;
/// a plain enumeration's serialization functions follow, outside it.
pub open spec fn type_body_text(
    m: ModuleDef,
    ns: Seq<char>,
    name: Seq<char>,
    def: AlgebraicTypeDef,
) -> Seq<char> {
    match def {
        AlgebraicTypeDef::Product(p) => product_text(m, name, p.elements@) + namespace_end_text(ns),
        AlgebraicTypeDef::Sum(s) => sum_text(name, s.variants@) + namespace_end_text(ns),
        AlgebraicTypeDef::PlainEnum(e) => plain_enum_text(name, e.variants@) + namespace_end_text(
            ns,
        ) + "\n"@ + enum_serialization_text(ns, name),
    }
}

/// What follows the banner in the header of a type definition.
pub open spec fn type_def_text(
    m: ModuleDef,
    ns: Seq<char>,
    name: Seq<char>,
    def: AlgebraicTypeDef,
) -> Seq<char> {
    includes_text(type_includes(m, def)) + namespace_begin_text(ns) + type_body_text(
        m,
        ns,
        name,
        def,
    )
}

/// The header of a named type.
pub open spec fn type_header_text(m: ModuleDef, ns: Seq<char>, t: TypeDef) -> Seq<char> {
    header_comment_text() + type_def_text(m, ns, t.name.name@, lookup(m, t.ty).unwrap())
}

/// The extra headers of a table: those its row type depends on.
pub open spec fn table_includes(m: ModuleDef, t: TableDef) -> Seq<Seq<char>> {
    match lookup(m, t.product_type_ref) {
        Some(AlgebraicTypeDef::Product(p)) => dep_headers(field_dependencies(m, p.elements@)),
        _ => Seq::empty(),
    }
}

/// The placeholder declaration of a table.
pub open spec fn table_body_text(name: Seq<char>) -> Seq<char> {
    "// Table definition for "@ + name + "\n"@
        + "// This represents the structure used in module definitions\n"@
        + "// TODO: Replace with actual table type from schema\n"@ + "using TableDef_"@
        + name + " = void*;\n"@
}

/// The header of a table.
pub open spec fn table_header_text(m: ModuleDef, ns: Seq<char>, t: TableDef) -> Seq<char> {
    header_comment_text() + includes_text(table_includes(m, t)) + namespace_begin_text(ns)
        + table_body_text(t.name@) + namespace_end_text(ns)
}

/// The placeholder declaration of a reducer.
pub open spec fn reducer_body_text(name: Seq<char>) -> Seq<char> {
    "// Reducer definition for "@ + name + "\n"@
        + "// TODO: Replace with actual reducer type from schema\n"@
        + "using ReducerDef_"@ + name + " = void*;\n"@
}

/// The header of a reducer.
pub open spec fn reducer_header_text(ns: Seq<char>, r: ReducerDef) -> Seq<char> {
    header_comment_text() + includes_text(Seq::empty()) + namespace_begin_text(ns)
        + reducer_body_text(r.name@) + namespace_end_text(ns)
}

/// The path of the header of the entity named `name` in the directory `dir`.
pub open spec fn header_path(dir: Seq<char>, name: Seq<char>) -> Seq<char> {
    dir + name + ".g.h"@
}

/// The header path of a named type; the headers of named types sit side by
/// side, so that one includes another by its file name alone.
pub open spec fn type_path(name: Seq<char>) -> Seq<char> {
    header_path("Types/"@, name)
}

/// The header path of a table.
pub open spec fn table_path(name: Seq<char>) -> Seq<char> {
    header_path("Tables/"@, name)
}

/// The header path of a reducer.
pub open spec fn reducer_path(name: Seq<char>) -> Seq<char> {
    header_path("Reducers/"@, name)
}

/// Within one directory, distinct names give distinct paths.
pub proof fn lemma_header_path_injective(dir: Seq<char>, a: Seq<char>, b: Seq<char>)
    requires
        header_path(dir, a) == header_path(dir, b),
    ensures
        a == b,
{
    let ha = header_path(dir, a);
    let hb = header_path(dir, b);
    assert(ha.len() == dir.len() + a.len() + ".g.h"@.len());
    assert(hb.len() == dir.len() + b.len() + ".g.h"@.len());
    assert(a =~= ha.subrange(dir.len() as int, (dir.len() + a.len()) as int));
    assert(b =~= hb.subrange(dir.len() as int, (dir.len() + b.len()) as int));
}

/// Entities of different kinds never share a path, whatever their names.
pub proof fn lemma_kind_paths_differ(a: Seq<char>, b: Seq<char>)
    ensures
        type_path(a) != table_path(b),
        type_path(a) != reducer_path(b),
        table_path(a) != reducer_path(b),
{
    reveal_strlit("Types/");
    reveal_strlit("Tables/");
    reveal_strlit("Reducers/");
    assert(type_path(a)[1] == 'y');
    assert(table_path(b)[1] == 'a');
    assert(type_path(a)[0] == 'T');
    assert(reducer_path(b)[0] == 'R');
    assert(table_path(a)[0] == 'T');
}

/// The headers of the named types, in declaration order.
pub open spec fn type_entries(m: ModuleDef, ns: Seq<char>) -> Seq<(Seq<char>, Seq<char>)> {
    Seq::new(
        m.types@.len(),
        |i: int| (type_path(m.types@[i].name.name@), type_header_text(m, ns, m.types@[i])),
    )
}

/// The headers of the tables, in declaration order.
pub open spec fn table_entries(m: ModuleDef, ns: Seq<char>) -> Seq<(Seq<char>, Seq<char>)> {
    Seq::new(
        m.tables@.len(),
        |i: int| (table_path(m.tables@[i].name@), table_header_text(m, ns, m.tables@[i])),
    )
}

/// The headers of the reducers, in declaration order.
pub open spec fn reducer_entries(m: ModuleDef, ns: Seq<char>) -> Seq<(Seq<char>, Seq<char>)> {
    Seq::new(
        m.reducers@.len(),
        |i: int| (reducer_path(m.reducers@[i].name@), reducer_header_text(ns, m.reducers@[i])),
    )
}

/// Every header of a module, as (path, text): the named types, then the
/// tables, then the reducers.
pub open spec fn generated(m: ModuleDef, ns: Seq<char>) -> Seq<(Seq<char>, Seq<char>)> {
    type_entries(m, ns) + table_entries(m, ns) + reducer_entries(m, ns)
}

/// The character sequences of a list of (path, text) pairs.
pub open spec fn files_view(files: Seq<(String, String)>) -> Seq<(Seq<char>, Seq<char>)> {
    files.map_values(|f: (String, String)| (f.0@, f.1@))
}

/// No two entries share a path.
pub open spec fn paths_distinct(files: Seq<(Seq<char>, Seq<char>)>) -> bool {
    forall|i: int, j: int| 0 <= i < j < files.len() ==> #[trigger] files[i].0 != #[trigger] files[j].0
}

/// The header files of a dependency list.
fn dep_header_list(deps: &Vec<String>) -> (r: Vec<String>)
    ensures
        names(r@) == dep_headers(names(deps@)),
{
    let mut files: Vec<String> = Vec::new();
    let mut i: usize = 0;
    while i < deps.len()
        invariant
            i <= deps@.len(),
            names(files@) == dep_headers(names(deps@)).take(i as int),
        decreases deps.len() - i,
    {
        let ghost before = files@;
        let mut f = deps[i].clone();
        f.append(".g.h");
        files.push(f);
        assert(names(files@) =~= names(before).push(deps@[i as int]@ + ".g.h"@));
        assert(dep_headers(names(deps@)).take(i + 1) =~= dep_headers(names(deps@)).take(
            i as int,
        ).push(deps@[i as int]@ + ".g.h"@));
        i = i + 1;
    }
    assert(dep_headers(names(deps@)).take(i as int) =~= dep_headers(names(deps@)));
    files
}

/// The path `<dir><name>.g.h`.
fn header_path_of(dir: &str, name: &str) -> (r: String)
    ensures
        r@ == header_path(dir@, name@),
{
    let mut path = String::from_str(dir);
    path.append(name);
    path.append(".g.h");
    assert(path@ =~= header_path(dir@, name@));
    path
}

impl Cpp {
    /// The header path of a table.
    pub fn table_filename(&self, _module: &ModuleDef, table: &TableDef) -> (r: String)
        ensures
            r@ == table_path(table.name@),
    {
        header_path_of("Tables/", table.name.as_str())
    }

    /// The header path of a named type.
    pub fn type_filename(&self, name: &ScopedTypeName) -> (r: String)
        ensures
            r@ == type_path(name.name@),
    {
        header_path_of("Types/", name.name().as_str())
    }

    /// The header path of a reducer.
    pub fn reducer_filename(&self, reducer_name: &String) -> (r: String)
        ensures
            r@ == reducer_path(reducer_name@),
    {
        header_path_of("Reducers/", reducer_name.as_str())
    }

    /// Writes the free serialize function of a plain enumeration.
    fn write_enum_serialize(&self, output: &mut String, name: &str)
        ensures
            final(output)@ == old(output)@ + enum_serialize_text(self.namespace@, name@),
    {
        output.append("    inline void serialize(Writer& w, const ");
        output.append(self.namespace);
        output.append("::");
        output.append(name);
        output.append("& value) {\n");
        output.append("        w.write_u8(static_cast<uint8_t>(value));\n");
        output.append("    }\n");
        assert(output@ =~= old(output)@ + enum_serialize_text(self.namespace@, name@));
    }

    /// Writes the free deserialize function of a plain enumeration.
    fn write_enum_deserialize(&self, output: &mut String, name: &str)
        ensures
            final(output)@ == old(output)@ + enum_deserialize_text(self.namespace@, name@),
    {
        output.append("    template<>\n");
        output.append("    inline ");
        output.append(self.namespace);
        output.append("::");
        output.append(name);
        output.append(" deserialize<");
        output.append(self.namespace);
        output.append("::");
        output.append(name);
        output.append(">(Reader& r) {\n");
        output.append("        return static_cast<");
        output.append(self.namespace);
        output.append("::");
        output.append(name);
        output.append(">(r.read_u8());\n");
        output.append("    }\n");
        assert(output@ =~= old(output)@ + enum_deserialize_text(self.namespace@, name@));
    }

    /// Writes the free serialization functions of a plain enumeration.
    fn write_enum_serialization(&self, output: &mut String, name: &str)
        ensures
            final(output)@ == old(output)@ + enum_serialization_text(self.namespace@, name@),
    {
        output.append("// BSATN serialization for ");
        output.append(name);
        output.append("\n");
        output.append("namespace SpacetimeDb::bsatn {\n");
        self.write_enum_serialize(output, name);
        output.append("\n");
        self.write_enum_deserialize(output, name);
        output.append("}\n");
        assert(output@ =~= old(output)@ + enum_serialization_text(self.namespace@, name@));
    }

    /// Writes everything of a named type's header after the banner.
    pub fn write_type_def(&self, output: &mut String, module: &ModuleDef, typ: &TypeDef)
        requires
            lookup(*module, typ.ty).is_some(),
        ensures
            final(output)@ == old(output)@ + type_def_text(
                *module,
                self.namespace@,
                typ.name.name@,
                lookup(*module, typ.ty).unwrap(),
            ),
    {
        let name = typ.name.name().as_str();
        let def = module.get(typ.ty).unwrap();
        let ghost ns = self.namespace@;
        let ghost start = output@;
        let include_deps = match def {
            AlgebraicTypeDef::Product(product) => dep_header_list(
                &self.collect_product_dependencies(module, product),
            ),
            AlgebraicTypeDef::Sum(sum) => dep_header_list(
                &self.collect_field_dependencies(module, &sum.variants),
            ),
            AlgebraicTypeDef::PlainEnum(_) => {
                let v: Vec<String> = Vec::new();
                assert(names(v@) =~= Seq::<Seq<char>>::empty());
                v
            },
        };
        self.write_includes(output, &include_deps);
        self.write_namespace_begin(output);
        let ghost body_start = output@;
        match def {
            AlgebraicTypeDef::Product(product) => {
                self.write_product_type(output, module, name, product);
                self.write_namespace_end(output);
            },
            AlgebraicTypeDef::Sum(sum) => {
                self.write_sum_type(output, module, name, sum);
                self.write_namespace_end(output);
            },
            AlgebraicTypeDef::PlainEnum(plain_enum) => {
                self.write_plain_enum(output, name, plain_enum);
                self.write_namespace_end(output);
                output.append("\n");
                self.write_enum_serialization(output, name);
            },
        }
        proof {
            let d = *def;
            let i = includes_text(type_includes(*module, d));
            let b = namespace_begin_text(ns);
            let t = type_body_text(*module, ns, typ.name.name@, d);
            assert(output@ =~= body_start + t);
            lemma_concat_associative(start, i, b);
            lemma_concat_associative(start, i + b, t);
        }
    }

    /// The header of a named type.
    pub fn generate_type(&self, module: &ModuleDef, typ: &TypeDef) -> (r: String)
        requires
            lookup(*module, typ.ty).is_some(),
        ensures
            r@ == type_header_text(*module, self.namespace@, *typ),
    {
        let mut output = String::new();
        self.write_header_comment(&mut output);
        self.write_type_def(&mut output, module, typ);
        output
    }

    /// The header of a table: its row type's dependencies are included and
    /// the table itself is declared as a placeholder handle.
    pub fn generate_table(&self, module: &ModuleDef, table: &TableDef) -> (r: String)
        ensures
            r@ == table_header_text(*module, self.namespace@, *table),
    {
        let mut output = String::new();
        self.write_header_comment(&mut output);
        let include_deps = match module.get(table.product_type_ref) {
            Some(AlgebraicTypeDef::Product(product)) => dep_header_list(
                &self.collect_product_dependencies(module, product),
            ),
            _ => {
                let v: Vec<String> = Vec::new();
                assert(names(v@) =~= Seq::<Seq<char>>::empty());
                v
            },
        };
        self.write_includes(&mut output, &include_deps);
        self.write_namespace_begin(&mut output);
        let ghost body_start = output@;
        output.append("// Table definition for ");
        output.append(table.name.as_str());
        output.append("\n");
        output.append("// This represents the structure used in module definitions\n");
        output.append("// TODO: Replace with actual table type from schema\n");
        output.append("using TableDef_");
        output.append(table.name.as_str());
        output.append(" = void*;\n");
        assert(output@ =~= body_start + table_body_text(table.name@));
        self.write_namespace_end(&mut output);
        assert(output@ =~= table_header_text(*module, self.namespace@, *table));
        output
    }

    /// The header of a reducer, declared as a placeholder handle.
    pub fn generate_reducer(&self, _module: &ModuleDef, reducer: &ReducerDef) -> (r: String)
        ensures
            r@ == reducer_header_text(self.namespace@, *reducer),
    {
        let mut output = String::new();
        self.write_header_comment(&mut output);
        let includes: Vec<String> = Vec::new();
        assert(names(includes@) =~= Seq::<Seq<char>>::empty());
        self.write_includes(&mut output, &includes);
        self.write_namespace_begin(&mut output);
        let ghost body_start = output@;
        output.append("// Reducer definition for ");
        output.append(reducer.name.as_str());
        output.append("\n");
        output.append("// TODO: Replace with actual reducer type from schema\n");
        output.append("using ReducerDef_");
        output.append(reducer.name.as_str());
        output.append(" = void*;\n");
        assert(output@ =~= body_start + reducer_body_text(reducer.name@));
        self.write_namespace_end(&mut output);
        assert(output@ =~= reducer_header_text(self.namespace@, *reducer));
        output
    }

    /// Headers beyond those of the entities: this backend has none.
    pub fn generate_globals(&self, _module: &ModuleDef) -> (r: Vec<(String, String)>)
        ensures
            r@.len() == 0,
    {
        Vec::new()
    }
}

/// In a well-formed module, no two headers share a path.
pub proof fn lemma_generated_paths_distinct(m: ModuleDef, ns: Seq<char>)
    requires
        m.wf(),
    ensures
        paths_distinct(generated(m, ns)),
{
    let g = generated(m, ns);
    let t = m.types@.len() as int;
    let u = m.tables@.len() as int;
    assert forall|i: int, j: int| 0 <= i < j < g.len() implies #[trigger] g[i].0
        != #[trigger] g[j].0 by {
        if j < t {
            if g[i].0 == g[j].0 {
                lemma_header_path_injective("Types/"@, m.types@[i].name.name@, m.types@[j].name.name@);
            }
        } else if j < t + u {
            if i < t {
                lemma_kind_paths_differ(m.types@[i].name.name@, m.tables@[j - t].name@);
            } else if g[i].0 == g[j].0 {
                lemma_header_path_injective(
                    "Tables/"@,
                    m.tables@[i - t].name@,
                    m.tables@[j - t].name@,
                );
            }
        } else {
            if i < t {
                lemma_kind_paths_differ(m.types@[i].name.name@, m.reducers@[j - t - u].name@);
            } else if i < t + u {
                lemma_kind_paths_differ(m.tables@[i - t].name@, m.reducers@[j - t - u].name@);
            } else if g[i].0 == g[j].0 {
                lemma_header_path_injective(
                    "Reducers/"@,
                    m.reducers@[i - t - u].name@,
                    m.reducers@[j - t - u].name@,
                );
            }
        }
    }
}

/// Generates every header of a module: one (path, text) pair per named
/// type, table and reducer, no two at the same path.
pub fn generate(module: &ModuleDef, lang: &Cpp) -> (r: Vec<(String, String)>)
    requires
        module.wf(),
    ensures
        files_view(r@) == generated(*module, lang.namespace@),
        paths_distinct(files_view(r@)),
{
    proof {
        lemma_generated_paths_distinct(*module, lang.namespace@);
    }
    let ghost ns = lang.namespace@;
    let ghost m = *module;
    let mut files: Vec<(String, String)> = Vec::new();
    let mut i: usize = 0;
    assert(files_view(files@) =~= type_entries(m, ns).take(0));
    while i < module.types.len()
        invariant
            m == *module,
            ns == lang.namespace@,
            module.wf(),
            i <= module.types@.len(),
            files_view(files@) == type_entries(m, ns).take(i as int),
        decreases module.types.len() - i,
    {
        let typ = &module.types[i];
        let ghost before = files@;
        let path = lang.type_filename(&typ.name);
        let text = lang.generate_type(module, typ);
        assert((path@, text@) == type_entries(m, ns)[i as int]);
        files.push((path, text));
        assert(files_view(files@) =~= files_view(before).push(type_entries(m, ns)[i as int]));
        assert(type_entries(m, ns).take(i + 1) =~= type_entries(m, ns).take(i as int).push(
            type_entries(m, ns)[i as int],
        ));
        i = i + 1;
    }
    assert(type_entries(m, ns).take(i as int) =~= type_entries(m, ns));
    let ghost after_types = files@;
    let mut i: usize = 0;
    assert(files_view(files@) =~= type_entries(m, ns) + table_entries(m, ns).take(0));
    while i < module.tables.len()
        invariant
            m == *module,
            ns == lang.namespace@,
            i <= module.tables@.len(),
            files_view(files@) == type_entries(m, ns) + table_entries(m, ns).take(i as int),
        decreases module.tables.len() - i,
    {
        let table = &module.tables[i];
        let ghost before = files@;
        let path = lang.table_filename(module, table);
        let text = lang.generate_table(module, table);
        assert((path@, text@) == table_entries(m, ns)[i as int]);
        files.push((path, text));
        assert(files_view(files@) =~= files_view(before).push(table_entries(m, ns)[i as int]));
        assert(table_entries(m, ns).take(i + 1) =~= table_entries(m, ns).take(i as int).push(
            table_entries(m, ns)[i as int],
        ));
        i = i + 1;
    }
    assert(table_entries(m, ns).take(i as int) =~= table_entries(m, ns));
    let mut i: usize = 0;
    assert(files_view(files@) =~= type_entries(m, ns) + table_entries(m, ns) + reducer_entries(
        m,
        ns,
    ).take(0));
    while i < module.reducers.len()
        invariant
            m == *module,
            ns == lang.namespace@,
            i <= module.reducers@.len(),
            files_view(files@) == type_entries(m, ns) + table_entries(m, ns) + reducer_entries(
                m,
                ns,
            ).take(i as int),
        decreases module.reducers.len() - i,
    {
        let reducer = &module.reducers[i];
        let ghost before = files@;
        let path = lang.reducer_filename(&reducer.name);
        let text = lang.generate_reducer(module, reducer);
        assert((path@, text@) == reducer_entries(m, ns)[i as int]);
        files.push((path, text));
        assert(files_view(files@) =~= files_view(before).push(reducer_entries(m, ns)[i as int]));
        assert(reducer_entries(m, ns).take(i + 1) =~= reducer_entries(m, ns).take(i as int).push(
            reducer_entries(m, ns)[i as int],
        ));
        i = i + 1;
    }
    assert(reducer_entries(m, ns).take(i as int) =~= reducer_entries(m, ns));
    let mut globals = lang.generate_globals(module);
    let ghost before = files@;
    files.append(&mut globals);
    assert(files@ =~= before);
    files
}

/// Tests that no two entries share a path, so that writing them out loses none.
pub fn has_unique_paths(files: &Vec<(String, String)>) -> (r: bool)
    ensures
        r == paths_distinct(files_view(files@)),
{
    let ghost v = files_view(files@);
    let mut j: usize = 0;
    while j < files.len()
        invariant
            v == files_view(files@),
            j <= files@.len(),
            forall|a: int, b: int| 0 <= a < b < j ==> #[trigger] v[a].0 != #[trigger] v[b].0,
        decreases files.len() - j,
    {
        let mut i: usize = 0;
        while i < j
            invariant
                v == files_view(files@),
                i <= j < files@.len(),
                forall|a: int, b: int| 0 <= a < b < j ==> #[trigger] v[a].0 != #[trigger] v[b].0,
                forall|a: int| 0 <= a < i ==> #[trigger] v[a].0 != v[j as int].0,
            decreases j - i,
        {
            if files[i].0 == files[j].0 {
                assert(v[i as int].0 == v[j as int].0);
                return false;
            }
            i = i + 1;
        }
        j = j + 1;
    }
    true
}

} // verus!
