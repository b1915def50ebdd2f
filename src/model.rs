//! The module definition that generation reads: a typespace of algebraic type
//! definitions, and the ordered catalogs of named types, tables and reducers.
use vstd::prelude::*;

verus! {

/// A position in the module's typespace.
#[derive(Clone, Copy, Debug, PartialEq, Eq, Structural)]
pub struct AlgebraicTypeRef(pub u32);

impl AlgebraicTypeRef {
    /// The position as an index.
    pub fn idx(self) -> (r: usize)
        ensures
            r as int == self.0 as int,
    {
        self.0 as usize
    }
}

/// The fixed-width scalar types.
#[derive(Clone, Copy, Debug, PartialEq, Eq, Structural)]
pub enum PrimitiveType {
    Bool,
    I8,
    U8,
    I16,
    U16,
    I32,
    U32,
    I64,
    U64,
    I128,
    U128,
    I256,
    U256,
    F32,
    F64,
}

/// How a type appears where it is used: as a field, a variant payload or an argument.
#[derive(Debug)]
pub enum AlgebraicTypeUse {
    Primitive(PrimitiveType),
    Array(Box<AlgebraicTypeUse>),
    Option(Box<AlgebraicTypeUse>),
    String,
    Ref(AlgebraicTypeRef),
    /// A shape this backend has no rendering for (results, the unit type,
    /// identities, timestamps and the other special types).
    Unhandled,
}

/// A record: named fields in wire order.
#[derive(Debug)]
pub struct ProductTypeDef {
    pub elements: Vec<(String, AlgebraicTypeUse)>,
}

/// A tagged union: named variants with payloads; a variant's position is its tag.
#[derive(Debug)]
pub struct SumTypeDef {
    pub variants: Vec<(String, AlgebraicTypeUse)>,
}

/// A plain enumeration: variant names without payload; a variant's position is its ordinal.
#[derive(Debug)]
pub struct PlainEnumTypeDef {
    pub variants: Vec<String>,
}

/// How a type is declared in the typespace.
#[derive(Debug)]
pub enum AlgebraicTypeDef {
    Product(ProductTypeDef),
    Sum(SumTypeDef),
    PlainEnum(PlainEnumTypeDef),
}

/// A type name inside its enclosing scopes.
#[derive(Debug)]
pub struct ScopedTypeName {
    pub scope: Vec<String>,
    pub name: String,
}

impl ScopedTypeName {
    /// The unqualified name.
    pub fn name(&self) -> (r: &String)
        ensures
            r@ == self.name@,
    {
        &self.name
    }
}

/// A named type of the module.
#[derive(Debug)]
pub struct TypeDef {
    pub name: ScopedTypeName,
    pub ty: AlgebraicTypeRef,
}

/// A table and the record type of its rows.
#[derive(Debug)]
pub struct TableDef {
    pub name: String,
    pub product_type_ref: AlgebraicTypeRef,
}

/// A reducer (remote procedure) and its arguments.
#[derive(Debug)]
pub struct ReducerDef {
    pub name: String,
    pub params: Vec<(String, AlgebraicTypeUse)>,
}

/// A module definition, as generation reads it.
#[derive(Debug)]
pub struct ModuleDef {
    /// The definition at each position; a position may hold none.
    pub typespace: Vec<Option<AlgebraicTypeDef>>,
    pub types: Vec<TypeDef>,
    pub tables: Vec<TableDef>,
    pub reducers: Vec<ReducerDef>,
}

/// The definition at `r`, if the typespace has one.
pub open spec fn lookup(m: ModuleDef, r: AlgebraicTypeRef) -> Option<AlgebraicTypeDef> {
    if (r.0 as int) < m.typespace@.len() {
        m.typespace@[r.0 as int]
    } else {
        None
    }
}

impl ModuleDef {
    /// Every named type refers to a definition of the typespace, and within each kind of
    /// entity (named types, tables, reducers) no two share a name.
    pub open spec fn wf(&self) -> bool {
        &&& forall|i: int|
            0 <= i < self.types@.len() ==> lookup(*self, (#[trigger] self.types@[i]).ty).is_some()
        &&& forall|i: int, j: int|
            0 <= i < j < self.types@.len() ==> (#[trigger] self.types@[i]).name.name@
                != (#[trigger] self.types@[j]).name.name@
        &&& forall|i: int, j: int|
            0 <= i < j < self.tables@.len() ==> (#[trigger] self.tables@[i]).name@
                != (#[trigger] self.tables@[j]).name@
        &&& forall|i: int, j: int|
            0 <= i < j < self.reducers@.len() ==> (#[trigger] self.reducers@[i]).name@
                != (#[trigger] self.reducers@[j]).name@
    }

    /// The definition at `r`, if the typespace has one.
    pub fn get(&self, r: AlgebraicTypeRef) -> (d: Option<&AlgebraicTypeDef>)
        ensures
            match lookup(*self, r) {
                Some(x) => d == Some(&x),
                None => d.is_none(),
            },
    {
        let i = r.idx();
        if i < self.typespace.len() {
            match &self.typespace[i] {
                Some(d) => Some(d),
                None => None,
            }
        } else {
            None
        }
    }

    /// The named types, in declaration order.
    pub fn types(&self) -> (r: &Vec<TypeDef>)
        ensures
            r@ == self.types@,
    {
        &self.types
    }
}

} // verus!
