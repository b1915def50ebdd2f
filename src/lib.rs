//! C++ header generation for module definitions: one header per named type,
//! table and reducer, with computed include lists and serialization stubs.

pub mod cpp;
pub mod entities;
pub mod laws;
pub mod model;
pub mod resolve;
pub mod shapes;
pub mod sorted;
pub mod text;
