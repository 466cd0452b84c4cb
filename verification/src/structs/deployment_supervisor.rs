//! The parts of the supervisor's own deployment model that the utilities read.
use vstd::prelude::*;

verus! {

/// The data types of an OpenAPI-style schema.
#[derive(Debug, Clone, Copy, PartialEq, Eq, Structural)]
pub enum SchemaType {
    INTEGER,
    NUMBER,
    STRING,
    BOOLEAN,
    ARRAY,
    OBJECT,
}

/// An OpenAPI-style schema describing a function's output.
#[derive(Debug, Clone, Copy)]
pub struct Schema {
    pub type_: SchemaType,
}

} // verus!
