//! The record shapes rows are decoded into. Each is a flat struct of
//! named, typed fields, bound positionally from one row; optional fields
//! decode engine NULL as `None`.

use vstd::prelude::*;

verus! {

/// A post row. The primary-key field keeps the schema's own upper-case
/// spelling, as the row is decoded by column name.
#[allow(non_snake_case)]
#[derive(Debug, Clone, PartialEq, Eq)]
pub struct Post {
    pub ID: u32,
    pub post_title: String,
    pub post_content: String,
    pub post_type: Option<String>,
}

/// An exact decimal amount: `mantissa` scaled down by `scale` decimal
/// places, so `Decimal { mantissa: 999, scale: 2 }` is 9.99. This keeps a
/// price as plain integers, the way the engine's arbitrary-precision
/// decimal column carries it, with no floating-point rounding.
#[derive(Debug, Clone, Copy, PartialEq, Eq, Structural)]
pub struct Decimal {
    pub mantissa: i64,
    pub scale: u32,
}

/// A product row.
#[derive(Debug, Clone, PartialEq, Eq)]
pub struct Product {
    pub id: u32,
    pub name: String,
    pub price: Decimal,
    pub description: Option<String>,
}

} // verus!
