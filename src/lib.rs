//! A verified object model for embedding a managed-language runtime: tagged
//! handles, typed overlays for class and string objects, the class registry
//! and construction protocol, string header decoding and encoding checks.

pub mod call;
pub mod class;
pub mod embed;
pub mod error;
pub mod r_string;
pub mod value;
