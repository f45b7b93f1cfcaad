//! Building blocks for a JNI bridge around a battery-status library.
//!
//! The bridge proper lives outside this crate: it allocates native objects,
//! hands opaque pointer handles to the JVM, and copies battery fields into a
//! Java object. What this crate provides, verified, is the pure part of that
//! marshalling: JNI type and method descriptors, the conversion of an enum
//! value's display name into the name of its Java enum constant, and the
//! encoding of optional numeric fields into Java primitives.

pub mod convert;
pub mod descriptor;

pub use descriptor::as_descriptor;
