//! Extraction of annotation directives from documentation comment trees.
//!
//! A documentation comment attached to a type or field may embed directive
//! markers of the form `<div rustbindgen ...></div>`.  This crate walks the
//! comment tree, recognises such markers, and aggregates their attributes
//! into an [`record::Annotations`] value that downstream code generation can
//! consult.

pub mod comment;
pub mod record;

pub use comment::Attr;
pub use comment::CommentKind;
pub use comment::CommentNode;
pub use record::Annotations;
pub use record::FieldAccessorKind;
pub use record::parse_accessor;
