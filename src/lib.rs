//! Template-driven document layout: merges a template of positioned fields
//! with a sequence of input records into the pages, drawing operations and
//! object graph of a finished document.
//!
//! - `template`: the template model, input records and validation.
//! - `render`: value resolution, the coordinate transform and the
//!   operations of one field.
//! - `layout`: one page per record, every field in paint order.
//! - `graph`: the document's object graph (font, pages, page tree, catalog).
//! - `laws`: properties proved of every layout and graph.
pub mod template;
pub mod render;
pub mod layout;
pub mod graph;
pub mod laws;
