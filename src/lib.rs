//! Small verified building blocks: a recursive list, value conversions,
//! numeric narrowing, control-flow helpers, pattern classification and
//! textual rendering.
pub mod casting;
pub mod conversion;
pub mod custom_types;
pub mod display;
pub mod flow;
pub mod list;
pub mod matching;
pub mod options;
pub mod primitives;
pub mod text;
