//! Verified core of a smart-device enumeration tool: a dynamic value model
//! with a recursive line renderer, a paginated listing state machine, and
//! the per-entity printing rules that drive them.

pub mod entities;
pub mod pager;
pub mod render;
pub mod value;

pub use entities::Device;
pub use entities::Room;
pub use entities::Structure;
pub use entities::device_lines;
pub use entities::device_page_lines;
pub use entities::room_lines;
pub use entities::room_page_lines;
pub use entities::structure_lines;
pub use pager::ListFailed;
pub use pager::PageRequest;
pub use pager::Pager;
pub use render::render;
pub use value::DynamicValue;
pub use value::MalformedValue;
pub use value::RawValue;
pub use value::validate;
