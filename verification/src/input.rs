pub mod host;
pub mod input_abstract;
pub mod input_json;
pub mod shared;

pub use host::{HostArena, HostNode, HostRef};
pub use input_abstract::Input;
pub use input_json::{FloatRepr, FloatReprView, JsonInput, JsonView};
