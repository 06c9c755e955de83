pub mod kinds;
pub mod line_error;
pub mod location;
pub mod val_error;

pub use kinds::ErrorKind;
pub use line_error::{Context, ContextValue, ContextValueView, InputValue, InputValueView,
    ValLineError, ValLineErrorView};
pub use location::{LocItem, LocItemView, Location};
pub use val_error::{ValError, ValErrorView, ValResult};
