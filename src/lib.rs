//! Children types for components: the content that a component receives,
//! held as a deferred producer of a view.

pub mod children;
pub mod view;

pub use children::{SharedChildren, ToChildren, TypedChildren};
pub use view::{IntoView, View};
