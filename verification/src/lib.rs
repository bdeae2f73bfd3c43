//! A registry of placed objects.
//!
//! An [`ObjectEditor`] owns every object under an identity that it hands out
//! itself, starting at 1 and never twice. Objects can be looked up, moved,
//! turned and deleted one by one, and the whole registry can be listed and
//! replaced at once, which is what saving to and loading from a file need.

pub mod editor;
pub mod geometry;
pub mod history;
pub mod identity;
pub mod laws;
pub mod model;
pub mod object;
pub mod records;

pub use editor::ObjectEditor;
pub use geometry::{Scalar, Vector3};
pub use identity::IdentityCounter;
pub use model::EditorState;
pub use object::{DynamicObject, ObjectRecord, PlayerObjectRequest, DRAW_DISTANCE_BITS};
