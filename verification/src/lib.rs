//! A small structured-logging facade.
//!
//! A [`logger::Logger`] composes one [`style::Style`], which renders a
//! severity and a message into a display line, with one [`logger::Bridge`],
//! which delivers the rendered line to its destination.

pub mod logger;
pub mod style;

pub use logger::Bridge;
pub use logger::Console;
pub use logger::File;
pub use logger::Importance;
pub use logger::Logger;
