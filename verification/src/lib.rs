//! Configuration normalization and text transformation for a console-to-bus
//! bridge: union-field flattening, template defaulting, command
//! classification, and the sanitizing/templating pipeline applied to
//! captured console lines.

pub mod model;
pub mod pattern;
pub mod strings;
pub mod utils;
