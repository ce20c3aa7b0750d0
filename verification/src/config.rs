//! The application's configuration as plain data.  Reading the
//! configuration file and locating it under the user's configuration
//! directory are jobs for the application shell around the library;
//! the values themselves live here.

use vstd::prelude::*;

verus! {

/// The font selection: a family name and a point size, either of
/// which the file may leave out.
#[derive(Debug, Clone)]
pub struct Font {
    pub family: Option<String>,
    pub size: Option<i64>,
}

/// The graphics options.
#[derive(Debug, Clone)]
pub struct Graphics {
    pub vsync: Option<bool>,
}

/// Everything the configuration file can set.
#[derive(Debug, Clone)]
pub struct Config {
    pub font: Font,
    pub graphics: Graphics,
}

} // verus!
