pub mod enums;
pub mod types;
pub mod container;
pub mod split;
pub mod raster;
pub mod gcode;
pub mod markers;
pub mod assembly;
pub mod material_grid;
pub mod contour;
pub mod macros;
pub mod record;
