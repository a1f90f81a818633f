pub mod scan;
pub mod line;
