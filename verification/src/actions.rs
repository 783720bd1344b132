pub mod classification;
pub mod model;
