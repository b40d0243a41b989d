pub mod cvt;
pub mod model;
pub mod tables;
pub mod text;

pub use cvt::{convert, RomajiCvt};
