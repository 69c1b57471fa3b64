pub mod guard;
pub mod interface;
pub mod laws;
pub mod machine;
pub mod model;
