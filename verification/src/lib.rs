pub mod descriptor;
pub mod laws;
pub mod metaspace;
pub mod slot;
pub mod stack;
