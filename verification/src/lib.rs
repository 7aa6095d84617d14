pub mod audio;
pub mod mask;
pub mod plan;
