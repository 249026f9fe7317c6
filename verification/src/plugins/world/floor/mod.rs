pub mod perlin;
pub mod terrain;
