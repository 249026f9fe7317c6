pub mod plugins;
pub mod util;
