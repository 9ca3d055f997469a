pub mod font;
pub mod instance;
pub mod math;
pub mod node;
pub mod renderer;
pub mod util;
