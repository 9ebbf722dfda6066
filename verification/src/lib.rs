//! The verified core of a WebGL triangle demo: the scene of instanced
//! triangles and how it answers each user message, the shader program
//! record, and the text that the page shows.

pub mod label;
pub mod util;
pub mod glmodel;
pub mod shader;
pub mod scene;
