//! Declaration-time construction of a bloom blur pyramid: a forward chain of
//! halved-resolution blurred mip levels, a reverse chain that upsamples and
//! blends them back to full resolution, and a combiner that fuses both with
//! the original image. The library only decides *what* passes exist — how
//! many, what each reads and writes, and at what extent; executing them is
//! the task-graph engine's business and is out of scope here.

pub mod graph;
pub mod image;
pub mod luminance;
pub mod mip;
pub mod post;
