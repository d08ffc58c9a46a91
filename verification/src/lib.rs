//! Domain coloring of complex functions.
//!
//! For every point of a rectangular window of the complex plane the library
//! evaluates a complex function, turns the value's argument into a hue and
//! its modulus into a lightness, converts that to an 8-bit RGB triple, and
//! fills a row-major pixel buffer. Encoding the buffer to an image file is
//! left to the caller.
//!
//! All floating-point values travel as IEEE-754 bit patterns; every
//! floating-point operation sits behind a small trusted wrapper, so each
//! public contract pins down exactly which operations produce the result.

pub mod bits;
pub mod color;
pub mod complex;
pub mod function;
pub mod render;
