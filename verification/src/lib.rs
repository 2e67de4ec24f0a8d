//! A model of the x86-64 System V variadic-argument cursor and of the
//! operations that reinterpret it, read raw bytes through it and hand it back.

pub mod cursor;
pub mod layout;
pub mod little_endian;
pub mod overflow_area;
