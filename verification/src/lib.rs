//! A small 8-bit-addressed CPU emulator: instruction decoding and execution, RAM, a
//! pixel screen with a built-in bitmap font, a byte-addressed disk and the BIOS
//! interrupts that tie them together.
#![allow(non_camel_case_types, non_snake_case)]

pub mod helper;
pub mod bytestr;
pub mod registers;
pub mod ram;
pub mod screen;
pub mod cam;
pub mod font;
pub mod font_laws;
pub mod decode;
pub mod disk;
pub mod bios;
pub mod semantics;
pub mod cpu;
pub mod laws;
