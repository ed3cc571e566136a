//! Conversion of Plan 9 `a.out` executable images into ELF executable images.
//!
//! An image is converted in four steps. The a.out header and the symbol
//! records are decoded from bytes ([`aout`]). The symbols of the text segment
//! become an ELF symbol table with its name strings ([`symbols`]). Every file
//! offset and address of the output is planned ([`layout`]). The ELF
//! structures ([`elf`]) are rendered and joined with the carried-over text,
//! data and symbol bytes into the final image ([`image`]). [`convert`] runs
//! the steps and says, as a function of the input bytes, what comes out;
//! [`laws`] holds what is proved of every outcome.
//!
//! [`target`] lists the machines that are supported, [`error`] the ways in
//! which an input is refused, and [`wire`] the byte encodings of integers.
pub mod wire;
pub mod target;
pub mod error;
pub mod elf;
pub mod aout;
pub mod symbols;
pub mod layout;
pub mod image;
pub mod convert;
pub mod laws;
