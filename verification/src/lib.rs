//! A NES emulator core: the 6502 CPU, the 2C02 picture processing unit, the
//! cartridge with its mapper, the memory bus and the devices attached to it.
#![allow(non_snake_case)]
#![allow(unused_parens)]

pub mod utils;
pub mod graphics;
pub mod device;
pub mod ram;
pub mod controller;
pub mod mapper;
pub mod cartridge;
pub mod ben2C02;
pub mod bus;
pub mod ben6502;
pub mod nes;
