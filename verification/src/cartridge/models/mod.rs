//! What differs between the bank controllers.

use vstd::prelude::*;
use crate::cartridge::Cartridge;
use crate::cartridge::CartridgeError;
use crate::cartridge::CartridgeView;

pub mod mbc1;

verus! {

/// The bank controllers.
#[derive(Debug, Copy, Clone, PartialEq, Eq, Structural)]
pub enum Mbc {
    /// No controller: 32 KiB of ROM, nothing to switch.
    Mbc0,
    /// Up to 125 usable ROM banks and up to four RAM banks.
    Mbc1,
}

/// The model of a cartridge.
#[derive(Debug, Copy, Clone, PartialEq, Eq, Structural)]
pub struct Model {
    /// The bank controller on board.
    pub mbc: Mbc,
}

/// The model that a cartridge type byte names.
pub open spec fn spec_from_id(id: u8) -> Result<Model, CartridgeError> {
    if id == 0x00 {
        Ok(Model { mbc: Mbc::Mbc0 })
    } else if id == 0x01 {
        Ok(Model { mbc: Mbc::Mbc1 })
    } else {
        Err(CartridgeError::UnsupportedModel(id))
    }
}

/// The model for the cartridge type byte `id`: `0x00` has no bank
/// controller, `0x01` has an MBC1. Any other byte is refused with
/// `UnsupportedModel`.
pub fn from_id(id: u8) -> (r: Result<Model, CartridgeError>)
    ensures
        r == spec_from_id(id),
        r is Ok <==> (id == 0x00 || id == 0x01),
{
    match id {
        0x00 => Ok(Model { mbc: Mbc::Mbc0 }),
        0x01 => Ok(Model { mbc: Mbc::Mbc1 }),
        _ => Err(CartridgeError::UnsupportedModel(id)),
    }
}

/// Writes `value` at `address` of the RAM image, unless RAM is
/// write-protected or `address` is past its end.
pub fn write_ram(cart: &mut Cartridge, address: u32, value: u8)
    ensures
        final(cart)@ == (if !old(cart)@.ram_wp && address < old(cart)@.ram.len() {
            CartridgeView { ram: old(cart)@.ram.update(address as int, value), ..old(cart)@ }
        } else {
            old(cart)@
        }),
{
    if !cart.ram_wp() {
        let _ = cart.ram_byte_absolute_mut(address, value);
    }
}

/// Reads the byte at `address` of the RAM image; zero past its end.
pub fn read_ram(cart: &Cartridge, address: u32) -> (v: u8)
    ensures
        v == (if address < cart@.ram.len() { cart@.ram[address as int] } else { 0 }),
{
    cart.ram_byte_absolute(address)
}

} // verus!
