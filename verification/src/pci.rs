//! Reading PCI configuration space through the address and data ports.
use crate::ports::{Port, PortOp};
use vstd::prelude::*;

verus! {

/// Bit 31 of a configuration address: the access is enabled.
pub const CONFIG_ENABLE: u32 = 0x8000_0000;

/// The word written to the address port to select a configuration register.
///
/// No range is checked: each field is shifted into place as it is, and a
/// field that is too wide spills into its neighbour.
pub open spec fn config_address(bus: u32, slot: u32, func: u32, offset: u32) -> u32 {
    (bus << 16) | (slot << 11) | (func << 8) | (offset & 0xfc) | CONFIG_ENABLE
}

/// The 16-bit half of the data port's value that `offset` selects.
pub open spec fn config_word(data: u32, offset: u32) -> u16 {
    ((data >> ((offset & 2) * 8)) & 0xffff) as u16
}

/// One read of configuration space, planned and not yet performed.
#[derive(Clone, Copy, Debug, PartialEq, Eq, Structural)]
pub struct ConfigRead {
    /// The word for the address port.
    pub address: u32,
    /// Whether the upper half of the data port's value is wanted.
    pub upper: bool,
}

impl ConfigRead {
    pub open spec fn spec_value(self, data: u32) -> u16 {
        if self.upper {
            ((data >> 16) & 0xffff) as u16
        } else {
            (data & 0xffff) as u16
        }
    }

    /// The two accesses that make up the read, in their order: the address
    /// word is written to the address port, then the data port is read.
    pub fn ops(self) -> (ops: [PortOp; 2])
        ensures
            ops@ == seq![
                PortOp::Write { port: Port::ConfigAddress, value: self.address },
                PortOp::Read { port: Port::ConfigData },
            ],
    {
        let ops: [PortOp; 2] = [
            PortOp::Write { port: Port::ConfigAddress, value: self.address },
            PortOp::Read { port: Port::ConfigData },
        ];
        ops
    }

    /// The configuration word, given what the data port returned.
    #[verifier::when_used_as_spec(spec_value)]
    pub fn value(self, data: u32) -> (word: u16)
        ensures
            word == self.spec_value(data),
    {
        if self.upper {
            assert((data >> 16) & 0xffff < 0x1_0000) by (bit_vector);
            ((data >> 16) & 0xffff) as u16
        } else {
            assert(data & 0xffff < 0x1_0000) by (bit_vector);
            (data & 0xffff) as u16
        }
    }
}

/// Plans the read of the 16-bit configuration word at `offset` of function
/// `func` of device `slot` on `bus`.
///
/// The address word always has the enable bit set and its two lowest bits
/// clear, and the half that `value` extracts is the one that bit 1 of `offset`
/// selects. A device that is not there cannot be told from one that answers
/// zero or all ones.
#[allow(non_snake_case)]
pub fn pciConfigRead(bus: u32, slot: u32, func: u32, offset: u32) -> (plan: ConfigRead)
    ensures
        plan.address == config_address(bus, slot, func, offset),
        plan.address & CONFIG_ENABLE == CONFIG_ENABLE,
        plan.address & 3 == 0,
        plan.upper == (offset & 2 != 0),
        forall|data: u32| #[trigger] plan.spec_value(data) == config_word(data, offset),
{
    let address: u32 = (bus << 16) | (slot << 11) | (func << 8) | (offset & 0xfc) | CONFIG_ENABLE;
    let upper: bool = offset & 2 != 0;
    proof {
        lemma_config_address_bits(bus, slot, func, offset);
        assert forall|data: u32|
            (#[trigger] ConfigRead { address, upper }.spec_value(data)) == config_word(
                data,
                offset,
            ) by {
            lemma_config_word_half(data, offset);
        }
    }
    ConfigRead { address, upper }
}

/// Every configuration address has bit 31 set and bits 0 and 1 clear, and
/// does not depend on bits 0 and 1 of the offset.
pub proof fn lemma_config_address_bits(bus: u32, slot: u32, func: u32, offset: u32)
    ensures
        config_address(bus, slot, func, offset) & CONFIG_ENABLE == CONFIG_ENABLE,
        config_address(bus, slot, func, offset) & 3 == 0,
        config_address(bus, slot, func, offset) == config_address(
            bus,
            slot,
            func,
            offset & 0xffff_fffc,
        ),
{
    assert(((bus << 16) | (slot << 11) | (func << 8) | (offset & 0xfc) | 0x8000_0000u32)
        & 0x8000_0000 == 0x8000_0000) by (bit_vector);
    assert(((bus << 16) | (slot << 11) | (func << 8) | (offset & 0xfc) | 0x8000_0000u32) & 3 == 0)
        by (bit_vector);
    assert((offset & 0xffff_fffc) & 0xfc == offset & 0xfc) by (bit_vector);
}

/// Bit 1 of the offset selects the upper half of the data, and nothing else
/// of the offset matters.
pub proof fn lemma_config_word_half(data: u32, offset: u32)
    ensures
        offset & 2 != 0 ==> config_word(data, offset) == ((data >> 16) & 0xffff) as u16,
        offset & 2 == 0 ==> config_word(data, offset) == (data & 0xffff) as u16,
{
    assert(offset & 2 == 0 || offset & 2 == 2) by (bit_vector);
    assert(data >> 0 == data) by (bit_vector);
}

} // verus!
