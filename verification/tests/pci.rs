use ata_pio::{pciConfigRead, ConfigRead, Port, PortOp};

#[test]
fn address_of_the_first_register_is_the_enable_bit_alone() {
    assert_eq!(pciConfigRead(0, 0, 0, 0).address, 0x8000_0000);
}

#[test]
fn address_places_each_field() {
    let plan = pciConfigRead(1, 2, 3, 0x10);
    assert_eq!(plan.address, 0x8000_0000 | (1 << 16) | (2 << 11) | (3 << 8) | 0x10);
    assert_eq!(plan.address, 0x8001_1310);
}

#[test]
fn enable_bit_is_always_set() {
    for &(bus, slot, func, offset) in &[
        (0u32, 0u32, 0u32, 0u32),
        (255, 31, 7, 0xfc),
        (0xffff_ffff, 0xffff_ffff, 0xffff_ffff, 0xffff_ffff),
        (0x8000, 0, 0, 3),
        (0, 0x1f_ffff, 0, 1),
    ] {
        let plan = pciConfigRead(bus, slot, func, offset);
        assert_eq!(plan.address & 0x8000_0000, 0x8000_0000);
        assert_eq!(plan.address & 3, 0);
    }
}

#[test]
fn low_bits_of_the_offset_do_not_reach_the_address() {
    let aligned = pciConfigRead(0, 3, 1, 0x10).address;
    assert_eq!(pciConfigRead(0, 3, 1, 0x11).address, aligned);
    assert_eq!(pciConfigRead(0, 3, 1, 0x12).address, aligned);
    assert_eq!(pciConfigRead(0, 3, 1, 0x13).address, aligned);
    assert_ne!(pciConfigRead(0, 3, 1, 0x14).address, aligned);
}

#[test]
fn offset_bits_above_the_register_number_are_dropped() {
    assert_eq!(pciConfigRead(0, 0, 0, 0x1fc).address, 0x8000_00fc);
}

#[test]
fn out_of_range_fields_are_not_rejected() {
    // A slot of 32 spills into the bus field: nothing checks the ranges.
    assert_eq!(pciConfigRead(0, 32, 0, 0).address, 0x8001_0000);
    assert_eq!(pciConfigRead(0, 0, 8, 0).address, 0x8000_0800);
    assert_eq!(pciConfigRead(0x1_0000, 0, 0, 0).address, 0x8000_0000);
}

#[test]
fn bit_one_of_the_offset_selects_the_half() {
    let data = 0x1234_5678;
    assert_eq!(pciConfigRead(0, 0, 0, 0).value(data), 0x5678);
    assert_eq!(pciConfigRead(0, 0, 0, 1).value(data), 0x5678);
    assert_eq!(pciConfigRead(0, 0, 0, 2).value(data), 0x1234);
    assert_eq!(pciConfigRead(0, 0, 0, 3).value(data), 0x1234);
    assert_eq!(pciConfigRead(0, 0, 0, 4).value(data), 0x5678);
    assert_eq!(pciConfigRead(0, 0, 0, 6).value(data), 0x1234);
}

#[test]
fn absent_device_reads_as_all_ones_or_zero() {
    let plan = pciConfigRead(0, 9, 0, 0);
    assert_eq!(plan.value(0xffff_ffff), 0xffff);
    assert_eq!(plan.value(0), 0);
    let upper = pciConfigRead(0, 9, 0, 2);
    assert_eq!(upper.value(0xffff_ffff), 0xffff);
    assert_eq!(upper.value(0x0000_ffff), 0);
}

#[test]
fn plan_writes_the_address_port_and_reads_the_data_port() {
    let plan = pciConfigRead(0, 1, 0, 8);
    assert_eq!(plan, ConfigRead { address: 0x8000_0808, upper: false });
    assert_eq!(
        plan.ops(),
        [
            PortOp::Write { port: Port::ConfigAddress, value: 0x8000_0808 },
            PortOp::Read { port: Port::ConfigData },
        ]
    );
}

#[test]
fn ports_have_their_legacy_addresses() {
    assert_eq!(Port::Data.address(), 0x1F0);
    assert_eq!(Port::SectorCount.address(), 0x1F2);
    assert_eq!(Port::LbaLow.address(), 0x1F3);
    assert_eq!(Port::LbaMid.address(), 0x1F4);
    assert_eq!(Port::LbaHigh.address(), 0x1F5);
    assert_eq!(Port::DriveSelect.address(), 0x1F6);
    assert_eq!(Port::Command.address(), 0x1F7);
    assert_eq!(Port::ConfigAddress.address(), 0xCF8);
    assert_eq!(Port::ConfigData.address(), 0xCFC);
}

#[test]
fn ports_have_their_widths() {
    assert_eq!(Port::Data.width(), 16);
    assert_eq!(Port::ConfigAddress.width(), 32);
    assert_eq!(Port::ConfigData.width(), 32);
    for port in [
        Port::SectorCount,
        Port::LbaLow,
        Port::LbaMid,
        Port::LbaHigh,
        Port::DriveSelect,
        Port::Command,
    ] {
        assert_eq!(port.width(), 8);
    }
}
