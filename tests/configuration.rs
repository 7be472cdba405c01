use usb2::configuration::{bmAttributes, Descriptor};
use usb2::desc::Type;
use usb2::num::NonZeroU8;

fn nz(v: u8) -> NonZeroU8 {
    NonZeroU8::new(v).unwrap()
}

fn descriptor(self_powered: bool, remote_wakeup: bool) -> Descriptor {
    Descriptor {
        wTotalLength: 34,
        bNumInterfaces: nz(1),
        bConfigurationValue: nz(1),
        iConfiguration: None,
        bmAttributes: bmAttributes {
            self_powered,
            remote_wakeup,
        },
        bMaxPower: 50,
    }
}

#[test]
fn configuration_bytes_example() {
    let d = descriptor(true, false);
    assert_eq!(d.bytes(), [9, 2, 34, 0, 1, 1, 0, 0b1100_0000, 50]);
}

#[test]
fn configuration_size_constant() {
    assert_eq!(Descriptor::SIZE, 9);
    assert_eq!(descriptor(false, false).bytes().len(), Descriptor::SIZE as usize);
}

#[test]
fn configuration_counts_pass_through() {
    for (n, v) in [(1u8, 1u8), (1, 255), (255, 1), (255, 255), (7, 42)] {
        let mut d = descriptor(false, false);
        d.bNumInterfaces = nz(n);
        d.bConfigurationValue = nz(v);
        let b = d.bytes();
        assert_eq!(b[0], 9);
        assert_eq!(b[4], n);
        assert_eq!(b[5], v);
    }
}

#[test]
fn configuration_attribute_flags() {
    assert_eq!(descriptor(false, false).bytes()[7], 0b1000_0000);
    assert_eq!(descriptor(true, false).bytes()[7], 0b1100_0000);
    assert_eq!(descriptor(false, true).bytes()[7], 0b1010_0000);
    assert_eq!(descriptor(true, true).bytes()[7], 0b1110_0000);
}

#[test]
fn configuration_string_index() {
    let mut d = descriptor(false, false);
    assert_eq!(d.bytes()[6], 0);
    d.iConfiguration = Some(nz(4));
    assert_eq!(d.bytes()[6], 4);
    d.iConfiguration = Some(nz(255));
    assert_eq!(d.bytes()[6], 255);
}

#[test]
fn configuration_total_length_little_endian() {
    let mut d = descriptor(false, false);
    d.wTotalLength = 0x1234;
    let b = d.bytes();
    assert_eq!((b[2], b[3]), (0x34, 0x12));
    d.wTotalLength = 0xffff;
    let b = d.bytes();
    assert_eq!((b[2], b[3]), (0xff, 0xff));
    d.wTotalLength = 0;
    let b = d.bytes();
    assert_eq!((b[2], b[3]), (0, 0));
}

#[test]
fn configuration_max_power_verbatim() {
    let mut d = descriptor(true, true);
    d.bMaxPower = 250;
    assert_eq!(d.bytes()[8], 250);
    d.bMaxPower = 0;
    assert_eq!(d.bytes()[8], 0);
}

#[test]
fn non_zero_rejects_zero() {
    assert!(NonZeroU8::new(0).is_none());
    assert_eq!(nz(1).get(), 1);
    assert_eq!(nz(255).get(), 255);
}

#[test]
fn descriptor_type_codes() {
    assert_eq!(Type::Device.code(), 1);
    assert_eq!(Type::Configuration.code(), 2);
    assert_eq!(Type::String.code(), 3);
    assert_eq!(Type::Interface.code(), 4);
    assert_eq!(Type::Endpoint.code(), 5);
    assert_eq!(Type::DeviceQualifier.code(), 6);
    assert_eq!(Type::OtherSpeedConfiguration.code(), 7);
    assert_eq!(Type::InterfacePower.code(), 8);
}
