//! Digital to analog converter.

use embassy_mspm0::bus::Bus;
use embassy_mspm0::dac::{
    Access, Amphiz, Config, Ctl0, Ctl1, Dac, DataFormat, NegativeReference, OutputBuffer, PositiveReference, Res,
    Resolution,
};

#[test]
fn the_default_configuration() {
    let config = Config::default();

    assert_eq!(config, Config::new());
    assert_eq!(config.resolution, Resolution::default());
    assert_eq!(config.positive_reference, PositiveReference::default());
    assert_eq!(config.negative_reference, NegativeReference::default());
    assert_eq!(config.format, DataFormat::default());
    assert_eq!(config.output_buffer, OutputBuffer::default());
    assert!(!config.output);
}

#[test]
fn codes_are_fractions_of_a_power_of_two() {
    assert_eq!(Resolution::Bits8.max_code() as u32 + 1, 256);
    assert_eq!(Resolution::Bits12.max_code() as u32 + 1, 4096);
    assert_eq!(Resolution::Bits8.to_res(), Res::_8bits);
    assert_eq!(Resolution::Bits12.to_res(), Res::_12bits);
}

#[test]
fn bringing_up() {
    let mut bus = Bus::new();
    let dac = Dac::new(Config::new(), &mut bus);

    assert_eq!(dac.max_code(), 4095);
    assert_eq!(
        bus.take(),
        vec![
            Access::Reset,
            Access::Power(true),
            Access::Delay(16),
            Access::Ctl1(Ctl1 {
                refsp: PositiveReference::Supply,
                refsn: NegativeReference::Ground,
                ampen: true,
                amphiz: Amphiz::Hiz,
                ops: false,
            }),
            Access::Ctl0(Ctl0 { res: Res::_12bits, dfm: DataFormat::Binary, enable: true }),
            Access::WaitReady,
        ]
    );
}

#[test]
fn output_buffers() {
    for (output_buffer, ampen, amphiz) in [
        (OutputBuffer::Enabled, true, Amphiz::Hiz),
        (OutputBuffer::DisabledPulldown, false, Amphiz::Pulldown),
        (OutputBuffer::DisabledHighZ, false, Amphiz::Hiz),
    ] {
        let mut bus = Bus::new();

        Dac::new(Config { output_buffer, output: true, ..Config::new() }, &mut bus);
        match bus.accesses()[3] {
            Access::Ctl1(ctl1) => assert_eq!((ctl1.ampen, ctl1.amphiz, ctl1.ops), (ampen, amphiz, true)),
            other => panic!("{other:?}"),
        }
    }
}

#[test]
fn codes_and_release() {
    let mut bus = Bus::new();
    let config = Config {
        resolution: Resolution::Bits8,
        positive_reference: PositiveReference::External,
        negative_reference: NegativeReference::External,
        format: DataFormat::TwosComplement,
        ..Config::new()
    };
    let mut dac = Dac::new(config, &mut bus);

    assert_eq!(dac.max_code(), 255);
    bus.take();
    dac.set_code(255, &mut bus);
    dac.set_code(0, &mut bus);
    dac.release(&mut bus);
    assert_eq!(
        bus.take(),
        vec![Access::Data(255), Access::Data(0), Access::Enable(false), Access::Power(false)]
    );
}
