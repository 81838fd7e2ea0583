use codeplug::channel::CtcssDcs;
use codeplug::ctcss::Ctcss;
use codeplug::dcs::Dcs;

#[test]
fn ctcss_bytes() {
    assert_eq!(Ctcss::Ctcss670.to_bytes(), vec![0x70, 0x06]);
    assert_eq!(Ctcss::Ctcss1000.to_bytes(), vec![0x00, 0x10]);
    assert_eq!(Ctcss::Ctcss2541.to_bytes(), vec![0x41, 0x25]);
}

#[test]
fn ctcss_decodes() {
    assert_eq!(Ctcss::try_from(&[0x70u8, 0x06][..]), Ok(Ctcss::Ctcss670));
    assert_eq!(Ctcss::try_from(&[0x85u8, 0x08][..]), Ok(Ctcss::Ctcss885));
    assert_eq!(Ctcss::try_from(&[0x00u8, 0x00][..]), Err(()));
    assert_eq!(Ctcss::try_from(&[0x70u8][..]), Err(()));
    assert_eq!(Ctcss::try_from(&[0x70u8, 0x06, 0x00][..]), Err(()));
}

#[test]
fn dcs_bytes() {
    assert_eq!(Dcs::D023N.to_bytes(), vec![0x13, 0x80]);
    assert_eq!(Dcs::D754N.to_bytes(), vec![0xec, 0x81]);
    assert_eq!(Dcs::D023I.to_bytes(), vec![0x13, 0xc0]);
    assert_eq!(Dcs::D754I.to_bytes(), vec![0xec, 0xc1]);
}

#[test]
fn dcs_decodes() {
    assert_eq!(Dcs::try_from(&[0x13u8, 0x80][..]), Ok(Dcs::D023N));
    assert_eq!(Dcs::try_from(&[0xecu8, 0xc1][..]), Ok(Dcs::D754I));
    assert_eq!(Dcs::try_from(&[0x14u8, 0x80][..]), Err(()));
    assert_eq!(Dcs::try_from(&[0x13u8, 0x80, 0x00][..]), Err(()));
}

#[test]
fn tone_squelch_decodes() {
    assert_eq!(CtcssDcs::try_from(&[0xffu8, 0xff][..]), Ok(CtcssDcs::Off));
    assert_eq!(CtcssDcs::try_from(&[0x13u8, 0x80][..]), Ok(CtcssDcs::Dcs(Dcs::D023N)));
    assert_eq!(CtcssDcs::try_from(&[0x70u8, 0x06][..]), Ok(CtcssDcs::Ctcss(Ctcss::Ctcss670)));
    assert_eq!(CtcssDcs::try_from(&[0x70u8, 0x86][..]), Err(()));
    assert_eq!(CtcssDcs::try_from(&[0x13u8, 0x00][..]), Err(()));
    assert_eq!(CtcssDcs::try_from(&[0xffu8, 0xff, 0xff][..]), Err(()));
    assert_eq!(CtcssDcs::try_from(&[][..]), Err(()));
}

#[test]
fn tone_squelch_bytes() {
    assert_eq!(CtcssDcs::Off.to_bytes(), vec![0xff, 0xff]);
    assert_eq!(CtcssDcs::Dcs(Dcs::D565I).to_bytes(), vec![0x75, 0xc1]);
    assert_eq!(CtcssDcs::Ctcss(Ctcss::Ctcss1230).to_bytes(), vec![0x30, 0x12]);
    assert_eq!(CtcssDcs::default(), CtcssDcs::Off);
}

#[test]
fn every_two_byte_code_round_trips() {
    let mut named = 0;
    for first in 0..=255u8 {
        for second in 0..=255u8 {
            let bytes = [first, second];
            if let Ok(tone) = CtcssDcs::try_from(&bytes[..]) {
                named += 1;
                assert_eq!(tone.to_bytes(), bytes.to_vec());
            }
        }
    }
    // 50 CTCSS tones, 208 DCS codes and no tone.
    assert_eq!(named, 259);
}
