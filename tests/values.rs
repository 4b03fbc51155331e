use ptcrab::data::{WriteTo, WriteVarTo};
use ptcrab::voice::{Voice, VoiceFlags};
use ptcrab::ptvoice::Ptvoice;
use ptcrab::{Key, MaxLen, MaxLenI32, PanVolume, Tuning, Volume};

#[test]
fn key_from_a4_offset() {
    assert_eq!(Key::a4(), Key::from_a4_offset(0));
    assert_eq!(Key::c4(), Key::from_a4_offset(-9 * 256));
}

#[test]
fn key_from_basic() {
    assert_eq!(Key::a4(), Key::from_basic(Key::BASIC));
    assert_eq!(Key::c4(), Key::from_basic(Key::BASIC + (9 * 256)));
    assert_eq!(Key::a6(), Key::from_basic(0x2D00));
}

#[test]
fn key_values() {
    assert_eq!(Key::a4().as_value(), 96 * 256);
    assert_eq!(Key::c4().as_value(), 87 * 256);
    assert_eq!(Key::a4().as_a4_offset(), 0);
    assert_eq!(Key::c4().as_a4_offset(), -9 * 256);
    assert_eq!(Key::a4().as_basic(), Key::BASIC);
    assert_eq!(Key::c4().as_basic(), Key::BASIC + (9 * 256));
    assert_eq!(Key::default(), Key::a4());
    assert_eq!(Key::from(5).as_value(), 5);
}

#[test]
fn key_conversions_wrap() {
    let key = Key::from(i32::MIN);
    assert_eq!(Key::from_basic(key.as_basic()), key);
    assert_eq!(Key::from_a4_offset(i32::MAX).as_value(), 0x6000i32.wrapping_add(i32::MAX));
}

#[test]
fn pan_volume_from_separate() {
    assert_eq!(PanVolume::left(), PanVolume::from_separate(64, 0));
    assert_eq!(PanVolume::center(), PanVolume::from_separate(64, 64));
    assert_eq!(PanVolume::right(), PanVolume::from_separate(0, 64));
    assert_eq!(PanVolume::from_separate(60, 10).as_value(), 68);
}

#[test]
fn pan_volume_values() {
    assert_eq!(PanVolume::left().as_value(), 0);
    assert_eq!(PanVolume::center().as_value(), 64);
    assert_eq!(PanVolume::right().as_value(), 128);
    assert_eq!(PanVolume::left().as_separate(), (64, 0));
    assert_eq!(PanVolume::center().as_separate(), (64, 64));
    assert_eq!(PanVolume::right().as_separate(), (0, 64));
    assert_eq!(PanVolume::from(100).as_separate(), (28, 64));
    assert_eq!(PanVolume::default(), PanVolume::center());
}

#[test]
fn volume_values() {
    assert_eq!(Volume::from(40).as_value(), 40);
    assert_eq!(Volume::default().as_value(), 128);
}

#[test]
fn tuning_bits() {
    assert_eq!(Tuning::default().to_bits(), 1.0f32.to_bits());
    assert_eq!(Tuning::from_bits(0.5f32.to_bits()).to_bits(), 0.5f32.to_bits());
}

#[test]
fn voice_flags_bits() {
    assert_eq!(
        VoiceFlags::from_u32(0b101),
        Some(VoiceFlags { wave_loop: true, smooth: false, beat_fit: true })
    );
    assert_eq!(VoiceFlags::from_u32(0b1000), None);
    assert_eq!(VoiceFlags::from_u32(0x8000_0001), None);
    let flags = VoiceFlags { wave_loop: false, smooth: true, beat_fit: true };
    assert_eq!(flags.as_u32(), 0b110);
    assert_eq!(VoiceFlags::from_u32(flags.as_u32()), Some(flags));
    let mut out = Vec::new();
    assert_eq!(flags.write_var_to(&mut out), Ok(0));
    assert_eq!(flags.write_to(&mut out), Ok(1));
    assert_eq!(out, vec![0b110, 0b110, 0, 0, 0]);
}

#[test]
fn max_len_bound() {
    assert!(MaxLen::<2, u8>::new(vec![1, 2]).is_some());
    assert!(MaxLen::<2, u8>::new(vec![1, 2, 3]).is_none());
    let items = MaxLenI32::new(vec![4, 5]).unwrap();
    assert_eq!(items.as_slice(), &[4, 5]);
    assert_eq!(items.into_vec(), vec![4, 5]);
    assert_eq!(MaxLen::<3, u8>::max(), 3);
    assert_eq!(MaxLen::<3, u8>::default().as_slice().len(), 0);
}

#[test]
fn voice_from_ptvoice() {
    let voice = Voice::from(Ptvoice::default());
    match voice {
        Voice::Ptv(ptv) => assert_eq!(ptv, Ptvoice::default()),
    }
}
