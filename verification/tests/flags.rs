use sdl2_mixer::{
    Decoder, InitFlag, INIT_FLAC, INIT_FLUIDSYNTH, INIT_MOD, INIT_MODPLUG, INIT_MP3, INIT_OGG,
};

fn six() -> [Decoder; 6] {
    [
        Decoder::Flac,
        Decoder::Mod,
        Decoder::ModPlug,
        Decoder::Mp3,
        Decoder::Ogg,
        Decoder::FluidSynth,
    ]
}

#[test]
fn the_bits_are_those_of_the_native_header() {
    assert_eq!(INIT_FLAC, 0x01);
    assert_eq!(INIT_MOD, 0x02);
    assert_eq!(INIT_MODPLUG, 0x04);
    assert_eq!(INIT_MP3, 0x08);
    assert_eq!(INIT_OGG, 0x10);
    assert_eq!(INIT_FLUIDSYNTH, 0x20);
    assert_eq!(Decoder::Flac.mask(), INIT_FLAC);
    assert_eq!(Decoder::Mod.mask(), INIT_MOD);
    assert_eq!(Decoder::ModPlug.mask(), INIT_MODPLUG);
    assert_eq!(Decoder::Mp3.mask(), INIT_MP3);
    assert_eq!(Decoder::Ogg.mask(), INIT_OGG);
    assert_eq!(Decoder::FluidSynth.mask(), INIT_FLUIDSYNTH);
}

#[test]
fn empty_and_all() {
    assert_eq!(InitFlag::empty().bits(), 0);
    assert_eq!(InitFlag::all().bits(), 0x3f);
    assert!(InitFlag::empty().is_empty());
    assert!(!InitFlag::all().is_empty());
    assert!(InitFlag::all().is_all());
    assert!(!InitFlag::empty().is_all());
    for d in six() {
        assert!(!InitFlag::empty().has(d));
        assert!(InitFlag::all().has(d));
    }
}

#[test]
fn of_holds_one_decoder() {
    for d in six() {
        let flag = InitFlag::of(d);
        assert_eq!(flag.bits(), d.mask());
        for e in six() {
            assert_eq!(flag.has(e), d == e);
        }
    }
}

#[test]
fn from_bits_truncate_drops_unknown_bits() {
    assert_eq!(InitFlag::from_bits_truncate(0xffff_ffff).bits(), 0x3f);
    assert_eq!(InitFlag::from_bits_truncate(0x40).bits(), 0);
    assert_eq!(InitFlag::from_bits_truncate(0x51).bits(), 0x11);
    assert_eq!(InitFlag::from_bits_truncate(INIT_MP3 | INIT_OGG).bits(), 0x18);
}

#[test]
fn from_bits_refuses_unknown_bits() {
    assert_eq!(InitFlag::from_bits(0), Some(InitFlag::empty()));
    assert_eq!(InitFlag::from_bits(0x3f), Some(InitFlag::all()));
    assert_eq!(InitFlag::from_bits(0x11).map(|f| f.bits()), Some(0x11));
    assert_eq!(InitFlag::from_bits(0x40), None);
    assert_eq!(InitFlag::from_bits(0x51), None);
    assert_eq!(InitFlag::from_bits(u32::MAX), None);
}

#[test]
fn contains_is_the_subset_test() {
    let mp3_ogg = InitFlag::from_bits_truncate(INIT_MP3 | INIT_OGG);
    let mp3 = InitFlag::of(Decoder::Mp3);
    let flac = InitFlag::of(Decoder::Flac);
    assert!(mp3_ogg.contains(mp3));
    assert!(mp3_ogg.contains(mp3_ogg));
    assert!(mp3_ogg.contains(InitFlag::empty()));
    assert!(!mp3.contains(mp3_ogg));
    assert!(!mp3_ogg.contains(flac));
    assert!(InitFlag::empty().contains(InitFlag::empty()));
    assert!(InitFlag::all().contains(mp3_ogg));
}

#[test]
fn intersects_needs_a_common_member() {
    let mp3_ogg = InitFlag::from_bits_truncate(INIT_MP3 | INIT_OGG);
    let ogg_flac = InitFlag::from_bits_truncate(INIT_OGG | INIT_FLAC);
    let modplug = InitFlag::of(Decoder::ModPlug);
    assert!(mp3_ogg.intersects(ogg_flac));
    assert!(!mp3_ogg.intersects(modplug));
    assert!(!mp3_ogg.intersects(InitFlag::empty()));
    assert!(!InitFlag::empty().intersects(InitFlag::empty()));
}

#[test]
fn the_set_operations() {
    let a = InitFlag::from_bits_truncate(INIT_MP3 | INIT_OGG);
    let b = InitFlag::from_bits_truncate(INIT_OGG | INIT_FLAC);
    assert_eq!(a.union(b).bits(), INIT_MP3 | INIT_OGG | INIT_FLAC);
    assert_eq!(a.intersection(b).bits(), INIT_OGG);
    assert_eq!(a.difference(b).bits(), INIT_MP3);
    assert_eq!(b.difference(a).bits(), INIT_FLAC);
    assert_eq!(a.symmetric_difference(b).bits(), INIT_MP3 | INIT_FLAC);
    assert_eq!(a.symmetric_difference(a).bits(), 0);
    assert_eq!(a.difference(InitFlag::all()).bits(), 0);
}

#[test]
fn the_set_operations_on_every_pair() {
    for x in 0u32..64 {
        for y in 0u32..64 {
            let a = InitFlag::from_bits_truncate(x);
            let b = InitFlag::from_bits_truncate(y);
            assert_eq!(a.union(b).bits(), x | y);
            assert_eq!(a.intersection(b).bits(), x & y);
            assert_eq!(a.difference(b).bits(), x & !y);
            assert_eq!(a.symmetric_difference(b).bits(), x ^ y);
            assert_eq!(a.contains(b), x & y == y);
            assert_eq!(a.intersects(b), x & y != 0);
            assert_eq!(a == b, x == y);
        }
    }
}

#[test]
fn to_string_of_nothing_is_empty() {
    assert_eq!(InitFlag::empty().to_string(), "");
}

#[test]
fn to_string_of_one_decoder() {
    assert_eq!(InitFlag::of(Decoder::Flac).to_string(), "INIT_FLAC ");
    assert_eq!(InitFlag::of(Decoder::Mod).to_string(), "INIT_MOD ");
    assert_eq!(InitFlag::of(Decoder::ModPlug).to_string(), "INIT_MODPLUG ");
    assert_eq!(InitFlag::of(Decoder::Mp3).to_string(), "INIT_MP3 ");
    assert_eq!(InitFlag::of(Decoder::Ogg).to_string(), "INIT_OGG ");
    assert_eq!(InitFlag::of(Decoder::FluidSynth).to_string(), "INIT_FLUIDSYNTH ");
}

#[test]
fn to_string_lists_in_the_order_of_the_bits() {
    let ogg_then_flac = InitFlag::of(Decoder::Ogg).union(InitFlag::of(Decoder::Flac));
    assert_eq!(ogg_then_flac.to_string(), "INIT_FLAC INIT_OGG ");
    assert_eq!(
        InitFlag::all().to_string(),
        "INIT_FLAC INIT_MOD INIT_MODPLUG INIT_MP3 INIT_OGG INIT_FLUIDSYNTH "
    );
    assert_eq!(
        InitFlag::from_bits_truncate(INIT_MOD | INIT_MP3 | INIT_FLUIDSYNTH).to_string(),
        "INIT_MOD INIT_MP3 INIT_FLUIDSYNTH "
    );
}

#[test]
fn the_operators_are_the_set_operations() {
    let a = InitFlag::from_bits_truncate(INIT_MP3 | INIT_OGG);
    let b = InitFlag::from_bits_truncate(INIT_OGG | INIT_FLAC);
    assert_eq!(a | b, a.union(b));
    assert_eq!(a & b, a.intersection(b));
    assert_eq!(a ^ b, a.symmetric_difference(b));
    assert_eq!(a - b, a.difference(b));
    assert_eq!((a | b).bits(), 0x19);
    assert_eq!((a & b).bits(), 0x10);
    assert_eq!((a ^ b).bits(), 0x09);
    assert_eq!((a - b).bits(), 0x08);
    assert_eq!(
        (InitFlag::of(Decoder::Mod) | InitFlag::of(Decoder::FluidSynth)).to_string(),
        "INIT_MOD INIT_FLUIDSYNTH "
    );
}
