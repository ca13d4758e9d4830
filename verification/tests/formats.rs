use sdl2_mixer::{
    AudioFormat, AUDIO_F32, AUDIO_F32LSB, AUDIO_F32MSB, AUDIO_F32SYS, AUDIO_S16, AUDIO_S16LSB,
    AUDIO_S16MSB, AUDIO_S16SYS, AUDIO_S32, AUDIO_S32LSB, AUDIO_S32MSB, AUDIO_S32SYS, AUDIO_S8,
    AUDIO_U16, AUDIO_U16LSB, AUDIO_U16MSB, AUDIO_U16SYS, AUDIO_U8, DEFAULT_CHANNELS,
    DEFAULT_FORMAT, DEFAULT_FREQUENCY,
};

#[test]
fn format_codes() {
    let codes: [(AudioFormat, u16); 12] = [
        (AUDIO_U8, 0x0008),
        (AUDIO_S8, 0x8008),
        (AUDIO_U16LSB, 0x0010),
        (AUDIO_S16LSB, 0x8010),
        (AUDIO_U16MSB, 0x1010),
        (AUDIO_S16MSB, 0x9010),
        (AUDIO_S32LSB, 0x8020),
        (AUDIO_S32MSB, 0x9020),
        (AUDIO_F32LSB, 0x8120),
        (AUDIO_F32MSB, 0x9120),
        (AUDIO_U16, 0x0010),
        (AUDIO_S16, 0x8010),
    ];
    for (format, code) in codes {
        assert_eq!(format, code);
    }
}

#[test]
fn host_order_formats_are_low_byte_first() {
    assert_eq!(AUDIO_U16SYS, AUDIO_U16LSB);
    assert_eq!(AUDIO_S16SYS, AUDIO_S16LSB);
    assert_eq!(AUDIO_S32SYS, AUDIO_S32LSB);
    assert_eq!(AUDIO_F32SYS, AUDIO_F32LSB);
    assert_eq!(AUDIO_S32, AUDIO_S32LSB);
    assert_eq!(AUDIO_F32, AUDIO_F32LSB);
}

#[test]
fn defaults() {
    assert_eq!(DEFAULT_FORMAT, AUDIO_S16SYS);
    assert_eq!(DEFAULT_FORMAT, 0x8010);
    assert_eq!(DEFAULT_CHANNELS, 2);
    assert_eq!(DEFAULT_FREQUENCY, 22050);
}
