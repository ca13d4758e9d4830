use sdl2_mixer::{
    get_music_decoder, get_music_decoders_number, Call, Fading, Music, MusicType, Slot,
};

fn track() -> Music {
    Music { raw: 0x7000, owned: true }
}

#[test]
fn music_decoder_calls() {
    assert_eq!(get_music_decoders_number(), Call::GetNumMusicDecoders);
    assert_eq!(get_music_decoder(2), Call::GetMusicDecoder { index: 2 });
}

#[test]
fn music_type_codes() {
    let codes = [
        (0, MusicType::MusicNone),
        (1, MusicType::MusicCmd),
        (2, MusicType::MusicWav),
        (3, MusicType::MusicMod),
        (4, MusicType::MusicMid),
        (5, MusicType::MusicOgg),
        (6, MusicType::MusicMp3),
        (7, MusicType::MusicMp3Mad),
        (8, MusicType::MusicFlac),
        (9, MusicType::MusicModPlug),
    ];
    for (code, music_type) in codes {
        assert_eq!(MusicType::from_native(code), music_type);
        assert_eq!(music_type.code(), code);
    }
}

#[test]
fn an_unknown_music_type_is_none() {
    assert_eq!(MusicType::from_native(10), MusicType::MusicNone);
    assert_eq!(MusicType::from_native(11), MusicType::MusicNone);
    assert_eq!(MusicType::from_native(u32::MAX), MusicType::MusicNone);
}

#[test]
fn from_file_sends_the_path() {
    assert_eq!(Music::from_file("theme.ogg"), Call::LoadMus { file: "theme.ogg".to_string() });
    assert_eq!(Music::from_file(""), Call::LoadMus { file: String::new() });
}

#[test]
fn a_loaded_track_is_owned() {
    assert_eq!(Music::loaded(0x7000, String::new()), Ok(Music { raw: 0x7000, owned: true }));
    assert_eq!(
        Music::loaded(0, "Couldn't open theme.ogg".to_string()),
        Err("Couldn't open theme.ogg".to_string())
    );
}

#[test]
fn releasing_a_track() {
    assert_eq!(track().release(), Some(Call::FreeMusic { music: 0x7000 }));
    assert_eq!(Music { raw: 0x7000, owned: false }.release(), None);
}

#[test]
fn get_type_call() {
    assert_eq!(track().get_type(), Call::GetMusicType { music: 0x7000 });
}

#[test]
fn play_calls() {
    assert_eq!(track().play(-1), Call::PlayMusic { music: 0x7000, loops: -1 });
    assert_eq!(track().play(1), Call::PlayMusic { music: 0x7000, loops: 1 });
    assert_eq!(
        track().fade_in(1, 2000),
        Call::FadeInMusic { music: 0x7000, loops: 1, ms: 2000 }
    );
    assert_eq!(
        track().fade_in_from_pos(0, 2000),
        Call::FadeInMusicPos { music: 0x7000, loops: 0, ms: 2000 }
    );
}

#[test]
fn music_volume_is_clamped() {
    assert_eq!(Music::set_volume(0), Call::VolumeMusic { volume: 0 });
    assert_eq!(Music::set_volume(77), Call::VolumeMusic { volume: 77 });
    assert_eq!(Music::set_volume(128), Call::VolumeMusic { volume: 128 });
    assert_eq!(Music::set_volume(129), Call::VolumeMusic { volume: 128 });
    assert_eq!(Music::set_volume(100000), Call::VolumeMusic { volume: 128 });
    assert_eq!(Music::set_volume(-1), Call::VolumeMusic { volume: 0 });
    assert_eq!(Music::set_volume(-100000), Call::VolumeMusic { volume: 0 });
}

#[test]
fn music_volume_query() {
    assert_eq!(Music::get_volume(), Call::VolumeMusic { volume: -1 });
}

#[test]
fn transport_calls() {
    assert_eq!(Music::pause(), Call::PauseMusic);
    assert_eq!(Music::resume(), Call::ResumeMusic);
    assert_eq!(Music::rewind(), Call::RewindMusic);
    assert_eq!(Music::halt(), Call::HaltMusic);
    assert_eq!(Music::set_pos(), Call::SetMusicPosition);
    assert_eq!(Music::fade_out(750), Call::FadeOutMusic { ms: 750 });
}

#[test]
fn set_command_sends_the_command() {
    assert_eq!(
        Music::set_command("mpg123 -q"),
        Call::SetMusicCmd { command: "mpg123 -q".to_string() }
    );
}

#[test]
fn state_calls() {
    assert_eq!(Music::is_playing(), Call::PlayingMusic);
    assert_eq!(Music::is_paused(), Call::PausedMusic);
    assert_eq!(Music::get_fading(), Call::FadingMusic);
    assert_eq!(Fading::from_native(2), Fading::FadingIn);
}

#[test]
fn hooking_the_end_of_the_music() {
    let mut slot: Slot<u8> = Slot::new();
    assert_eq!(Music::hook_finished(&mut slot, 1), Call::HookMusicFinished { hooked: true });
    assert_eq!(slot.fire(), Some(&1));
    assert_eq!(Music::hook_finished(&mut slot, 2), Call::HookMusicFinished { hooked: true });
    assert_eq!(slot.fire(), Some(&2));
    assert_eq!(Music::unhook_finished(&slot), Call::HookMusicFinished { hooked: false });
    assert_eq!(slot.fire(), Some(&2));
    slot.unhooked();
    assert_eq!(slot.fire(), None);
}
