use sdl2_mixer::{
    close_audio, device_spec, get_linked_version, init, init_outcome, open_audio, query_spec, Call,
    Decoder, InitFlag, InitOutcome, Sdl2MixerContext, AUDIO_S16LSB, DEFAULT_CHANNELS,
    DEFAULT_FORMAT, DEFAULT_FREQUENCY, INIT_FLAC, INIT_MP3, INIT_OGG,
};

fn mp3_ogg() -> InitFlag {
    InitFlag::from_bits_truncate(INIT_MP3 | INIT_OGG)
}

#[test]
fn init_sends_the_flag_word() {
    assert_eq!(init(mp3_ogg()), Call::Init { flags: 0x18 });
    assert_eq!(init(InitFlag::empty()), Call::Init { flags: 0 });
    assert_eq!(init(InitFlag::all()), Call::Init { flags: 0x3f });
}

#[test]
fn init_is_ready_when_everything_loaded() {
    let outcome = init_outcome(mp3_ogg(), 0x18, String::new());
    assert!(matches!(outcome, InitOutcome::Ready(_)));
}

#[test]
fn init_is_ready_when_more_than_asked_is_loaded() {
    let outcome = init_outcome(mp3_ogg(), 0x3f, "stale text".to_string());
    assert!(matches!(outcome, InitOutcome::Ready(_)));
}

#[test]
fn init_of_nothing_is_ready() {
    assert!(matches!(
        init_outcome(InitFlag::empty(), 0, String::new()),
        InitOutcome::Ready(_)
    ));
}

#[test]
fn init_is_refused_with_the_native_text() {
    let outcome = init_outcome(mp3_ogg(), 0x10, "MP3 support not available".to_string());
    assert_eq!(outcome, InitOutcome::Refused("MP3 support not available".to_string()));
}

#[test]
fn init_fails_when_only_some_decoders_loaded() {
    let outcome = init_outcome(mp3_ogg(), INIT_OGG as i32, String::new());
    assert_eq!(outcome, InitOutcome::Unexplained("Could not init: INIT_MP3 ".to_string()));
}

#[test]
fn init_names_every_missing_decoder() {
    let outcome = init_outcome(InitFlag::all(), INIT_FLAC as i32, String::new());
    assert_eq!(
        outcome,
        InitOutcome::Unexplained(
            "Could not init: INIT_MOD INIT_MODPLUG INIT_MP3 INIT_OGG INIT_FLUIDSYNTH ".to_string()
        )
    );
}

#[test]
fn init_does_not_name_what_loaded_unasked() {
    let outcome = init_outcome(InitFlag::of(Decoder::Mp3), INIT_FLAC as i32, String::new());
    assert_eq!(outcome, InitOutcome::Unexplained("Could not init: INIT_MP3 ".to_string()));
}

#[test]
fn init_ignores_unknown_bits_in_the_answer() {
    assert!(matches!(init_outcome(mp3_ogg(), -1, String::new()), InitOutcome::Ready(_)));
    assert_eq!(
        init_outcome(mp3_ogg(), 0x40, String::new()),
        InitOutcome::Unexplained("Could not init: INIT_MP3 INIT_OGG ".to_string())
    );
}

#[test]
fn init_outcome_as_a_result() {
    assert!(init_outcome(InitFlag::empty(), 0, String::new()).into_result().is_ok());
    assert_eq!(
        InitOutcome::Refused("no".to_string()).into_result(),
        Err("no".to_string())
    );
    assert_eq!(
        InitOutcome::Unexplained("Could not init: INIT_OGG ".to_string()).into_result(),
        Err("Could not init: INIT_OGG ".to_string())
    );
}

#[test]
fn an_echoed_request_is_ready() {
    for bits in 0u32..64 {
        let flags = InitFlag::from_bits_truncate(bits);
        let call = init(flags);
        let answer = match call {
            Call::Init { flags } => flags,
            _ => panic!("init gave another call"),
        };
        assert!(matches!(init_outcome(flags, answer, String::new()), InitOutcome::Ready(_)));
    }
}

#[test]
fn init_succeeds_exactly_when_the_request_is_covered() {
    for asked in 0u32..64 {
        for got in 0u32..64 {
            let outcome = init_outcome(InitFlag::from_bits_truncate(asked), got as i32, String::new());
            let covered = asked & got == asked;
            assert_eq!(matches!(outcome, InitOutcome::Ready(_)), covered);
            if !covered {
                let missing = InitFlag::from_bits_truncate(asked & !got);
                let expected = format!("Could not init: {}", missing.to_string());
                assert_eq!(outcome, InitOutcome::Unexplained(expected));
            }
        }
    }
}

#[test]
fn quit_is_owed_by_the_token() {
    let token: Sdl2MixerContext = match init_outcome(InitFlag::empty(), 0, String::new()) {
        InitOutcome::Ready(token) => token,
        other => panic!("init failed: {:?}", other),
    };
    assert_eq!(token.quit(), Call::Quit);
}

#[test]
fn linked_version_call() {
    assert_eq!(get_linked_version(), Call::LinkedVersion);
}

#[test]
fn open_audio_narrows_its_arguments() {
    assert_eq!(
        open_audio(44100, DEFAULT_FORMAT, 2, 2048),
        Call::OpenAudio { frequency: 44100, format: 0x8010, channels: 2, chunksize: 2048 }
    );
    assert_eq!(
        open_audio(DEFAULT_FREQUENCY, AUDIO_S16LSB, DEFAULT_CHANNELS, 1024),
        Call::OpenAudio { frequency: 22050, format: 0x8010, channels: 2, chunksize: 1024 }
    );
    assert_eq!(
        open_audio(4294967296 + 48000, 0x0008, -1, 4294967296),
        Call::OpenAudio { frequency: 48000, format: 0x0008, channels: -1, chunksize: 0 }
    );
}

#[test]
fn open_audio_answers_zero_on_success() {
    let call = open_audio(44100, DEFAULT_FORMAT, 2, 2048);
    assert_eq!(call.status(0, String::new()), Ok(()));
    assert_eq!(call.status(-1, "No such device".to_string()), Err("No such device".to_string()));
    assert_eq!(call.status(1, String::new()), Err(String::new()));
}

#[test]
fn close_audio_call() {
    assert_eq!(close_audio(), Call::CloseAudio);
}

#[test]
fn query_spec_call() {
    assert_eq!(query_spec(), Call::QuerySpec);
}

#[test]
fn device_spec_reads_what_was_filled_in() {
    assert_eq!(
        device_spec(1, 44100, 0x8010, 2, String::new()),
        Ok((44100, 0x8010, 2))
    );
    assert_eq!(
        device_spec(3, 22050, 0x0008, 1, "left over".to_string()),
        Ok((22050, 0x0008, 1))
    );
    assert_eq!(device_spec(-1, -5, 0, -7, String::new()), Ok((-5, 0, -7)));
}

#[test]
fn device_spec_fails_on_zero() {
    assert_eq!(
        device_spec(0, 0, 0, 0, "Audio device hasn't been opened".to_string()),
        Err("Audio device hasn't been opened".to_string())
    );
    assert_eq!(device_spec(0, 44100, 0x8010, 2, String::new()), Err(String::new()));
    assert_eq!(query_spec().status(0, "x".to_string()), Err("x".to_string()));
    assert_eq!(query_spec().status(2, "x".to_string()), Ok(()));
}
