use openwhisper::transcript::is_blank_transcription;

#[test]
fn blank_transcription_detects_empty_and_whitespace() {
    assert!(is_blank_transcription(""));
    assert!(is_blank_transcription("   \n\t"));
}

#[test]
fn blank_transcription_detects_whisper_silence_markers() {
    assert!(is_blank_transcription("[BLANK_AUDIO]"));
    assert!(is_blank_transcription("(silence)"));
    assert!(is_blank_transcription("{music}"));
    assert!(is_blank_transcription("  [No Speech] "));
    assert!(is_blank_transcription("<inaudible>"));
}

#[test]
fn blank_transcription_passes_real_text() {
    assert!(!is_blank_transcription("hello world"));
    assert!(!is_blank_transcription("[hello]"));
}

#[test]
fn blank_transcription_ignores_unicode_white_space_and_mixed_wrappers() {
    assert!(is_blank_transcription("\u{3000}\u{a0}"));
    assert!(is_blank_transcription("[( Background Noise )]"));
    assert!(is_blank_transcription("<<Silent>>"));
    assert!(is_blank_transcription("[]"));
    assert!(is_blank_transcription("no_speech"));
    assert!(!is_blank_transcription("silence please"));
    assert!(!is_blank_transcription("(music video)"));
}
