use grok_build::voice::{
    canonicalize_stt_language, input_device_info, language_for_api, maybe_run_capture_subprocess,
    primary_language_subtag, stt_language_by_code, stt_languages, system_stt_language,
    StaticVoiceAuth, VoiceConfig, VoiceError,
};

#[test]
fn catalog_holds_the_supported_languages() {
    let all = stt_languages();
    assert_eq!(all.len(), 25);
    assert_eq!(all[0].code, "ar");
    assert_eq!(all[24].name, "Vietnamese");
    assert_eq!(stt_language_by_code("fil").map(|l| l.name), Some("Filipino"));
    assert!(stt_language_by_code("FIL").is_none());
}

#[test]
fn canonicalization_follows_the_documented_order() {
    assert_eq!(canonicalize_stt_language(None), "en");
    assert_eq!(canonicalize_stt_language(Some("   ")), "en");
    assert_eq!(canonicalize_stt_language(Some("AUTO")), "auto");
    assert_eq!(canonicalize_stt_language(Some(" FR ")), "fr");
    assert_eq!(canonicalize_stt_language(Some("pt_BR.UTF-8")), "pt");
    assert_eq!(canonicalize_stt_language(Some("en-US")), "en");
    assert_eq!(canonicalize_stt_language(Some("tl-PH")), "fil");
    assert_eq!(canonicalize_stt_language(Some("xx")), "en");
    assert_eq!(primary_language_subtag("zh-Hant_TW"), "zh");
}

#[test]
fn api_language_resolves_auto_from_the_system() {
    assert_eq!(language_for_api("auto", Some("de")), "de");
    assert_eq!(language_for_api("auto", None), "en");
    assert_eq!(language_for_api("ja", Some("de")), "ja");
    assert_eq!(system_stt_language(Some(""), None, Some("ja_JP.UTF-8")), Some("ja"));
    assert_eq!(system_stt_language(Some("C"), None, Some("ja_JP.UTF-8")), None);
    assert_eq!(system_stt_language(None, Some("tl_PH"), None), Some("fil"));
    assert_eq!(system_stt_language(None, None, None), None);
}

#[test]
fn compiled_out_voice_surface() {
    let c = VoiceConfig::default();
    assert_eq!(c.api_base, "https://api.x.ai");
    assert_eq!(c.sample_rate, 16_000);
    assert_eq!(c.language, "en");
    assert!(matches!(input_device_info(), Err(VoiceError::Config(_))));
    assert!(maybe_run_capture_subprocess().is_none());
    assert!(StaticVoiceAuth::shared("  ").is_none());
    assert_eq!(StaticVoiceAuth::shared(" k ").map(|a| a.0), Some("k".to_string()));
    assert_eq!(VoiceError::Stt("x".into()).message(), "STT: x");
}
