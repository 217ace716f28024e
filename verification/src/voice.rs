//! Speech-to-text language selection and the voice surface in builds
//! without the voice pipeline: the language catalog, how a configured or
//! system language maps onto it, and capture that reports the missing
//! feature.

use vstd::prelude::*;
use crate::responses::slots::{first_match, lemma_first_match_is};
use crate::text::{chars_of, eq_ignore_case, eq_ignore_case_exec, owned, string_of, trim, trim_chars, trim_str};

verus! {

/// Whether audio capture is available in this build.
pub const AUDIO_SUPPORTED: bool = false;

/// Subcommand of the capture subprocess.
pub const MIC_CAPTURE_SUBCOMMAND: &'static str = "__mic-capture";

/// The language setting that follows the system locale.
pub const STT_LANGUAGE_AUTO: &'static str = "auto";

/// The language used when nothing else applies.
pub const STT_LANGUAGE_DEFAULT: &'static str = "en";

/// A language the STT service supports.
#[derive(Clone, Copy, Debug)]
pub struct SttLanguage {
    pub code: &'static str,
    pub name: &'static str,
}

/// The supported languages (code, name), in display order.
pub open spec fn stt_catalog() -> Seq<(Seq<char>, Seq<char>)> {
    seq![
        ("ar"@, "Arabic"@),
        ("cs"@, "Czech"@),
        ("da"@, "Danish"@),
        ("nl"@, "Dutch"@),
        ("en"@, "English"@),
        ("fil"@, "Filipino"@),
        ("fr"@, "French"@),
        ("de"@, "German"@),
        ("hi"@, "Hindi"@),
        ("id"@, "Indonesian"@),
        ("it"@, "Italian"@),
        ("ja"@, "Japanese"@),
        ("ko"@, "Korean"@),
        ("mk"@, "Macedonian"@),
        ("ms"@, "Malay"@),
        ("fa"@, "Persian"@),
        ("pl"@, "Polish"@),
        ("pt"@, "Portuguese"@),
        ("ro"@, "Romanian"@),
        ("ru"@, "Russian"@),
        ("es"@, "Spanish"@),
        ("sv"@, "Swedish"@),
        ("th"@, "Thai"@),
        ("tr"@, "Turkish"@),
        ("vi"@, "Vietnamese"@)
    ]
}

/// View of a catalog entry.
pub open spec fn lang_view(l: SttLanguage) -> (Seq<char>, Seq<char>) {
    (l.code@, l.name@)
}

/// The supported languages.
pub fn stt_languages() -> (r: Vec<SttLanguage>)
    ensures
        r@.map_values(|l: SttLanguage| lang_view(l)) == stt_catalog(),
{
    let mut v: Vec<SttLanguage> = Vec::new();
    v.push(SttLanguage { code: "ar", name: "Arabic" });
    v.push(SttLanguage { code: "cs", name: "Czech" });
    v.push(SttLanguage { code: "da", name: "Danish" });
    v.push(SttLanguage { code: "nl", name: "Dutch" });
    v.push(SttLanguage { code: "en", name: "English" });
    v.push(SttLanguage { code: "fil", name: "Filipino" });
    v.push(SttLanguage { code: "fr", name: "French" });
    v.push(SttLanguage { code: "de", name: "German" });
    v.push(SttLanguage { code: "hi", name: "Hindi" });
    v.push(SttLanguage { code: "id", name: "Indonesian" });
    v.push(SttLanguage { code: "it", name: "Italian" });
    v.push(SttLanguage { code: "ja", name: "Japanese" });
    v.push(SttLanguage { code: "ko", name: "Korean" });
    v.push(SttLanguage { code: "mk", name: "Macedonian" });
    v.push(SttLanguage { code: "ms", name: "Malay" });
    v.push(SttLanguage { code: "fa", name: "Persian" });
    v.push(SttLanguage { code: "pl", name: "Polish" });
    v.push(SttLanguage { code: "pt", name: "Portuguese" });
    v.push(SttLanguage { code: "ro", name: "Romanian" });
    v.push(SttLanguage { code: "ru", name: "Russian" });
    v.push(SttLanguage { code: "es", name: "Spanish" });
    v.push(SttLanguage { code: "sv", name: "Swedish" });
    v.push(SttLanguage { code: "th", name: "Thai" });
    v.push(SttLanguage { code: "tr", name: "Turkish" });
    v.push(SttLanguage { code: "vi", name: "Vietnamese" });
    assert(v@.map_values(|l: SttLanguage| lang_view(l)) =~= stt_catalog());
    v
}

/// An entry whose code is `code` exactly.
pub open spec fn code_is(code: Seq<char>) -> spec_fn((Seq<char>, Seq<char>)) -> bool {
    |e: (Seq<char>, Seq<char>)| e.0 == code
}

/// An entry whose code equals `raw` up to ASCII case.
pub open spec fn code_matches(raw: Seq<char>) -> spec_fn((Seq<char>, Seq<char>)) -> bool {
    |e: (Seq<char>, Seq<char>)| eq_ignore_case(raw, e.0)
}

/// Look up a catalog entry by exact (case-sensitive) code.
pub fn stt_language_by_code(code: &str) -> (r: Option<SttLanguage>)
    ensures
        ({
            let j = first_match(stt_catalog(), code_is(code@));
            if j < stt_catalog().len() {
                r matches Some(l) && lang_view(l) == stt_catalog()[j]
            } else {
                r is None
            }
        }),
{
    let all = stt_languages();
    let ghost cat = stt_catalog();
    let want = chars_of(code);
    let mut i: usize = 0;
    while i < all.len()
        invariant
            i <= all@.len(),
            all@.map_values(|l: SttLanguage| lang_view(l)) == cat,
            cat == stt_catalog(),
            want@ == code@,
            forall|k: int| 0 <= k < i ==> !code_is(code@)(cat[k]),
        decreases all@.len() - i,
    {
        assert(cat[i as int] == lang_view(all@[i as int]));
        let c = chars_of(all[i].code);
        if crate::text::chars_eq(c.as_slice(), want.as_slice()) {
            proof {
                lemma_first_match_is(cat, code_is(code@), i as int);
            }
            return Some(all[i]);
        }
        i += 1;
    }
    proof {
        lemma_first_match_is(cat, code_is(code@), i as int);
    }
    None
}

/// The catalog code `raw` names up to ASCII case.
pub open spec fn supported_code_spec(raw: Seq<char>) -> Option<Seq<char>> {
    let j = first_match(stt_catalog(), code_matches(raw));
    if j < stt_catalog().len() {
        Some(stt_catalog()[j].0)
    } else {
        None
    }
}

/// The catalog code equal to `raw` up to ASCII case.
pub fn match_supported_code(raw: &str) -> (r: Option<&'static str>)
    ensures
        match r {
            Some(c) => supported_code_spec(raw@) == Some(c@),
            None => supported_code_spec(raw@) is None,
        },
{
    let all = stt_languages();
    let ghost cat = stt_catalog();
    let want = chars_of(raw);
    let mut i: usize = 0;
    while i < all.len()
        invariant
            i <= all@.len(),
            all@.map_values(|l: SttLanguage| lang_view(l)) == cat,
            cat == stt_catalog(),
            want@ == raw@,
            forall|k: int| 0 <= k < i ==> !code_matches(raw@)(cat[k]),
        decreases all@.len() - i,
    {
        assert(cat[i as int] == lang_view(all@[i as int]));
        let c = chars_of(all[i].code);
        if eq_ignore_case_exec(want.as_slice(), c.as_slice()) {
            proof {
                lemma_first_match_is(cat, code_matches(raw@), i as int);
            }
            return Some(all[i].code);
        }
        i += 1;
    }
    proof {
        lemma_first_match_is(cat, code_matches(raw@), i as int);
    }
    None
}

/// Common non-catalog primaries mapped onto a supported code: Tagalog
/// (`tl`, any case) is Filipino.
pub fn alias_to_supported(primary: &str) -> (r: Option<&'static str>)
    ensures
        eq_ignore_case(primary@, "tl"@) ==> (r matches Some(c) && c@ == "fil"@),
        !eq_ignore_case(primary@, "tl"@) ==> r is None,
{
    let p = chars_of(primary);
    let tl = chars_of("tl");
    if eq_ignore_case_exec(p.as_slice(), tl.as_slice()) {
        Some("fil")
    } else {
        None
    }
}

/// A separator of a locale's subtags.
pub open spec fn is_subtag_sep(c: char) -> bool {
    c == '_' || c == '-' || c == '.'
}

/// The text before the first subtag separator.
pub open spec fn before_sep(s: Seq<char>) -> Seq<char>
    decreases s.len(),
{
    if s.len() == 0 {
        s
    } else if is_subtag_sep(s[0]) {
        Seq::empty()
    } else {
        seq![s[0]] + before_sep(s.drop_first())
    }
}

/// The primary subtag of a BCP-47 or POSIX locale (`pt_BR.UTF-8` gives
/// `pt`), trimmed.
pub open spec fn primary_subtag_spec(raw: Seq<char>) -> Seq<char> {
    trim(before_sep(raw))
}

/// The primary language subtag of `raw`.
pub fn primary_language_subtag(raw: &str) -> (r: String)
    ensures
        r@ == primary_subtag_spec(raw@),
{
    let c = chars_of(raw);
    let mut i: usize = 0;
    while i < c.len() && !(c[i] == '_' || c[i] == '-' || c[i] == '.')
        invariant
            i <= c@.len(),
            c@ == raw@,
            forall|k: int| 0 <= k < i ==> !is_subtag_sep(c@[k]),
        decreases c@.len() - i,
    {
        i += 1;
    }
    proof {
        lemma_before_sep(c@, i as int);
    }
    let head = crate::text::slice_range(c.as_slice(), 0, i);
    let t = trim_chars(head.as_slice());
    string_of(t.as_slice())
}

/// The text before the first separator is the prefix up to it.
proof fn lemma_before_sep(s: Seq<char>, i: int)
    requires
        0 <= i <= s.len(),
        forall|k: int| 0 <= k < i ==> !is_subtag_sep(s[k]),
        i < s.len() ==> is_subtag_sep(s[i]),
    ensures
        before_sep(s) == s.subrange(0, i),
    decreases s.len(),
{
    if s.len() > 0 && i > 0 {
        let t = s.drop_first();
        assert forall|k: int| 0 <= k < i - 1 implies !is_subtag_sep(t[k]) by {
            assert(t[k] == s[k + 1]);
        }
        if i - 1 < t.len() {
            assert(t[i - 1] == s[i]);
        }
        lemma_before_sep(t, i - 1);
        assert(!is_subtag_sep(s[0]));
        assert(seq![s[0]] + t.subrange(0, i - 1) =~= s.subrange(0, i));
    } else if s.len() > 0 {
        assert(s.subrange(0, 0) =~= Seq::<char>::empty());
    } else {
        assert(s.subrange(0, 0) =~= s);
    }
}

/// The language a setting names: blank or unknown is the default, `auto`
/// (any case) follows the system, a catalog code (any case) is itself, and
/// a locale form gives its primary subtag when that is supported or has an
/// alias.
pub open spec fn canonical_spec(value: Option<Seq<char>>) -> Seq<char> {
    let raw = match value {
        Some(v) => trim(v),
        None => Seq::empty(),
    };
    if raw.len() == 0 {
        "en"@
    } else if eq_ignore_case(raw, "auto"@) {
        "auto"@
    } else if supported_code_spec(raw) is Some {
        supported_code_spec(raw)->0
    } else if supported_code_spec(primary_subtag_spec(raw)) is Some {
        supported_code_spec(primary_subtag_spec(raw))->0
    } else if eq_ignore_case(primary_subtag_spec(raw), "tl"@) {
        "fil"@
    } else {
        "en"@
    }
}

/// Map a user/config string to a catalog code or `auto`.
pub fn canonicalize_stt_language(value: Option<&str>) -> (r: &'static str)
    ensures
        r@ == canonical_spec(
            match value {
                Some(v) => Some(v@),
                None => None,
            },
        ),
{
    let raw_chars = match value {
        Some(v) => trim_str(v),
        None => Vec::new(),
    };
    let raw = string_of(raw_chars.as_slice());
    if raw_chars.len() == 0 {
        return "en";
    }
    let auto = chars_of("auto");
    if eq_ignore_case_exec(raw_chars.as_slice(), auto.as_slice()) {
        return "auto";
    }
    match match_supported_code(raw.as_str()) {
        Some(code) => {
            return code;
        },
        None => {},
    }
    let primary = primary_language_subtag(raw.as_str());
    match match_supported_code(primary.as_str()) {
        Some(code) => {
            return code;
        },
        None => {},
    }
    match alias_to_supported(primary.as_str()) {
        Some(code) => {
            return code;
        },
        None => {},
    }
    "en"
}

/// The locale's language when it is supported: the first of `LC_ALL`,
/// `LC_MESSAGES`, `LANG` that is set and not empty; none for the `C` and
/// `POSIX` locales or an unsupported language.
pub open spec fn system_language_spec(
    lc_all: Option<Seq<char>>,
    lc_messages: Option<Seq<char>>,
    lang: Option<Seq<char>>,
) -> Option<Seq<char>> {
    let loc = if lc_all matches Some(v) && v.len() > 0 {
        lc_all
    } else if lc_messages matches Some(v) && v.len() > 0 {
        lc_messages
    } else if lang matches Some(v) && v.len() > 0 {
        lang
    } else {
        None
    };
    match loc {
        None => None,
        Some(l) => if eq_ignore_case(l, "C"@) || eq_ignore_case(l, "POSIX"@) {
            None
        } else {
            let p = primary_subtag_spec(l);
            if supported_code_spec(p) is Some {
                supported_code_spec(p)
            } else if eq_ignore_case(p, "tl"@) {
                Some("fil"@)
            } else {
                None
            }
        },
    }
}

/// View of an optional string.
pub open spec fn opt_text(s: Option<&str>) -> Option<Seq<char>> {
    match s {
        Some(v) => Some(v@),
        None => None,
    }
}

/// The supported language of the process locale, given the values of
/// `LC_ALL`, `LC_MESSAGES` and `LANG`.
pub fn system_stt_language(lc_all: Option<&str>, lc_messages: Option<&str>, lang: Option<&str>) -> (r: Option<
    &'static str,
>)
    ensures
        opt_text(r) == system_language_spec(opt_text(lc_all), opt_text(lc_messages), opt_text(lang)),
{
    let loc: &str = match lc_all {
        Some(v) if chars_of(v).len() > 0 => v,
        _ => match lc_messages {
            Some(v) if chars_of(v).len() > 0 => v,
            _ => match lang {
                Some(v) if chars_of(v).len() > 0 => v,
                _ => {
                    return None;
                },
            },
        },
    };
    let l = chars_of(loc);
    let c = chars_of("C");
    let posix = chars_of("POSIX");
    if eq_ignore_case_exec(l.as_slice(), c.as_slice()) || eq_ignore_case_exec(l.as_slice(), posix.as_slice()) {
        return None;
    }
    let primary = primary_language_subtag(loc);
    match match_supported_code(primary.as_str()) {
        Some(code) => Some(code),
        None => alias_to_supported(primary.as_str()),
    }
}

/// The language code sent to the STT service: the setting's language, and
/// for `auto` the system's (the default when it has none); never `auto`.
pub fn language_for_api(stored: &str, system: Option<&'static str>) -> (r: &'static str)
    ensures
        canonical_spec(Some(stored@)) == "auto"@ ==> r@ == match system {
            Some(s) => s@,
            None => "en"@,
        },
        canonical_spec(Some(stored@)) != "auto"@ ==> r@ == canonical_spec(Some(stored@)),
{
    let canonical = canonicalize_stt_language(Some(stored));
    let a = chars_of(canonical);
    let b = chars_of("auto");
    if crate::text::chars_eq(a.as_slice(), b.as_slice()) {
        match system {
            Some(s) => s,
            None => "en",
        }
    } else {
        canonical
    }
}

/// Settings of the voice pipeline.
pub struct VoiceConfig {
    pub api_base: String,
    pub stt_ws_path: String,
    pub language: String,
    pub sample_rate: u32,
    pub stt_endpointing_ms: u32,
    pub stt_interim_results: bool,
    pub client_identifier: String,
    pub user_agent: String,
}

impl Default for VoiceConfig {
    /// The defaults: the public API, English, 16 kHz, 400 ms endpointing,
    /// interim results on.
    fn default() -> (r: Self)
        ensures
            r.api_base@ == "https://api.x.ai"@,
            r.stt_ws_path@ == "/v1/stt"@,
            r.language@ == "en"@,
            r.sample_rate == 16000,
            r.stt_endpointing_ms == 400,
            r.stt_interim_results,
            r.client_identifier@.len() == 0,
            r.user_agent@.len() == 0,
    {
        VoiceConfig {
            api_base: owned("https://api.x.ai"),
            stt_ws_path: owned("/v1/stt"),
            language: owned("en"),
            sample_rate: 16000,
            stt_endpointing_ms: 400,
            stt_interim_results: true,
            client_identifier: String::new(),
            user_agent: String::new(),
        }
    }
}

/// A voice failure.
pub enum VoiceError {
    Config(String),
    Stt(String),
    Auth(String),
    WebSocket(String),
}

impl VoiceError {
    /// The message: the failing stage, then the detail.
    pub fn message(&self) -> (r: String)
        ensures
            r@ == match self {
                VoiceError::Config(m) => "configuration: "@ + m@,
                VoiceError::Stt(m) => "STT: "@ + m@,
                VoiceError::Auth(m) => "auth: "@ + m@,
                VoiceError::WebSocket(m) => "WebSocket: "@ + m@,
            },
    {
        let (head, m) = match self {
            VoiceError::Config(m) => ("configuration: ", m),
            VoiceError::Stt(m) => ("STT: ", m),
            VoiceError::Auth(m) => ("auth: ", m),
            VoiceError::WebSocket(m) => ("WebSocket: ", m),
        };
        let mut v = chars_of(head);
        crate::text::extend_str(&mut v, m.as_str());
        string_of(v.as_slice())
    }
}

/// What the pipeline reports.
pub enum VoiceEvent {
    InterimTranscript { text: String },
    UtteranceFinal { text: String },
    Error { message: String, hint: Option<String> },
}

/// What the pager tells the pipeline.
pub enum VoiceCommand {
    PttPress,
    PttRelease,
    Shutdown,
}

/// A fixed API key as the voice credential.
pub struct StaticVoiceAuth(pub String);

impl StaticVoiceAuth {
    /// The trimmed key as a credential; none for a blank key.
    pub fn shared(key: &str) -> (r: Option<StaticVoiceAuth>)
        ensures
            trim(key@).len() == 0 ==> r is None,
            trim(key@).len() > 0 ==> (r matches Some(a) && a.0@ == trim(key@)),
    {
        let k = trim_str(key);
        if k.len() == 0 {
            None
        } else {
            Some(StaticVoiceAuth(string_of(k.as_slice())))
        }
    }
}

/// An input device's description.
pub struct InputDeviceInfo {
    pub name: String,
    pub detail: String,
}

/// No input device is available in this build.
pub fn input_device_info() -> (r: Result<InputDeviceInfo, VoiceError>)
    ensures
        r matches Err(VoiceError::Config(m)) && m@
            == "Voice support is not compiled into this build (missing feature `voice`)"@,
{
    Err(VoiceError::Config(owned("Voice support is not compiled into this build (missing feature `voice`)")))
}

/// This process is never the capture subprocess in this build.
pub fn maybe_run_capture_subprocess() -> (r: Option<i32>)
    ensures
        r is None,
{
    None
}

/// A locale variable that is set: present and not empty.
pub open spec fn locale_set(v: Option<Seq<char>>) -> bool {
    v matches Some(x) && x.len() > 0
}

/// Locale precedence: a set `LC_ALL` decides alone; otherwise a set
/// `LC_MESSAGES` decides alone, whatever `LANG` holds; `LANG` counts only
/// when both are unset or empty; and with none set there is no language.
pub proof fn lemma_locale_precedence(
    lc_all: Option<Seq<char>>,
    lc_messages: Option<Seq<char>>,
    lang: Option<Seq<char>>,
)
    ensures
        locale_set(lc_all) ==> system_language_spec(lc_all, lc_messages, lang) == system_language_spec(
            lc_all,
            None,
            None,
        ),
        !locale_set(lc_all) && locale_set(lc_messages) ==> system_language_spec(lc_all, lc_messages, lang)
            == system_language_spec(None, lc_messages, None),
        !locale_set(lc_all) && !locale_set(lc_messages) ==> system_language_spec(lc_all, lc_messages, lang)
            == system_language_spec(None, None, lang),
        system_language_spec(None, None, None) is None,
{
}

} // verus!
