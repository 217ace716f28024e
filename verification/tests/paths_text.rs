use std::path::{Path, PathBuf};

use grok_build::paths::{
    after_last_chars, components_chars, expand_tilde_chars, file_name_chars, join_path_chars,
    normalize_chars, path_starts_with_exec, trim_end_char_chars, trim_end_suffix_chars,
};
use grok_build::text::{dec_chars, dec_int_chars, is_whitespace, trim_str};

fn c(s: &str) -> Vec<char> {
    s.chars().collect()
}

fn s(v: &[char]) -> String {
    v.iter().collect()
}

const SAMPLES: &[&str] = &[
    "", "/", "//", "a", "a/", "./a", "./a/./b/", "/a//b/../c", "../x", "a/b/..", ".", "./", "/./a",
    "~/x", "x/./.",
];

#[test]
fn normalize_matches_std_components() {
    for p in SAMPLES {
        let ours = s(&normalize_chars(&c(p)));
        let std: PathBuf = Path::new(p).components().collect();
        assert_eq!(ours, std.to_string_lossy(), "{p:?}");
    }
}

#[test]
fn components_match_std() {
    for p in SAMPLES {
        let ours: Vec<String> = components_chars(&c(p)).iter().map(|v| s(v)).collect();
        let std: Vec<String> = Path::new(p)
            .components()
            .map(|x| x.as_os_str().to_string_lossy().into_owned())
            .collect();
        assert_eq!(ours, std, "{p:?}");
    }
}

#[test]
fn file_name_matches_std() {
    for p in SAMPLES {
        let ours = file_name_chars(&c(p)).map(|v| s(&v));
        let std = Path::new(p).file_name().map(|n| n.to_string_lossy().into_owned());
        assert_eq!(ours, std, "{p:?}");
    }
}

#[test]
fn join_and_starts_with_match_std() {
    for base in ["/home/u", "/home/u/", "rel", ""] {
        for rel in ["x", "/abs", "a/b", ""] {
            let ours = s(&join_path_chars(&c(base), &c(rel)));
            let std = Path::new(base).join(rel);
            assert_eq!(ours, std.to_string_lossy(), "{base:?} {rel:?}");
        }
    }
    for (p, b) in [
        ("/home/u/.grok/config.toml", "/home/u/.grok"),
        ("/home/u/.grokx", "/home/u/.grok"),
        ("/home/u//./.grok/a", "/home/u/.grok"),
        ("rel/a", "/rel"),
        ("/a", "/"),
    ] {
        assert_eq!(path_starts_with_exec(p, b), Path::new(p).starts_with(b), "{p:?} {b:?}");
    }
}

#[test]
fn tilde_expansion_uses_home() {
    let home = Some(c("/home/u"));
    assert_eq!(s(&expand_tilde_chars(&c("~/x"), &home)), "/home/u/x");
    assert_eq!(s(&expand_tilde_chars(&c("~"), &home)), "/home/u/");
    assert_eq!(s(&expand_tilde_chars(&c("~/x"), &None)), "~/x");
    assert_eq!(s(&expand_tilde_chars(&c("/x"), &home)), "/x");
}

#[test]
fn trimming_matches_std() {
    for t in ["repo.git.git", "repo", ".git", "a//", ""] {
        assert_eq!(s(&trim_end_suffix_chars(&c(t), &c(".git"))), t.trim_end_matches(".git"));
        assert_eq!(s(&trim_end_char_chars(&c(t), '/')), t.trim_end_matches('/'));
        assert_eq!(s(&after_last_chars(&c(t), '/')), t.rsplit('/').next().unwrap());
    }
    for t in ["  a b \n", "\u{3000}x\u{2029}", "\u{200b}y", ""] {
        assert_eq!(s(&trim_str(t)), t.trim(), "{t:?}");
    }
    for ch in ['\t', ' ', '\u{85}', '\u{a0}', '\u{200b}', 'x', '\u{3000}', '\u{180e}'] {
        assert_eq!(is_whitespace(ch), ch.is_whitespace(), "{ch:?}");
    }
}

#[test]
fn decimal_rendering_matches_std() {
    for n in [0u64, 7, 10, 1234567890, u64::MAX] {
        assert_eq!(s(&dec_chars(n)), n.to_string());
    }
    for n in [0i64, -1, 42, i64::MIN, i64::MAX] {
        assert_eq!(s(&dec_int_chars(n)), n.to_string());
    }
}
