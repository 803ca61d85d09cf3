use pexliformation::digest::sha256_hex;
use pexliformation::preview::{
    binary_source, library_source, preview_file, preview_text, PREVIEW_LIMIT, TRUNCATION_NOTICE,
};
use pexliformation::path::{PathComponent, ProgramPath};
use pexliformation::text::{decimal, first_line_trimmed, hex_lower, replace_hyphens, trim, white_space};

fn path(s: &str) -> ProgramPath {
    let mut components = Vec::new();
    let mut leads = Vec::new();
    let mut pending = String::new();
    let mut rest = s;
    if let Some(r) = s.strip_prefix('/') {
        components.push(PathComponent::RootDir);
        leads.push("/".to_string());
        rest = r;
    }
    for (i, seg) in rest.split('/').enumerate() {
        if i > 0 {
            pending.push('/');
        }
        let comp = match seg {
            "" => None,
            "." if !components.is_empty() => None,
            "." => Some(PathComponent::CurDir),
            ".." => Some(PathComponent::ParentDir),
            n => Some(PathComponent::Normal(n.to_string())),
        };
        match comp {
            Some(c) => {
                components.push(c);
                leads.push(std::mem::take(&mut pending));
            }
            None => pending.push_str(seg),
        }
    }
    ProgramPath { components, leads, tail: pending, separator: '/' }
}

#[test]
fn hex_renders_two_lower_case_digits_per_byte() {
    assert_eq!(hex_lower(&[0xbe, 0xef, 0x00, 0x0f, 0xa0]), "beef000fa0");
    assert_eq!(hex_lower(&[]), "");
}

#[test]
fn sha256_of_known_inputs() {
    assert_eq!(
        sha256_hex(b"hello world"),
        "b94d27b9934d3e08a52e52d7da7dabfac484efe37a5380ee9088f7ace2efcde9"
    );
    assert_eq!(
        sha256_hex(b""),
        "e3b0c44298fc1c149afbf4c8996fb92427ae41e4649b934ca495991b7852b855"
    );
}

#[test]
fn sha256_hex_is_not_the_input_in_hex() {
    let data = [1u8, 2, 3];
    assert_ne!(sha256_hex(&data), hex_lower(&data));
    assert_eq!(sha256_hex(&data).len(), 64);
}

#[test]
fn decimal_matches_display() {
    for n in [0, 7, 10, 101, -1, -250, i32::MAX, i32::MIN] {
        assert_eq!(decimal(n), n.to_string());
    }
}

#[test]
fn trim_removes_unicode_whitespace_at_both_ends() {
    assert_eq!(trim("  solana 1.18 \t\r\n"), "solana 1.18");
    assert_eq!(trim("\u{3000}\u{a0}x y\u{2009}"), "x y");
    assert_eq!(trim(" \n\t "), "");
    assert_eq!(trim("inner  space"), "inner  space");
    for c in ['\u{85}', '\u{1680}', '\u{2028}', '\u{202f}', ' ', '\u{b}'] {
        assert!(white_space(c));
    }
    assert!(!white_space('x'));
    assert!(!white_space('\u{200b}'));
}

#[test]
fn first_line_is_trimmed_and_absent_for_empty_text() {
    assert_eq!(
        first_line_trimmed("solana-cargo-build-sbf 1.18.26\nplatform-tools v1.41\n"),
        Some("solana-cargo-build-sbf 1.18.26".to_string())
    );
    assert_eq!(first_line_trimmed("  one line  "), Some("one line".to_string()));
    assert_eq!(first_line_trimmed("\r\nsecond"), Some(String::new()));
    assert_eq!(first_line_trimmed("\n"), Some(String::new()));
    assert_eq!(first_line_trimmed(""), None);
}

#[test]
fn hyphens_become_underscores() {
    assert_eq!(replace_hyphens("hello-pexli-v2"), "hello_pexli_v2");
    assert_eq!(replace_hyphens("plain"), "plain");
}

#[test]
fn short_preview_is_unchanged() {
    let text = "fn main() {}\n";
    assert_eq!(preview_text(text), text);
    let exact = "a".repeat(PREVIEW_LIMIT);
    assert_eq!(preview_text(&exact), exact);
}

#[test]
fn long_preview_is_cut_with_a_notice() {
    let text = "b".repeat(PREVIEW_LIMIT + 5);
    let preview = preview_text(&text);
    assert_eq!(preview, format!("{}{}", "b".repeat(PREVIEW_LIMIT), TRUNCATION_NOTICE));
    assert!(preview.ends_with("\n\n… (truncated preview)"));
    let mixed = format!("{}é tail", "c".repeat(PREVIEW_LIMIT));
    assert_eq!(preview_text(&mixed), format!("{}{}", "c".repeat(PREVIEW_LIMIT), TRUNCATION_NOTICE));
}

#[test]
fn preview_file_prefers_lib_then_main_then_manifest() {
    let folder = path("/work/project");
    assert_eq!(preview_file(&folder, true, true, true), path("/work/project/src/lib.rs"));
    assert_eq!(preview_file(&folder, true, false, true), path("/work/project/src/main.rs"));
    assert_eq!(preview_file(&folder, true, false, false), path("/work/project/Cargo.toml"));
    let file = path("/work/contract.rs");
    assert_eq!(preview_file(&file, false, true, true), file);
    assert_eq!(library_source(&folder), path("/work/project/src/lib.rs"));
    assert_eq!(binary_source(&folder), path("/work/project/src/main.rs"));
}
