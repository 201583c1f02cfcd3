use arima_console::slug::{ascii_alphanumeric, ascii_lowercase, sanitize_component, separator};

fn reference(s: &str) -> String {
    let mut out = String::with_capacity(s.len());
    for ch in s.trim().chars() {
        if ch.is_ascii_alphanumeric() {
            out.push(ch.to_ascii_lowercase());
        } else if ch == ' ' || ch == '-' || ch == '_' {
            if !out.ends_with('_') {
                out.push('_');
            }
        }
    }
    out.trim_matches('_').to_string()
}

fn samples() -> Vec<String> {
    let alphabet = ['a', 'Z', '7', ' ', '-', '_', '!', 'é', '\t', '\u{a0}'];
    let mut all: Vec<String> = vec![String::new()];
    let mut last: Vec<String> = vec![String::new()];
    for _ in 0..5 {
        let mut next: Vec<String> = Vec::new();
        for prefix in &last {
            for &c in &alphabet {
                let mut s = prefix.clone();
                s.push(c);
                next.push(s);
            }
        }
        all.extend(next.iter().cloned());
        last = next;
    }
    all
}

#[test]
fn slugs_of_the_catalog_stay_as_they_are() {
    for slug in [
        "cardiovasculares",
        "diabetes",
        "respiratorias_cronicas",
        "cancer",
        "hipertensao",
        "doenca_renal_cronica",
    ] {
        assert_eq!(sanitize_component(slug), slug);
    }
}

#[test]
fn letters_are_lowered_and_digits_kept() {
    assert_eq!(sanitize_component("ABCxyz019"), "abcxyz019");
    assert_eq!(sanitize_component("CID10"), "cid10");
}

#[test]
fn separators_collapse_to_one_underscore() {
    assert_eq!(sanitize_component("a b"), "a_b");
    assert_eq!(sanitize_component("a - b"), "a_b");
    assert_eq!(sanitize_component("a__b--c  d"), "a_b_c_d");
    assert_eq!(sanitize_component("a _-_ b"), "a_b");
}

#[test]
fn separators_at_the_ends_are_trimmed() {
    assert_eq!(sanitize_component("  a  "), "a");
    assert_eq!(sanitize_component("__a__"), "a");
    assert_eq!(sanitize_component("-a-b-"), "a_b");
    assert_eq!(sanitize_component("_"), "");
    assert_eq!(sanitize_component(" - _ "), "");
}

#[test]
fn other_characters_are_dropped() {
    assert_eq!(sanitize_component("a!b"), "ab");
    assert_eq!(sanitize_component("Doenças crônicas"), "doenas_crnicas");
    assert_eq!(sanitize_component("a-!-b"), "a_b");
    assert_eq!(sanitize_component("a!-!b"), "a_b");
    assert_eq!(sanitize_component("(E10-E14)"), "e10_e14");
    assert_eq!(sanitize_component("\ta\nb\r"), "ab");
    assert_eq!(sanitize_component("é"), "");
    assert_eq!(sanitize_component(""), "");
}

#[test]
fn sanitizing_agrees_with_trimming_first() {
    for s in samples() {
        assert_eq!(sanitize_component(&s), reference(&s), "{:?}", s);
    }
}

#[test]
fn sanitizing_twice_changes_nothing() {
    for s in samples() {
        let once = sanitize_component(&s);
        assert_eq!(sanitize_component(&once), once, "{:?}", s);
    }
    let once = sanitize_component("  Neoplasias / Câncer (C e D0-D4) ");
    assert_eq!(once, "neoplasias_cncer_c_e_d0_d4");
    assert_eq!(sanitize_component(&once), once);
}

#[test]
fn the_result_is_a_slug() {
    for s in samples() {
        let slug = sanitize_component(&s);
        assert!(slug.chars().all(|c| c.is_ascii_lowercase() || c.is_ascii_digit() || c == '_'));
        assert!(!slug.starts_with('_'));
        assert!(!slug.ends_with('_'));
        assert!(!slug.contains("__"));
    }
}

#[test]
fn character_classes() {
    for code in 0u32..0x250 {
        let c = char::from_u32(code).unwrap();
        assert_eq!(ascii_alphanumeric(c), c.is_ascii_alphanumeric());
        assert_eq!(ascii_lowercase(c), c.to_ascii_lowercase());
        assert_eq!(separator(c), c == ' ' || c == '-' || c == '_');
    }
    assert_eq!(ascii_lowercase('A'), 'a');
    assert_eq!(ascii_lowercase('Z'), 'z');
    assert_eq!(ascii_lowercase('É'), 'É');
}
