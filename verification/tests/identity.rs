use renskin::cache::{digits, CacheKey};
use renskin::error::RenderError;
use renskin::identity::{identity_char, matches_pattern, Identity};
use renskin::scale::Scale;

#[test]
fn pattern_accepts_three_to_sixteen() {
    assert!(matches_pattern("abc"));
    assert!(matches_pattern("Notch"));
    assert!(matches_pattern("a_B_9"));
    assert!(matches_pattern("___"));
    assert!(matches_pattern("0123456789abcdef"));
}

#[test]
fn pattern_refuses_wrong_lengths() {
    assert!(!matches_pattern(""));
    assert!(!matches_pattern("ab"));
    assert!(!matches_pattern("0123456789abcdefg"));
    assert!(!matches_pattern(&"a".repeat(4000)));
}

#[test]
fn pattern_refuses_other_characters() {
    assert!(!matches_pattern("ab c"));
    assert!(!matches_pattern("abc\n"));
    assert!(!matches_pattern("ab-c"));
    assert!(!matches_pattern("ab.c"));
    assert!(!matches_pattern("../x"));
    assert!(!matches_pattern("abc/"));
    assert!(!matches_pattern("h\u{e9}llo"));
    assert!(!matches_pattern("\u{430}\u{431}\u{432}"));
}

#[test]
fn identity_characters_are_the_ascii_word_characters() {
    for code in 0u32..0x300 {
        if let Some(c) = char::from_u32(code) {
            let expected = c.is_ascii_alphanumeric() || c == '_';
            assert_eq!(identity_char(c), expected, "{:?}", c);
        }
    }
}

#[test]
fn normalize_lowercases() {
    let id = Identity::normalize("Notch").unwrap();
    assert_eq!(id.as_str(), "notch");
    let id = Identity::normalize("JEB_").unwrap();
    assert_eq!(id.as_str(), "jeb_");
}

#[test]
fn notch_and_notch_are_one_identity() {
    let a = Identity::normalize("Notch").unwrap();
    let b = Identity::normalize("notch").unwrap();
    let c = Identity::normalize("NOTCH").unwrap();
    assert_eq!(a.as_str(), b.as_str());
    assert_eq!(a.as_str(), c.as_str());
    assert_eq!(CacheKey::rendered(&a).path(), CacheKey::rendered(&b).path());
    assert_eq!(CacheKey::raw(a.as_str()).path(), CacheKey::raw(b.as_str()).path());
}

#[test]
fn normalize_refuses_what_the_pattern_refuses() {
    assert!(matches!(Identity::normalize("ab"), Err(RenderError::InvalidIdentity)));
    assert!(matches!(Identity::normalize(""), Err(RenderError::InvalidIdentity)));
    assert!(matches!(Identity::normalize("has space"), Err(RenderError::InvalidIdentity)));
    assert!(matches!(
        Identity::normalize("seventeen_letters"),
        Err(RenderError::InvalidIdentity)
    ));
    assert!(matches!(Identity::normalize("../../etc"), Err(RenderError::InvalidIdentity)));
}

#[test]
fn from_normalized_does_not_lowercase() {
    let id = Identity::from_normalized("Notch".to_string()).unwrap();
    assert_eq!(id.as_str(), "Notch");
    assert!(matches!(
        Identity::from_normalized("no".to_string()),
        Err(RenderError::InvalidIdentity)
    ));
}

#[test]
fn duplicate_is_equal() {
    let id = Identity::normalize("Steve").unwrap();
    assert_eq!(id.duplicate().as_str(), "steve");
}

#[test]
fn paths_follow_the_tiers() {
    let id = Identity::normalize("Notch").unwrap();
    assert_eq!(CacheKey::rendered(&id).path(), "./.cache/ren/notch.png");
    assert_eq!(
        CacheKey::scaled(&id, Scale::clamp(Some(4))).path(),
        "./.cache/scl/notch.4.png"
    );
    assert_eq!(
        CacheKey::scaled(&id, Scale::clamp(Some(16))).path(),
        "./.cache/scl/notch.16.png"
    );
    assert_eq!(
        CacheKey::raw("069a79f444e94726a5befca90e38aaf5").path(),
        "./.cache/moj/069a79f444e94726a5befca90e38aaf5.png"
    );
    assert_eq!(CacheKey::raw(id.as_str()).path(), "./.cache/moj/notch.png");
}

#[test]
fn scaled_path_of_an_unlisted_scale_is_that_of_one() {
    let id = Identity::normalize("Notch").unwrap();
    assert_eq!(
        CacheKey::scaled(&id, Scale::clamp(Some(3))).path(),
        CacheKey::scaled(&id, Scale::clamp(Some(1))).path()
    );
    assert_eq!(
        CacheKey::scaled(&id, Scale::clamp(Some(3))).path(),
        "./.cache/scl/notch.1.png"
    );
}

#[test]
fn digits_of_each_scale() {
    assert_eq!(digits(Scale::clamp(Some(1))), "1");
    assert_eq!(digits(Scale::clamp(Some(2))), "2");
    assert_eq!(digits(Scale::clamp(Some(4))), "4");
    assert_eq!(digits(Scale::clamp(Some(8))), "8");
    assert_eq!(digits(Scale::clamp(Some(16))), "16");
    assert_eq!(digits(Scale::clamp(None)), "1");
}

#[test]
fn pattern_agrees_with_the_regular_expression() {
    let pattern = regex::Regex::new(r"^[a-zA-Z0-9_]{3,16}$").unwrap();
    let alphabet = ['a', 'Z', '0', '9', '_', '-', ' ', '.', '/', '\n', '\u{e9}', '\u{212a}', '{', '@', '[', '`'];
    let mut candidates: Vec<String> = vec![String::new()];
    for &c in alphabet.iter() {
        for len in 1..=18 {
            candidates.push(std::iter::repeat(c).take(len).collect());
        }
        for &d in alphabet.iter() {
            candidates.push(format!("{}{}", c, d));
            candidates.push(format!("a{}{}", c, d));
            candidates.push(format!("{}b{}", c, d));
            candidates.push(format!("{}{}c", c, d));
            candidates.push(format!("0123456789abc{}{}", c, d));
            candidates.push(format!("0123456789abcd{}{}", c, d));
            candidates.push(format!("0123456789abcde{}{}", c, d));
        }
    }
    for candidate in candidates.iter() {
        assert_eq!(matches_pattern(candidate), pattern.is_match(candidate), "{:?}", candidate);
    }
}

#[test]
fn normalize_agrees_with_lowercasing_then_matching() {
    let pattern = regex::Regex::new(r"^[a-zA-Z0-9_]{3,16}$").unwrap();
    for requested in ["Notch", "NOTCH", "jeb_", "ab", "\u{212a}ab", "\u{130}stanbul", "A B", "x.y.z", "Dinnerbone_2012"] {
        let lowered = requested.to_lowercase();
        match Identity::normalize(requested) {
            Ok(id) => {
                assert!(pattern.is_match(&lowered));
                assert_eq!(id.as_str(), lowered);
            }
            Err(e) => {
                assert!(!pattern.is_match(&lowered));
                assert_eq!(e, RenderError::InvalidIdentity);
            }
        }
    }
}
