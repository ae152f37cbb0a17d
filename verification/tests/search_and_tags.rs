use gladiators_db::search::{fts_query, scan_keeps_discussion, search_terms};
use gladiators_db::tags::{normalise_tags, parse_tags, tags_column, HISTORY_TAGS_MAX, HISTORY_TAG_MAX_CHARS};
use gladiators_db::text::{parse_i64, parse_u32, trim_str, u32_text};

#[test]
fn fts_query_quotes_every_term() {
    assert_eq!(fts_query("auto \"quoted\""), "\"auto\"* \"\"\"quoted\"\"\"*");
    assert_eq!(fts_query("automatisation productivité"), "\"automatisation\"* \"productivité\"*");
    assert_eq!(fts_query("  a\tb\n"), "\"a\"* \"b\"*");
    assert_eq!(fts_query("   "), "");
    assert_eq!(fts_query(""), "");
}

#[test]
fn blank_query_lists_everything() {
    assert_eq!(search_terms("   "), None);
    assert_eq!(search_terms(""), None);
    assert_eq!(search_terms("  télétravail "), Some("télétravail".to_string()));
}

#[test]
fn fallback_scan_requires_every_term() {
    let d1 = ("Le télétravail", "L'automatisation des tâches a dominé la synthèse.", "Bonjour");
    let d2 = ("Cuisine", "Recettes de saison", "Le message parle de productivité et d'automatisation");
    let d3 = ("Jardinage", "Semis", "Rien à voir");
    let keeps = |d: (&str, &str, &str), q: &str| scan_keeps_discussion(d.0, d.1, d.2, q);
    assert!(keeps(d1, "automatisation") && keeps(d2, "automatisation") && !keeps(d3, "automatisation"));
    assert!(!keeps(d1, "automatisation productivité") && keeps(d2, "automatisation productivité"));
    assert!(keeps(d1, "télétravail") && !keeps(d2, "télétravail"));
    assert!(!keeps(d1, "inexistant") && !keeps(d2, "inexistant") && !keeps(d3, "inexistant"));
    // Case-insensitive, accents included
    assert!(keeps(d1, "TÉLÉTRAVAIL"));
    assert!(keeps(d3, "semis rien"));
    // No term: everything is kept
    assert!(keeps(d3, "   "));
}

#[test]
fn tags_are_trimmed_lowercased_and_deduplicated() {
    let tags = normalise_tags(vec![" IA ".into(), String::new(), "travail".into(), "ia".into()]);
    assert_eq!(tags, vec!["ia", "travail"]);
    assert_eq!(normalise_tags(vec!["##Rust".into(), "#".into(), "  ".into()]), vec!["rust"]);
    // Stored tags are trimmed, also after the leading `#`
    assert_eq!(normalise_tags(vec!["# ia".into(), " # #Travail ".into()]), vec!["ia", "#travail"]);
}

#[test]
fn stored_tags_are_kept_as_they_are() {
    let raw: Vec<String> = vec!["# IA".into(), "Travail ".into(), "ia".into(), "a b".into()];
    let once = normalise_tags(raw);
    assert_eq!(once, vec!["ia", "travail", "a b"]);
    assert_eq!(normalise_tags(once.clone()), once);
    // The cut at the length bound is trimmed again
    let cut_at_space = format!("{} x", "a".repeat(HISTORY_TAG_MAX_CHARS - 1));
    let stored = normalise_tags(vec![cut_at_space]);
    assert_eq!(stored, vec!["a".repeat(HISTORY_TAG_MAX_CHARS - 1)]);
    assert_eq!(normalise_tags(stored.clone()), stored);
    // Beyond ASCII too
    let accents = normalise_tags(vec!["Élan ".into(), "ÉLAN".into(), "Straße".into()]);
    assert_eq!(accents, vec!["élan", "straße"]);
    assert_eq!(normalise_tags(accents.clone()), accents);
}

#[test]
fn tags_are_bounded() {
    let many: Vec<String> = (0..HISTORY_TAGS_MAX + 5).map(|i| format!("t{i}")).collect();
    let kept = normalise_tags(many);
    assert_eq!(kept.len(), HISTORY_TAGS_MAX);
    assert_eq!(kept[0], "t0");
    let long = normalise_tags(vec!["é".repeat(HISTORY_TAG_MAX_CHARS + 10)]);
    assert_eq!(long[0].chars().count(), HISTORY_TAG_MAX_CHARS);
}

#[test]
fn tags_column_reads_back() {
    let column = tags_column(vec![" IA ".into(), "Travail".into(), "ia".into()]);
    assert_eq!(column, "[\"ia\",\"travail\"]");
    assert_eq!(parse_tags(&column), vec!["ia", "travail"]);
    assert_eq!(parse_tags(&tags_column(vec![])), Vec::<String>::new());
    assert_eq!(tags_column(vec![]), "[]");
    let odd = tags_column(vec!["a\"b".into(), "c\\d\te".into(), "x\u{1}y".into()]);
    assert_eq!(odd, "[\"a\\\"b\",\"c\\\\d\\te\",\"x\\u0001y\"]");
    assert_eq!(parse_tags(&odd), vec!["a\"b", "c\\d\te", "x\u{1}y"]);
    assert!(parse_tags("not json").is_empty());
    assert!(parse_tags("{\"a\":1}").is_empty());
    assert!(parse_tags("").is_empty());
}

#[test]
fn decimal_text_round_trips() {
    assert_eq!(parse_u32("42"), Some(42));
    assert_eq!(parse_u32("+7"), Some(7));
    assert_eq!(parse_u32("-7"), None);
    assert_eq!(parse_u32("4294967295"), Some(u32::MAX));
    assert_eq!(parse_u32("4294967296"), None);
    assert_eq!(parse_u32(""), None);
    assert_eq!(parse_u32("+"), None);
    assert_eq!(parse_u32(" 1"), None);
    assert_eq!(parse_i64("-9223372036854775808"), Some(i64::MIN));
    assert_eq!(parse_i64("9223372036854775807"), Some(i64::MAX));
    assert_eq!(parse_i64("9223372036854775808"), None);
    assert_eq!(parse_i64("-"), None);
    for n in [0u32, 9, 10, 1234567, u32::MAX] {
        assert_eq!(u32_text(n), n.to_string());
        assert_eq!(parse_u32(&u32_text(n)), n.to_string().parse().ok());
    }
    assert_eq!(trim_str("\u{3000} a b \t"), "a b");
}
