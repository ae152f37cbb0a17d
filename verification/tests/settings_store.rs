use gladiators_db::history::history_with_period;
use gladiators_db::license::{last_check_row, license_from_rows, license_rows, next_license_count, LicenseTracking};
use gladiators_db::rolling_period::Date;
use gladiators_db::settings::{
    apply_deepseek_reset, apply_tavily_reset, deepseek_period_reset, merge_user_settings, reset_deepseek_usage,
    settings_from_rows, settings_pairs, tavily_period_check, tavily_period_reset, with_period_starts, AppSettings, LLM_DEFAULT_NUM_CTX,
};

fn d(y: i32, m: u32, day: u32) -> Date {
    Date::from_ymd_opt(y, m, day).unwrap()
}

fn row(k: &str, v: &str) -> (String, String) {
    (k.to_string(), v.to_string())
}

#[test]
fn rows_read_into_settings() {
    let s = settings_from_rows(&vec![
        row("username", "Léo"),
        row("emotion_driven", "false"),
        row("tavily_usage_count", "12"),
        row("num_ctx", "oops"),
        row("deepseek_model", "   "),
        row("unknown_key", "x"),
        row("theme", "light"),
    ]);
    assert_eq!(s.username, "Léo");
    assert!(!s.emotion_driven);
    assert_eq!(s.tavily_usage_count, 12);
    assert_eq!(s.num_ctx, LLM_DEFAULT_NUM_CTX);
    assert_eq!(s.deepseek_model, AppSettings::default().deepseek_model, "blank model keeps the default");
    assert_eq!(s.theme, "light");
    let s = settings_from_rows(&vec![row("tavily_usage_count", "-3"), row("emotion_driven", "yes")]);
    assert_eq!(s.tavily_usage_count, 0);
    assert!(!s.emotion_driven);
}

#[test]
fn settings_written_read_back() {
    let mut s = AppSettings::default();
    s.username = "Léo".into();
    s.tavily_usage_count = 41;
    s.num_ctx = 32768;
    s.show_model_reasoning = true;
    s.persona_memory_enabled = false;
    s.deepseek_period_usage_json = "{\"discussions\":1}".into();
    let pairs = settings_pairs(&s);
    assert_eq!(pairs.len(), 32);
    let back = settings_from_rows(&pairs);
    assert_eq!(settings_pairs(&back), pairs);
    assert_eq!(back.username, "Léo");
    assert_eq!(back.tavily_usage_count, 41);
    assert_eq!(back.num_ctx, 32768);
    assert!(back.show_model_reasoning && !back.persona_memory_enabled);
}

#[test]
fn settings_read_back_in_any_order_among_other_keys() {
    let mut s = AppSettings::default();
    s.username = "Léo".into();
    s.theme = "light".into();
    s.tts_enabled = true;
    s.tavily_usage_count = 7;
    let mut rows = settings_pairs(&s);
    rows.reverse();
    rows.insert(5, row("license_key_hash", "abc"));
    rows.push(row("last_check_timestamp", "1700000000"));
    let back = settings_from_rows(&rows);
    assert_eq!(settings_pairs(&back), settings_pairs(&s));
}

#[test]
fn stale_user_save_keeps_server_owned_period_counters() {
    let mut current = AppSettings::default();
    current.deepseek_api_key = "sk-test".into();
    current.deepseek_period_start = "2026-09-01".into();
    current.deepseek_period_usage_json = "{\"discussions\":1}".into();
    current.deepseek_usage_history = "[{\"periodStart\":\"2026-08-01\"}]".into();
    let mut incoming = AppSettings::default();
    incoming.deepseek_api_key = "sk-test".into();
    incoming.theme = "light".into();
    let merged = merge_user_settings(current, incoming);
    let written = with_period_starts(merged, d(2026, 9, 16));
    assert_eq!(written.theme, "light", "user fields are written");
    assert_eq!(written.deepseek_period_usage_json, "{\"discussions\":1}");
    assert_eq!(written.deepseek_usage_history, "[{\"periodStart\":\"2026-08-01\"}]");
    assert_eq!(written.deepseek_period_start, "2026-09-01");
    let reset = reset_deepseek_usage(written);
    assert_eq!(reset.deepseek_period_usage_json, "{}");
    assert_eq!(reset.theme, "light");
}

#[test]
fn a_key_without_a_period_starts_one_today() {
    let mut s = AppSettings::default();
    s.tavily_api_key = "tvly".into();
    s.deepseek_api_key = "sk".into();
    let s = with_period_starts(s, d(2026, 9, 16));
    assert_eq!(s.tavily_period_start, "2026-09-16");
    assert_eq!(s.deepseek_period_start, "2026-09-16");
    let s = with_period_starts(AppSettings::default(), d(2026, 9, 16));
    assert_eq!(s.tavily_period_start, "");
    assert_eq!(s.deepseek_period_start, "");
}

#[test]
fn expired_periods_roll_over_once() {
    let today = d(2026, 9, 16);
    let mut s = AppSettings::default();
    s.tavily_api_key = "tvly".into();
    s.tavily_period_start = "2026-06-10".into();
    s.tavily_usage_count = 77;
    let reset = tavily_period_reset(&s, today).expect("three months later");
    assert_eq!(reset.expired_start, "2026-06-10");
    assert_eq!(reset.expired_end, "2026-07-10");
    assert_eq!(reset.new_start, "2026-09-10");
    let s = apply_tavily_reset(s, &reset, "[archived]".to_string());
    assert_eq!(s.tavily_usage_count, 0);
    assert_eq!(s.tavily_period_start, "2026-09-10");
    assert_eq!(s.tavily_usage_history, "[archived]");
    assert!(tavily_period_reset(&s, today).is_none(), "same day: nothing more to archive");

    let mut s = AppSettings::default();
    s.deepseek_api_key = "sk".into();
    s.deepseek_period_start = " 2026-08-16 ".into();
    s.deepseek_period_usage_json = "{\"discussions\":3}".into();
    let reset = deepseek_period_reset(&s, today).expect("boundary day");
    assert_eq!(reset.expired_end, "2026-09-16");
    assert_eq!(reset.new_start, "2026-09-16");
    let s = apply_deepseek_reset(s, &reset, "[h]".to_string());
    assert_eq!(s.deepseek_period_usage_json, "{}");
    assert!(deepseek_period_reset(&s, today).is_none());
}

#[test]
fn tavily_check_archives_the_expired_period() {
    let today = d(2026, 9, 16);
    let tavily = |start: &str, history: &str| {
        let mut s = AppSettings::default();
        s.username = "Léo".into();
        s.tavily_api_key = "tvly".into();
        s.tavily_period_start = start.into();
        s.tavily_usage_count = 77;
        s.tavily_usage_history = history.into();
        s
    };
    let old = "[{\"usageCount\":3, \"periodStart\":\"2026-05-10\",\"periodEnd\":\"2026-06-10\"}]";
    let n = tavily_period_check(tavily("2026-06-10", old), today).expect("expired");
    assert_eq!(n.tavily_period_start, "2026-09-10");
    assert_eq!(n.tavily_usage_count, 0);
    assert_eq!(
        n.tavily_usage_history,
        "[{\"periodEnd\":\"2026-06-10\",\"periodStart\":\"2026-05-10\",\"usageCount\":3},{\"periodEnd\":\"2026-07-10\",\"periodStart\":\"2026-06-10\",\"usageCount\":77}]"
    );
    assert_eq!(n.username, "Léo");
    assert!(tavily_period_check(n, today).is_none(), "same day: nothing more to archive");
    // An unreadable history starts over with the archived period alone
    let n = tavily_period_check(tavily("2026-06-10", "not json"), today).unwrap();
    assert_eq!(n.tavily_usage_history, "[{\"periodEnd\":\"2026-07-10\",\"periodStart\":\"2026-06-10\",\"usageCount\":77}]");
    assert!(tavily_period_check(tavily("2026-09-01", old), today).is_none(), "still running");
}

#[test]
fn history_strings_are_escaped() {
    let h = history_with_period("[]", "a\"b", "2026-07-10", 1);
    assert_eq!(h, "[{\"periodEnd\":\"2026-07-10\",\"periodStart\":\"a\\\"b\",\"usageCount\":1}]");
    let back: serde_json::Value = serde_json::from_str(&h).unwrap();
    assert_eq!(back[0]["periodStart"], "a\"b");
}

#[test]
fn no_rollover_without_key_start_or_expiry() {
    let today = d(2026, 9, 16);
    let mut s = AppSettings::default();
    s.tavily_period_start = "2026-01-01".into();
    assert!(tavily_period_reset(&s, today).is_none(), "no key");
    s.tavily_api_key = "tvly".into();
    s.tavily_period_start = "garbage".into();
    assert!(tavily_period_reset(&s, today).is_none(), "unreadable start");
    s.tavily_period_start = "2026-09-01".into();
    assert!(tavily_period_reset(&s, today).is_none(), "still running");
    let mut s = AppSettings::default();
    s.deepseek_period_start = "2026-01-01".into();
    assert!(deepseek_period_reset(&s, today).is_none(), "no key");
}

#[test]
fn license_counts_discussions_per_key() {
    let t = license_from_rows(&vec![]);
    assert_eq!((t.key_hash.as_str(), t.discussions_count, t.last_check_timestamp), ("", 0, 0));
    let rows = license_rows("abc", 4, 1_700_000_000);
    let t = license_from_rows(&rows);
    assert_eq!(t.key_hash, "abc");
    assert_eq!(t.discussions_count, 4);
    assert_eq!(t.last_check_timestamp, 1_700_000_000);
    assert_eq!(next_license_count(&t, "abc"), 5);
    assert_eq!(next_license_count(&t, "other"), 1);
    let t = license_from_rows(&vec![row("license_discussions_count", "x"), row("last_check_timestamp", "-12")]);
    assert_eq!(t.discussions_count, 0);
    assert_eq!(t.last_check_timestamp, -12);
    let r = last_check_row(-5);
    assert_eq!(r, row("last_check_timestamp", "-5"));
    let _ = LicenseTracking { key_hash: String::new(), discussions_count: 0, last_check_timestamp: 0 };
}
