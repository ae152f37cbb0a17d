//! Application settings as stored in the `settings` key/value table: reading
//! rows into settings, writing settings as rows, the user/server split of the
//! DeepSeek counters, and the monthly rollover of the usage counters.
//!
//! The volume and budget settings are floating-point numbers and are read and
//! written by the application shell, not here.
use vstd::prelude::*;

use crate::rolling_period::{
    date_before, date_of, format_period_date, in_last_month, month_after, parse_period_start,
    rollover, rollover_spec, ymd_parsed, ymd_text, Date, Rollover,
};
use crate::history::{history_appended, history_with_period};
use crate::text::{
    decimal, lemma_distinct_by_rank, lemma_u32_text_parses, parse_u32, parsed_u32, str_equal, text_lt,
    trim_str, trimmed, u32_text,
};

verus! {

/// Context size used when none (or an unreadable one) is stored.
pub const LLM_DEFAULT_NUM_CTX: u32 = 8192;

/// The settings the application persists (floating-point ones aside).
pub struct AppSettings {
    pub advanced_tuning_json: String,
    pub deepseek_api_key: String,
    pub deepseek_model: String,
    pub deepseek_period_start: String,
    pub deepseek_period_usage_json: String,
    pub deepseek_usage_history: String,
    pub embedding_model: String,
    pub emotion_driven: bool,
    pub language: String,
    pub license_key: String,
    pub llm_provider: String,
    pub num_ctx: u32,
    pub ollama_model: String,
    pub ollama_url: String,
    pub openai_compat_api_key: String,
    pub openai_compat_base_url: String,
    pub openai_compat_model: String,
    pub openai_compat_models: String,
    pub persona_memory_enabled: bool,
    pub reasoning_level: String,
    pub reasoning_pace: String,
    pub show_model_reasoning: bool,
    pub sound_enabled: bool,
    pub tavily_api_key: String,
    pub tavily_period_start: String,
    pub tavily_usage_count: u32,
    pub tavily_usage_history: String,
    pub theme: String,
    pub token_budget_priorities: String,
    pub tts_enabled: bool,
    pub tts_mode: String,
    pub username: String,
}

/// The abstract value of `AppSettings`: its strings as character sequences.
pub ghost struct SettingsModel {
    pub advanced_tuning_json: Seq<char>,
    pub deepseek_api_key: Seq<char>,
    pub deepseek_model: Seq<char>,
    pub deepseek_period_start: Seq<char>,
    pub deepseek_period_usage_json: Seq<char>,
    pub deepseek_usage_history: Seq<char>,
    pub embedding_model: Seq<char>,
    pub emotion_driven: bool,
    pub language: Seq<char>,
    pub license_key: Seq<char>,
    pub llm_provider: Seq<char>,
    pub num_ctx: u32,
    pub ollama_model: Seq<char>,
    pub ollama_url: Seq<char>,
    pub openai_compat_api_key: Seq<char>,
    pub openai_compat_base_url: Seq<char>,
    pub openai_compat_model: Seq<char>,
    pub openai_compat_models: Seq<char>,
    pub persona_memory_enabled: bool,
    pub reasoning_level: Seq<char>,
    pub reasoning_pace: Seq<char>,
    pub show_model_reasoning: bool,
    pub sound_enabled: bool,
    pub tavily_api_key: Seq<char>,
    pub tavily_period_start: Seq<char>,
    pub tavily_usage_count: u32,
    pub tavily_usage_history: Seq<char>,
    pub theme: Seq<char>,
    pub token_budget_priorities: Seq<char>,
    pub tts_enabled: bool,
    pub tts_mode: Seq<char>,
    pub username: Seq<char>,
}

impl View for AppSettings {
    type V = SettingsModel;

    open spec fn view(&self) -> SettingsModel {
        SettingsModel {
            advanced_tuning_json: self.advanced_tuning_json@,
            deepseek_api_key: self.deepseek_api_key@,
            deepseek_model: self.deepseek_model@,
            deepseek_period_start: self.deepseek_period_start@,
            deepseek_period_usage_json: self.deepseek_period_usage_json@,
            deepseek_usage_history: self.deepseek_usage_history@,
            embedding_model: self.embedding_model@,
            emotion_driven: self.emotion_driven,
            language: self.language@,
            license_key: self.license_key@,
            llm_provider: self.llm_provider@,
            num_ctx: self.num_ctx,
            ollama_model: self.ollama_model@,
            ollama_url: self.ollama_url@,
            openai_compat_api_key: self.openai_compat_api_key@,
            openai_compat_base_url: self.openai_compat_base_url@,
            openai_compat_model: self.openai_compat_model@,
            openai_compat_models: self.openai_compat_models@,
            persona_memory_enabled: self.persona_memory_enabled,
            reasoning_level: self.reasoning_level@,
            reasoning_pace: self.reasoning_pace@,
            show_model_reasoning: self.show_model_reasoning,
            sound_enabled: self.sound_enabled,
            tavily_api_key: self.tavily_api_key@,
            tavily_period_start: self.tavily_period_start@,
            tavily_usage_count: self.tavily_usage_count,
            tavily_usage_history: self.tavily_usage_history@,
            theme: self.theme@,
            token_budget_priorities: self.token_budget_priorities@,
            tts_enabled: self.tts_enabled,
            tts_mode: self.tts_mode@,
            username: self.username@,
        }
    }
}

/// An owned copy of a string slice.
pub fn owned(s: &str) -> (r: String)
    ensures
        r@ == s@,
{
    s.to_string()
}

/// The settings used before anything is stored.
pub open spec fn default_settings() -> SettingsModel {
    SettingsModel {
        advanced_tuning_json: "{}"@,
        deepseek_api_key: ""@,
        deepseek_model: "deepseek-chat"@,
        deepseek_period_start: ""@,
        deepseek_period_usage_json: ""@,
        deepseek_usage_history: ""@,
        embedding_model: ""@,
        emotion_driven: true,
        language: "fr"@,
        license_key: ""@,
        llm_provider: "ollama"@,
        num_ctx: LLM_DEFAULT_NUM_CTX,
        ollama_model: ""@,
        ollama_url: "http://localhost:11434"@,
        openai_compat_api_key: ""@,
        openai_compat_base_url: "http://localhost:1234/v1"@,
        openai_compat_model: ""@,
        openai_compat_models: ""@,
        persona_memory_enabled: true,
        reasoning_level: "medium"@,
        reasoning_pace: "normal"@,
        show_model_reasoning: false,
        sound_enabled: true,
        tavily_api_key: ""@,
        tavily_period_start: ""@,
        tavily_usage_count: 0,
        tavily_usage_history: ""@,
        theme: "dark"@,
        token_budget_priorities: ""@,
        tts_enabled: false,
        tts_mode: "off"@,
        username: ""@,
    }
}

impl Default for AppSettings {
    fn default() -> (r: Self)
        ensures
            r@ == default_settings(),
    {
        AppSettings {
            advanced_tuning_json: owned("{}"),
            deepseek_api_key: owned(""),
            deepseek_model: owned("deepseek-chat"),
            deepseek_period_start: owned(""),
            deepseek_period_usage_json: owned(""),
            deepseek_usage_history: owned(""),
            embedding_model: owned(""),
            emotion_driven: true,
            language: owned("fr"),
            license_key: owned(""),
            llm_provider: owned("ollama"),
            num_ctx: LLM_DEFAULT_NUM_CTX,
            ollama_model: owned(""),
            ollama_url: owned("http://localhost:11434"),
            openai_compat_api_key: owned(""),
            openai_compat_base_url: owned("http://localhost:1234/v1"),
            openai_compat_model: owned(""),
            openai_compat_models: owned(""),
            persona_memory_enabled: true,
            reasoning_level: owned("medium"),
            reasoning_pace: owned("normal"),
            show_model_reasoning: false,
            sound_enabled: true,
            tavily_api_key: owned(""),
            tavily_period_start: owned(""),
            tavily_usage_count: 0,
            tavily_usage_history: owned(""),
            theme: owned("dark"),
            token_budget_priorities: owned(""),
            tts_enabled: false,
            tts_mode: owned("off"),
            username: owned(""),
        }
    }
}

/// How a boolean setting is stored.
pub open spec fn bool_text(b: bool) -> Seq<char> {
    if b {
        "true"@
    } else {
        "false"@
    }
}

/// The stored text of a boolean.
pub fn bool_string(b: bool) -> (r: String)
    ensures
        r@ == bool_text(b),
{
    if b {
        owned("true")
    } else {
        owned("false")
    }
}

/// A stored count: its decimal value, 0 when unreadable.
pub open spec fn count_or(value: Seq<char>, fallback: u32) -> u32 {
    match parsed_u32(value) {
        Some(n) => n,
        None => fallback,
    }
}

/// Settings after reading one stored row `key = value`. Unknown keys change
/// nothing; a blank DeepSeek model, OpenAI-compatible base URL or advanced
/// tuning keeps the current value.
pub open spec fn applied(s: SettingsModel, key: Seq<char>, value: Seq<char>) -> SettingsModel {
    if key == "advanced_tuning_json"@ {
        if trimmed(value).len() > 0 { SettingsModel { advanced_tuning_json: value, ..s } } else { s }
    }
    else if key == "deepseek_api_key"@ {
        SettingsModel { deepseek_api_key: value, ..s }
    }
    else if key == "deepseek_model"@ {
        if trimmed(value).len() > 0 { SettingsModel { deepseek_model: value, ..s } } else { s }
    }
    else if key == "deepseek_period_start"@ {
        SettingsModel { deepseek_period_start: value, ..s }
    }
    else if key == "deepseek_period_usage_json"@ {
        SettingsModel { deepseek_period_usage_json: value, ..s }
    }
    else if key == "deepseek_usage_history"@ {
        SettingsModel { deepseek_usage_history: value, ..s }
    }
    else if key == "embedding_model"@ {
        SettingsModel { embedding_model: value, ..s }
    }
    else if key == "emotion_driven"@ {
        SettingsModel { emotion_driven: value == "true"@, ..s }
    }
    else if key == "language"@ {
        SettingsModel { language: value, ..s }
    }
    else if key == "license_key"@ {
        SettingsModel { license_key: value, ..s }
    }
    else if key == "llm_provider"@ {
        SettingsModel { llm_provider: value, ..s }
    }
    else if key == "num_ctx"@ {
        SettingsModel { num_ctx: count_or(value, LLM_DEFAULT_NUM_CTX), ..s }
    }
    else if key == "ollama_model"@ {
        SettingsModel { ollama_model: value, ..s }
    }
    else if key == "ollama_url"@ {
        SettingsModel { ollama_url: value, ..s }
    }
    else if key == "openai_compat_api_key"@ {
        SettingsModel { openai_compat_api_key: value, ..s }
    }
    else if key == "openai_compat_base_url"@ {
        if trimmed(value).len() > 0 { SettingsModel { openai_compat_base_url: value, ..s } } else { s }
    }
    else if key == "openai_compat_model"@ {
        SettingsModel { openai_compat_model: value, ..s }
    }
    else if key == "openai_compat_models"@ {
        SettingsModel { openai_compat_models: value, ..s }
    }
    else if key == "persona_memory_enabled"@ {
        SettingsModel { persona_memory_enabled: value == "true"@, ..s }
    }
    else if key == "reasoning_level"@ {
        SettingsModel { reasoning_level: value, ..s }
    }
    else if key == "reasoning_pace"@ {
        SettingsModel { reasoning_pace: value, ..s }
    }
    else if key == "show_model_reasoning"@ {
        SettingsModel { show_model_reasoning: value == "true"@, ..s }
    }
    else if key == "sound_enabled"@ {
        SettingsModel { sound_enabled: value == "true"@, ..s }
    }
    else if key == "tavily_api_key"@ {
        SettingsModel { tavily_api_key: value, ..s }
    }
    else if key == "tavily_period_start"@ {
        SettingsModel { tavily_period_start: value, ..s }
    }
    else if key == "tavily_usage_count"@ {
        SettingsModel { tavily_usage_count: count_or(value, 0), ..s }
    }
    else if key == "tavily_usage_history"@ {
        SettingsModel { tavily_usage_history: value, ..s }
    }
    else if key == "theme"@ {
        SettingsModel { theme: value, ..s }
    }
    else if key == "token_budget_priorities"@ {
        SettingsModel { token_budget_priorities: value, ..s }
    }
    else if key == "tts_enabled"@ {
        SettingsModel { tts_enabled: value == "true"@, ..s }
    }
    else if key == "tts_mode"@ {
        SettingsModel { tts_mode: value, ..s }
    }
    else if key == "username"@ {
        SettingsModel { username: value, ..s }
    }
    else {
        s
    }
}

/// Settings read from stored rows, in order, starting from the defaults.
pub open spec fn settings_read(rows: Seq<(Seq<char>, Seq<char>)>) -> SettingsModel
    decreases rows.len(),
{
    if rows.len() == 0 {
        default_settings()
    } else {
        let s = settings_read(rows.drop_last());
        applied(s, rows.last().0, rows.last().1)
    }
}

/// The views of stored rows.
pub open spec fn rows_view(rows: Seq<(String, String)>) -> Seq<(Seq<char>, Seq<char>)> {
    Seq::new(rows.len(), |i: int| (rows[i].0@, rows[i].1@))
}

impl AppSettings {
    /// Read one stored row `key = value` into the settings.
    pub fn apply_setting(&mut self, key: &str, value: String)
        ensures
            final(self)@ == applied(old(self)@, key@, value@),
    {
        if str_equal(key, "advanced_tuning_json") {
            if !trim_str(value.as_str()).as_str().is_empty() {
                self.advanced_tuning_json = value;
            }
        } else if str_equal(key, "deepseek_api_key") {
            self.deepseek_api_key = value;
        } else if str_equal(key, "deepseek_model") {
            if !trim_str(value.as_str()).as_str().is_empty() {
                self.deepseek_model = value;
            }
        } else if str_equal(key, "deepseek_period_start") {
            self.deepseek_period_start = value;
        } else if str_equal(key, "deepseek_period_usage_json") {
            self.deepseek_period_usage_json = value;
        } else if str_equal(key, "deepseek_usage_history") {
            self.deepseek_usage_history = value;
        } else if str_equal(key, "embedding_model") {
            self.embedding_model = value;
        } else if str_equal(key, "emotion_driven") {
            self.emotion_driven = str_equal(value.as_str(), "true");
        } else if str_equal(key, "language") {
            self.language = value;
        } else if str_equal(key, "license_key") {
            self.license_key = value;
        } else if str_equal(key, "llm_provider") {
            self.llm_provider = value;
        } else if str_equal(key, "num_ctx") {
            self.num_ctx = match parse_u32(value.as_str()) {
                Some(n) => n,
                None => LLM_DEFAULT_NUM_CTX,
            };
        } else if str_equal(key, "ollama_model") {
            self.ollama_model = value;
        } else if str_equal(key, "ollama_url") {
            self.ollama_url = value;
        } else if str_equal(key, "openai_compat_api_key") {
            self.openai_compat_api_key = value;
        } else if str_equal(key, "openai_compat_base_url") {
            if !trim_str(value.as_str()).as_str().is_empty() {
                self.openai_compat_base_url = value;
            }
        } else if str_equal(key, "openai_compat_model") {
            self.openai_compat_model = value;
        } else if str_equal(key, "openai_compat_models") {
            self.openai_compat_models = value;
        } else if str_equal(key, "persona_memory_enabled") {
            self.persona_memory_enabled = str_equal(value.as_str(), "true");
        } else if str_equal(key, "reasoning_level") {
            self.reasoning_level = value;
        } else if str_equal(key, "reasoning_pace") {
            self.reasoning_pace = value;
        } else if str_equal(key, "show_model_reasoning") {
            self.show_model_reasoning = str_equal(value.as_str(), "true");
        } else if str_equal(key, "sound_enabled") {
            self.sound_enabled = str_equal(value.as_str(), "true");
        } else if str_equal(key, "tavily_api_key") {
            self.tavily_api_key = value;
        } else if str_equal(key, "tavily_period_start") {
            self.tavily_period_start = value;
        } else if str_equal(key, "tavily_usage_count") {
            self.tavily_usage_count = match parse_u32(value.as_str()) {
                Some(n) => n,
                None => 0,
            };
        } else if str_equal(key, "tavily_usage_history") {
            self.tavily_usage_history = value;
        } else if str_equal(key, "theme") {
            self.theme = value;
        } else if str_equal(key, "token_budget_priorities") {
            self.token_budget_priorities = value;
        } else if str_equal(key, "tts_enabled") {
            self.tts_enabled = str_equal(value.as_str(), "true");
        } else if str_equal(key, "tts_mode") {
            self.tts_mode = value;
        } else if str_equal(key, "username") {
            self.username = value;
        }
    }
}

/// Settings from the rows of the `settings` table, read in order over the defaults.
pub fn settings_from_rows(rows: &Vec<(String, String)>) -> (r: AppSettings)
    ensures
        r@ == settings_read(rows_view(rows@)),
{
    let mut s = AppSettings::default();
    let mut i: usize = 0;
    while i < rows.len()
        invariant
            i <= rows.len(),
            s@ == settings_read(rows_view(rows@).take(i as int)),
        decreases rows.len() - i,
    {
        proof {
            let rv = rows_view(rows@);
            assert(rv.take(i + 1).drop_last() =~= rv.take(i as int));
            assert(rv.take(i + 1).last() == (rows@[i as int].0@, rows@[i as int].1@));
        }
        s.apply_setting(rows[i].0.as_str(), rows[i].1.clone());
        i += 1;
    }
    proof {
        assert(rows_view(rows@).take(rows.len() as int) =~= rows_view(rows@));
    }
    s
}

/// The rows written for a settings value, in order.
pub open spec fn settings_rows(s: SettingsModel) -> Seq<(Seq<char>, Seq<char>)> {
    seq![
        ("advanced_tuning_json"@, s.advanced_tuning_json),
        ("deepseek_api_key"@, s.deepseek_api_key),
        ("deepseek_model"@, s.deepseek_model),
        ("deepseek_period_start"@, s.deepseek_period_start),
        ("deepseek_period_usage_json"@, s.deepseek_period_usage_json),
        ("deepseek_usage_history"@, s.deepseek_usage_history),
        ("embedding_model"@, s.embedding_model),
        ("emotion_driven"@, bool_text(s.emotion_driven)),
        ("language"@, s.language),
        ("license_key"@, s.license_key),
        ("llm_provider"@, s.llm_provider),
        ("num_ctx"@, decimal(s.num_ctx as nat)),
        ("ollama_model"@, s.ollama_model),
        ("ollama_url"@, s.ollama_url),
        ("openai_compat_api_key"@, s.openai_compat_api_key),
        ("openai_compat_base_url"@, s.openai_compat_base_url),
        ("openai_compat_model"@, s.openai_compat_model),
        ("openai_compat_models"@, s.openai_compat_models),
        ("persona_memory_enabled"@, bool_text(s.persona_memory_enabled)),
        ("reasoning_level"@, s.reasoning_level),
        ("reasoning_pace"@, s.reasoning_pace),
        ("show_model_reasoning"@, bool_text(s.show_model_reasoning)),
        ("sound_enabled"@, bool_text(s.sound_enabled)),
        ("tavily_api_key"@, s.tavily_api_key),
        ("tavily_period_start"@, s.tavily_period_start),
        ("tavily_usage_count"@, decimal(s.tavily_usage_count as nat)),
        ("tavily_usage_history"@, s.tavily_usage_history),
        ("theme"@, s.theme),
        ("token_budget_priorities"@, s.token_budget_priorities),
        ("tts_enabled"@, bool_text(s.tts_enabled)),
        ("tts_mode"@, s.tts_mode),
        ("username"@, s.username),
    ]
}

/// A `(key, value)` row.
fn row(key: &str, value: String) -> (r: (String, String))
    ensures
        r.0@ == key@,
        r.1@ == value@,
{
    (owned(key), value)
}

/// The rows persisting `s` (every setting, server-owned counters included).
pub fn settings_pairs(s: &AppSettings) -> (r: Vec<(String, String)>)
    ensures
        rows_view(r@) == settings_rows(s@),
{
    let mut v: Vec<(String, String)> = Vec::new();
    v.push(row("advanced_tuning_json", s.advanced_tuning_json.clone()));
    v.push(row("deepseek_api_key", s.deepseek_api_key.clone()));
    v.push(row("deepseek_model", s.deepseek_model.clone()));
    v.push(row("deepseek_period_start", s.deepseek_period_start.clone()));
    v.push(row("deepseek_period_usage_json", s.deepseek_period_usage_json.clone()));
    v.push(row("deepseek_usage_history", s.deepseek_usage_history.clone()));
    v.push(row("embedding_model", s.embedding_model.clone()));
    v.push(row("emotion_driven", bool_string(s.emotion_driven)));
    v.push(row("language", s.language.clone()));
    v.push(row("license_key", s.license_key.clone()));
    v.push(row("llm_provider", s.llm_provider.clone()));
    v.push(row("num_ctx", u32_text(s.num_ctx)));
    v.push(row("ollama_model", s.ollama_model.clone()));
    v.push(row("ollama_url", s.ollama_url.clone()));
    v.push(row("openai_compat_api_key", s.openai_compat_api_key.clone()));
    v.push(row("openai_compat_base_url", s.openai_compat_base_url.clone()));
    v.push(row("openai_compat_model", s.openai_compat_model.clone()));
    v.push(row("openai_compat_models", s.openai_compat_models.clone()));
    v.push(row("persona_memory_enabled", bool_string(s.persona_memory_enabled)));
    v.push(row("reasoning_level", s.reasoning_level.clone()));
    v.push(row("reasoning_pace", s.reasoning_pace.clone()));
    v.push(row("show_model_reasoning", bool_string(s.show_model_reasoning)));
    v.push(row("sound_enabled", bool_string(s.sound_enabled)));
    v.push(row("tavily_api_key", s.tavily_api_key.clone()));
    v.push(row("tavily_period_start", s.tavily_period_start.clone()));
    v.push(row("tavily_usage_count", u32_text(s.tavily_usage_count)));
    v.push(row("tavily_usage_history", s.tavily_usage_history.clone()));
    v.push(row("theme", s.theme.clone()));
    v.push(row("token_budget_priorities", s.token_budget_priorities.clone()));
    v.push(row("tts_enabled", bool_string(s.tts_enabled)));
    v.push(row("tts_mode", s.tts_mode.clone()));
    v.push(row("username", s.username.clone()));
    proof {
        assert(rows_view(v@) =~= settings_rows(s@));
    }
    v
}


/// What reading back written settings gives: the settings themselves, except
/// that a blank DeepSeek model, OpenAI-compatible base URL or advanced tuning
/// reads back as its default.
pub open spec fn read_back(s: SettingsModel) -> SettingsModel {
    SettingsModel {
        deepseek_model: if trimmed(s.deepseek_model).len() > 0 {
            s.deepseek_model
        } else {
            default_settings().deepseek_model
        },
        openai_compat_base_url: if trimmed(s.openai_compat_base_url).len() > 0 {
            s.openai_compat_base_url
        } else {
            default_settings().openai_compat_base_url
        },
        advanced_tuning_json: if trimmed(s.advanced_tuning_json).len() > 0 {
            s.advanced_tuning_json
        } else {
            default_settings().advanced_tuning_json
        },
        ..s
    }
}

/// The key of setting `f` (`0 <= f < 32`), in the order the rows are written.
pub open spec fn setting_key(f: int) -> Seq<char> {
    settings_rows(default_settings())[f].0
}

/// Every settings value is written as 32 rows, row `f` under `setting_key(f)`.
proof fn lemma_setting_keys(s: SettingsModel)
    ensures
        settings_rows(s).len() == 32,
        forall|f: int| 0 <= f < 32 ==> #[trigger] settings_rows(s)[f].0 == setting_key(f),
        setting_key(0) == "advanced_tuning_json"@,
        setting_key(1) == "deepseek_api_key"@,
        setting_key(2) == "deepseek_model"@,
        setting_key(3) == "deepseek_period_start"@,
        setting_key(4) == "deepseek_period_usage_json"@,
        setting_key(5) == "deepseek_usage_history"@,
        setting_key(6) == "embedding_model"@,
        setting_key(7) == "emotion_driven"@,
        setting_key(8) == "language"@,
        setting_key(9) == "license_key"@,
        setting_key(10) == "llm_provider"@,
        setting_key(11) == "num_ctx"@,
        setting_key(12) == "ollama_model"@,
        setting_key(13) == "ollama_url"@,
        setting_key(14) == "openai_compat_api_key"@,
        setting_key(15) == "openai_compat_base_url"@,
        setting_key(16) == "openai_compat_model"@,
        setting_key(17) == "openai_compat_models"@,
        setting_key(18) == "persona_memory_enabled"@,
        setting_key(19) == "reasoning_level"@,
        setting_key(20) == "reasoning_pace"@,
        setting_key(21) == "show_model_reasoning"@,
        setting_key(22) == "sound_enabled"@,
        setting_key(23) == "tavily_api_key"@,
        setting_key(24) == "tavily_period_start"@,
        setting_key(25) == "tavily_usage_count"@,
        setting_key(26) == "tavily_usage_history"@,
        setting_key(27) == "theme"@,
        setting_key(28) == "token_budget_priorities"@,
        setting_key(29) == "tts_enabled"@,
        setting_key(30) == "tts_mode"@,
        setting_key(31) == "username"@,
{
    assert forall|f: int| 0 <= f < 32 implies #[trigger] settings_rows(s)[f].0 == setting_key(f) by {
        if f == 0 {
            assert(settings_rows(s)[0].0 == "advanced_tuning_json"@);
        } else if f == 1 {
            assert(settings_rows(s)[1].0 == "deepseek_api_key"@);
        } else if f == 2 {
            assert(settings_rows(s)[2].0 == "deepseek_model"@);
        } else if f == 3 {
            assert(settings_rows(s)[3].0 == "deepseek_period_start"@);
        } else if f == 4 {
            assert(settings_rows(s)[4].0 == "deepseek_period_usage_json"@);
        } else if f == 5 {
            assert(settings_rows(s)[5].0 == "deepseek_usage_history"@);
        } else if f == 6 {
            assert(settings_rows(s)[6].0 == "embedding_model"@);
        } else if f == 7 {
            assert(settings_rows(s)[7].0 == "emotion_driven"@);
        } else if f == 8 {
            assert(settings_rows(s)[8].0 == "language"@);
        } else if f == 9 {
            assert(settings_rows(s)[9].0 == "license_key"@);
        } else if f == 10 {
            assert(settings_rows(s)[10].0 == "llm_provider"@);
        } else if f == 11 {
            assert(settings_rows(s)[11].0 == "num_ctx"@);
        } else if f == 12 {
            assert(settings_rows(s)[12].0 == "ollama_model"@);
        } else if f == 13 {
            assert(settings_rows(s)[13].0 == "ollama_url"@);
        } else if f == 14 {
            assert(settings_rows(s)[14].0 == "openai_compat_api_key"@);
        } else if f == 15 {
            assert(settings_rows(s)[15].0 == "openai_compat_base_url"@);
        } else if f == 16 {
            assert(settings_rows(s)[16].0 == "openai_compat_model"@);
        } else if f == 17 {
            assert(settings_rows(s)[17].0 == "openai_compat_models"@);
        } else if f == 18 {
            assert(settings_rows(s)[18].0 == "persona_memory_enabled"@);
        } else if f == 19 {
            assert(settings_rows(s)[19].0 == "reasoning_level"@);
        } else if f == 20 {
            assert(settings_rows(s)[20].0 == "reasoning_pace"@);
        } else if f == 21 {
            assert(settings_rows(s)[21].0 == "show_model_reasoning"@);
        } else if f == 22 {
            assert(settings_rows(s)[22].0 == "sound_enabled"@);
        } else if f == 23 {
            assert(settings_rows(s)[23].0 == "tavily_api_key"@);
        } else if f == 24 {
            assert(settings_rows(s)[24].0 == "tavily_period_start"@);
        } else if f == 25 {
            assert(settings_rows(s)[25].0 == "tavily_usage_count"@);
        } else if f == 26 {
            assert(settings_rows(s)[26].0 == "tavily_usage_history"@);
        } else if f == 27 {
            assert(settings_rows(s)[27].0 == "theme"@);
        } else if f == 28 {
            assert(settings_rows(s)[28].0 == "token_budget_priorities"@);
        } else if f == 29 {
            assert(settings_rows(s)[29].0 == "tts_enabled"@);
        } else if f == 30 {
            assert(settings_rows(s)[30].0 == "tts_mode"@);
        } else if f == 31 {
            assert(settings_rows(s)[31].0 == "username"@);
        }
    }
}

/// The setting keys are pairwise distinct (they are written in increasing order).
#[verifier::rlimit(50)]
#[verifier::spinoff_prover]
proof fn lemma_setting_keys_distinct()
    ensures
        forall|f: int, g: int| 0 <= f < g < 32 ==> #[trigger] setting_key(f) != #[trigger] setting_key(g),
{
    lemma_setting_keys(default_settings());
    reveal_with_fuel(text_lt, 21);
    let ids = |i: int| setting_key(i);
    let order = |i: int| i;
    assert forall|k: int| 0 <= k < 32 - 1 implies text_lt(#[trigger] ids(order(k)), ids(order(k + 1))) by {
        if k == 0 {
            reveal_strlit("advanced_tuning_json");
            reveal_strlit("deepseek_api_key");
        } else if k == 1 {
            reveal_strlit("deepseek_api_key");
            reveal_strlit("deepseek_model");
        } else if k == 2 {
            reveal_strlit("deepseek_model");
            reveal_strlit("deepseek_period_start");
        } else if k == 3 {
            reveal_strlit("deepseek_period_start");
            reveal_strlit("deepseek_period_usage_json");
        } else if k == 4 {
            reveal_strlit("deepseek_period_usage_json");
            reveal_strlit("deepseek_usage_history");
        } else if k == 5 {
            reveal_strlit("deepseek_usage_history");
            reveal_strlit("embedding_model");
        } else if k == 6 {
            reveal_strlit("embedding_model");
            reveal_strlit("emotion_driven");
        } else if k == 7 {
            reveal_strlit("emotion_driven");
            reveal_strlit("language");
        } else if k == 8 {
            reveal_strlit("language");
            reveal_strlit("license_key");
        } else if k == 9 {
            reveal_strlit("license_key");
            reveal_strlit("llm_provider");
        } else if k == 10 {
            reveal_strlit("llm_provider");
            reveal_strlit("num_ctx");
        } else if k == 11 {
            reveal_strlit("num_ctx");
            reveal_strlit("ollama_model");
        } else if k == 12 {
            reveal_strlit("ollama_model");
            reveal_strlit("ollama_url");
        } else if k == 13 {
            reveal_strlit("ollama_url");
            reveal_strlit("openai_compat_api_key");
        } else if k == 14 {
            reveal_strlit("openai_compat_api_key");
            reveal_strlit("openai_compat_base_url");
        } else if k == 15 {
            reveal_strlit("openai_compat_base_url");
            reveal_strlit("openai_compat_model");
        } else if k == 16 {
            reveal_strlit("openai_compat_model");
            reveal_strlit("openai_compat_models");
        } else if k == 17 {
            reveal_strlit("openai_compat_models");
            reveal_strlit("persona_memory_enabled");
        } else if k == 18 {
            reveal_strlit("persona_memory_enabled");
            reveal_strlit("reasoning_level");
        } else if k == 19 {
            reveal_strlit("reasoning_level");
            reveal_strlit("reasoning_pace");
        } else if k == 20 {
            reveal_strlit("reasoning_pace");
            reveal_strlit("show_model_reasoning");
        } else if k == 21 {
            reveal_strlit("show_model_reasoning");
            reveal_strlit("sound_enabled");
        } else if k == 22 {
            reveal_strlit("sound_enabled");
            reveal_strlit("tavily_api_key");
        } else if k == 23 {
            reveal_strlit("tavily_api_key");
            reveal_strlit("tavily_period_start");
        } else if k == 24 {
            reveal_strlit("tavily_period_start");
            reveal_strlit("tavily_usage_count");
        } else if k == 25 {
            reveal_strlit("tavily_usage_count");
            reveal_strlit("tavily_usage_history");
        } else if k == 26 {
            reveal_strlit("tavily_usage_history");
            reveal_strlit("theme");
        } else if k == 27 {
            reveal_strlit("theme");
            reveal_strlit("token_budget_priorities");
        } else if k == 28 {
            reveal_strlit("token_budget_priorities");
            reveal_strlit("tts_enabled");
        } else if k == 29 {
            reveal_strlit("tts_enabled");
            reveal_strlit("tts_mode");
        } else if k == 30 {
            reveal_strlit("tts_mode");
            reveal_strlit("username");
        }
    }
    lemma_distinct_by_rank(32, ids, order, order);
    assert forall|f: int, g: int| 0 <= f < g < 32 implies #[trigger] setting_key(f) != #[trigger] setting_key(g) by {
        assert(ids(f) != ids(g));
    }
}

/// The stored text of a boolean reads back as that boolean.
proof fn lemma_bool_text(b: bool)
    ensures
        (bool_text(b) == "true"@) == b,
{
    reveal_strlit("true");
    reveal_strlit("false");
    assert("false"@.len() != "true"@.len());
}

/// Settings read from the rows of `s` so far: the settings in `done` as `s`
/// reads back, the others at their defaults.
pub open spec fn partly_read(s: SettingsModel, done: Set<int>) -> SettingsModel {
    SettingsModel {
        advanced_tuning_json: if done.contains(0) { read_back(s).advanced_tuning_json } else { default_settings().advanced_tuning_json },
        deepseek_api_key: if done.contains(1) { read_back(s).deepseek_api_key } else { default_settings().deepseek_api_key },
        deepseek_model: if done.contains(2) { read_back(s).deepseek_model } else { default_settings().deepseek_model },
        deepseek_period_start: if done.contains(3) { read_back(s).deepseek_period_start } else { default_settings().deepseek_period_start },
        deepseek_period_usage_json: if done.contains(4) { read_back(s).deepseek_period_usage_json } else { default_settings().deepseek_period_usage_json },
        deepseek_usage_history: if done.contains(5) { read_back(s).deepseek_usage_history } else { default_settings().deepseek_usage_history },
        embedding_model: if done.contains(6) { read_back(s).embedding_model } else { default_settings().embedding_model },
        emotion_driven: if done.contains(7) { read_back(s).emotion_driven } else { default_settings().emotion_driven },
        language: if done.contains(8) { read_back(s).language } else { default_settings().language },
        license_key: if done.contains(9) { read_back(s).license_key } else { default_settings().license_key },
        llm_provider: if done.contains(10) { read_back(s).llm_provider } else { default_settings().llm_provider },
        num_ctx: if done.contains(11) { read_back(s).num_ctx } else { default_settings().num_ctx },
        ollama_model: if done.contains(12) { read_back(s).ollama_model } else { default_settings().ollama_model },
        ollama_url: if done.contains(13) { read_back(s).ollama_url } else { default_settings().ollama_url },
        openai_compat_api_key: if done.contains(14) { read_back(s).openai_compat_api_key } else { default_settings().openai_compat_api_key },
        openai_compat_base_url: if done.contains(15) { read_back(s).openai_compat_base_url } else { default_settings().openai_compat_base_url },
        openai_compat_model: if done.contains(16) { read_back(s).openai_compat_model } else { default_settings().openai_compat_model },
        openai_compat_models: if done.contains(17) { read_back(s).openai_compat_models } else { default_settings().openai_compat_models },
        persona_memory_enabled: if done.contains(18) { read_back(s).persona_memory_enabled } else { default_settings().persona_memory_enabled },
        reasoning_level: if done.contains(19) { read_back(s).reasoning_level } else { default_settings().reasoning_level },
        reasoning_pace: if done.contains(20) { read_back(s).reasoning_pace } else { default_settings().reasoning_pace },
        show_model_reasoning: if done.contains(21) { read_back(s).show_model_reasoning } else { default_settings().show_model_reasoning },
        sound_enabled: if done.contains(22) { read_back(s).sound_enabled } else { default_settings().sound_enabled },
        tavily_api_key: if done.contains(23) { read_back(s).tavily_api_key } else { default_settings().tavily_api_key },
        tavily_period_start: if done.contains(24) { read_back(s).tavily_period_start } else { default_settings().tavily_period_start },
        tavily_usage_count: if done.contains(25) { read_back(s).tavily_usage_count } else { default_settings().tavily_usage_count },
        tavily_usage_history: if done.contains(26) { read_back(s).tavily_usage_history } else { default_settings().tavily_usage_history },
        theme: if done.contains(27) { read_back(s).theme } else { default_settings().theme },
        token_budget_priorities: if done.contains(28) { read_back(s).token_budget_priorities } else { default_settings().token_budget_priorities },
        tts_enabled: if done.contains(29) { read_back(s).tts_enabled } else { default_settings().tts_enabled },
        tts_mode: if done.contains(30) { read_back(s).tts_mode } else { default_settings().tts_mode },
        username: if done.contains(31) { read_back(s).username } else { default_settings().username },
    }
}

/// Reading the `advanced_tuning_json` row of `s` marks it as read.
#[verifier::spinoff_prover]
proof fn lemma_read_setting_0(s: SettingsModel, done: Set<int>)
    requires
        !done.contains(0),
    ensures
        applied(partly_read(s, done), setting_key(0), settings_rows(s)[0].1) == partly_read(s, done.insert(0)),
{
    lemma_setting_keys(s);
    lemma_setting_keys_distinct();
    assert(partly_read(s, done.insert(0)) == SettingsModel { advanced_tuning_json: read_back(s).advanced_tuning_json, ..partly_read(s, done) });
}

/// Reading the `deepseek_api_key` row of `s` marks it as read.
#[verifier::spinoff_prover]
proof fn lemma_read_setting_1(s: SettingsModel, done: Set<int>)
    requires
        !done.contains(1),
    ensures
        applied(partly_read(s, done), setting_key(1), settings_rows(s)[1].1) == partly_read(s, done.insert(1)),
{
    lemma_setting_keys(s);
    lemma_setting_keys_distinct();
    assert(partly_read(s, done.insert(1)) == SettingsModel { deepseek_api_key: read_back(s).deepseek_api_key, ..partly_read(s, done) });
}

/// Reading the `deepseek_model` row of `s` marks it as read.
#[verifier::spinoff_prover]
proof fn lemma_read_setting_2(s: SettingsModel, done: Set<int>)
    requires
        !done.contains(2),
    ensures
        applied(partly_read(s, done), setting_key(2), settings_rows(s)[2].1) == partly_read(s, done.insert(2)),
{
    lemma_setting_keys(s);
    lemma_setting_keys_distinct();
    assert(partly_read(s, done.insert(2)) == SettingsModel { deepseek_model: read_back(s).deepseek_model, ..partly_read(s, done) });
}

/// Reading the `deepseek_period_start` row of `s` marks it as read.
#[verifier::spinoff_prover]
proof fn lemma_read_setting_3(s: SettingsModel, done: Set<int>)
    requires
        !done.contains(3),
    ensures
        applied(partly_read(s, done), setting_key(3), settings_rows(s)[3].1) == partly_read(s, done.insert(3)),
{
    lemma_setting_keys(s);
    lemma_setting_keys_distinct();
    assert(partly_read(s, done.insert(3)) == SettingsModel { deepseek_period_start: read_back(s).deepseek_period_start, ..partly_read(s, done) });
}

/// Reading the `deepseek_period_usage_json` row of `s` marks it as read.
#[verifier::spinoff_prover]
proof fn lemma_read_setting_4(s: SettingsModel, done: Set<int>)
    requires
        !done.contains(4),
    ensures
        applied(partly_read(s, done), setting_key(4), settings_rows(s)[4].1) == partly_read(s, done.insert(4)),
{
    lemma_setting_keys(s);
    lemma_setting_keys_distinct();
    assert(partly_read(s, done.insert(4)) == SettingsModel { deepseek_period_usage_json: read_back(s).deepseek_period_usage_json, ..partly_read(s, done) });
}

/// Reading the `deepseek_usage_history` row of `s` marks it as read.
#[verifier::spinoff_prover]
proof fn lemma_read_setting_5(s: SettingsModel, done: Set<int>)
    requires
        !done.contains(5),
    ensures
        applied(partly_read(s, done), setting_key(5), settings_rows(s)[5].1) == partly_read(s, done.insert(5)),
{
    lemma_setting_keys(s);
    lemma_setting_keys_distinct();
    assert(partly_read(s, done.insert(5)) == SettingsModel { deepseek_usage_history: read_back(s).deepseek_usage_history, ..partly_read(s, done) });
}

/// Reading the `embedding_model` row of `s` marks it as read.
#[verifier::spinoff_prover]
proof fn lemma_read_setting_6(s: SettingsModel, done: Set<int>)
    requires
        !done.contains(6),
    ensures
        applied(partly_read(s, done), setting_key(6), settings_rows(s)[6].1) == partly_read(s, done.insert(6)),
{
    lemma_setting_keys(s);
    lemma_setting_keys_distinct();
    assert(partly_read(s, done.insert(6)) == SettingsModel { embedding_model: read_back(s).embedding_model, ..partly_read(s, done) });
}

/// Reading the `emotion_driven` row of `s` marks it as read.
#[verifier::spinoff_prover]
proof fn lemma_read_setting_7(s: SettingsModel, done: Set<int>)
    requires
        !done.contains(7),
    ensures
        applied(partly_read(s, done), setting_key(7), settings_rows(s)[7].1) == partly_read(s, done.insert(7)),
{
    lemma_setting_keys(s);
    lemma_setting_keys_distinct();
    lemma_bool_text(s.emotion_driven);
    assert(partly_read(s, done.insert(7)) == SettingsModel { emotion_driven: read_back(s).emotion_driven, ..partly_read(s, done) });
}

/// Reading the `language` row of `s` marks it as read.
#[verifier::spinoff_prover]
proof fn lemma_read_setting_8(s: SettingsModel, done: Set<int>)
    requires
        !done.contains(8),
    ensures
        applied(partly_read(s, done), setting_key(8), settings_rows(s)[8].1) == partly_read(s, done.insert(8)),
{
    lemma_setting_keys(s);
    lemma_setting_keys_distinct();
    assert(partly_read(s, done.insert(8)) == SettingsModel { language: read_back(s).language, ..partly_read(s, done) });
}

/// Reading the `license_key` row of `s` marks it as read.
#[verifier::spinoff_prover]
proof fn lemma_read_setting_9(s: SettingsModel, done: Set<int>)
    requires
        !done.contains(9),
    ensures
        applied(partly_read(s, done), setting_key(9), settings_rows(s)[9].1) == partly_read(s, done.insert(9)),
{
    lemma_setting_keys(s);
    lemma_setting_keys_distinct();
    assert(partly_read(s, done.insert(9)) == SettingsModel { license_key: read_back(s).license_key, ..partly_read(s, done) });
}

/// Reading the `llm_provider` row of `s` marks it as read.
#[verifier::spinoff_prover]
proof fn lemma_read_setting_10(s: SettingsModel, done: Set<int>)
    requires
        !done.contains(10),
    ensures
        applied(partly_read(s, done), setting_key(10), settings_rows(s)[10].1) == partly_read(s, done.insert(10)),
{
    lemma_setting_keys(s);
    lemma_setting_keys_distinct();
    assert(partly_read(s, done.insert(10)) == SettingsModel { llm_provider: read_back(s).llm_provider, ..partly_read(s, done) });
}

/// Reading the `num_ctx` row of `s` marks it as read.
#[verifier::spinoff_prover]
proof fn lemma_read_setting_11(s: SettingsModel, done: Set<int>)
    requires
        !done.contains(11),
    ensures
        applied(partly_read(s, done), setting_key(11), settings_rows(s)[11].1) == partly_read(s, done.insert(11)),
{
    lemma_setting_keys(s);
    lemma_setting_keys_distinct();
    lemma_u32_text_parses(s.num_ctx);
    assert(partly_read(s, done.insert(11)) == SettingsModel { num_ctx: read_back(s).num_ctx, ..partly_read(s, done) });
}

/// Reading the `ollama_model` row of `s` marks it as read.
#[verifier::spinoff_prover]
proof fn lemma_read_setting_12(s: SettingsModel, done: Set<int>)
    requires
        !done.contains(12),
    ensures
        applied(partly_read(s, done), setting_key(12), settings_rows(s)[12].1) == partly_read(s, done.insert(12)),
{
    lemma_setting_keys(s);
    lemma_setting_keys_distinct();
    assert(partly_read(s, done.insert(12)) == SettingsModel { ollama_model: read_back(s).ollama_model, ..partly_read(s, done) });
}

/// Reading the `ollama_url` row of `s` marks it as read.
#[verifier::spinoff_prover]
proof fn lemma_read_setting_13(s: SettingsModel, done: Set<int>)
    requires
        !done.contains(13),
    ensures
        applied(partly_read(s, done), setting_key(13), settings_rows(s)[13].1) == partly_read(s, done.insert(13)),
{
    lemma_setting_keys(s);
    lemma_setting_keys_distinct();
    assert(partly_read(s, done.insert(13)) == SettingsModel { ollama_url: read_back(s).ollama_url, ..partly_read(s, done) });
}

/// Reading the `openai_compat_api_key` row of `s` marks it as read.
#[verifier::spinoff_prover]
proof fn lemma_read_setting_14(s: SettingsModel, done: Set<int>)
    requires
        !done.contains(14),
    ensures
        applied(partly_read(s, done), setting_key(14), settings_rows(s)[14].1) == partly_read(s, done.insert(14)),
{
    lemma_setting_keys(s);
    lemma_setting_keys_distinct();
    assert(partly_read(s, done.insert(14)) == SettingsModel { openai_compat_api_key: read_back(s).openai_compat_api_key, ..partly_read(s, done) });
}

/// Reading the `openai_compat_base_url` row of `s` marks it as read.
#[verifier::spinoff_prover]
proof fn lemma_read_setting_15(s: SettingsModel, done: Set<int>)
    requires
        !done.contains(15),
    ensures
        applied(partly_read(s, done), setting_key(15), settings_rows(s)[15].1) == partly_read(s, done.insert(15)),
{
    lemma_setting_keys(s);
    lemma_setting_keys_distinct();
    assert(partly_read(s, done.insert(15)) == SettingsModel { openai_compat_base_url: read_back(s).openai_compat_base_url, ..partly_read(s, done) });
}

/// Reading the `openai_compat_model` row of `s` marks it as read.
#[verifier::spinoff_prover]
proof fn lemma_read_setting_16(s: SettingsModel, done: Set<int>)
    requires
        !done.contains(16),
    ensures
        applied(partly_read(s, done), setting_key(16), settings_rows(s)[16].1) == partly_read(s, done.insert(16)),
{
    lemma_setting_keys(s);
    lemma_setting_keys_distinct();
    assert(partly_read(s, done.insert(16)) == SettingsModel { openai_compat_model: read_back(s).openai_compat_model, ..partly_read(s, done) });
}

/// Reading the `openai_compat_models` row of `s` marks it as read.
#[verifier::spinoff_prover]
proof fn lemma_read_setting_17(s: SettingsModel, done: Set<int>)
    requires
        !done.contains(17),
    ensures
        applied(partly_read(s, done), setting_key(17), settings_rows(s)[17].1) == partly_read(s, done.insert(17)),
{
    lemma_setting_keys(s);
    lemma_setting_keys_distinct();
    assert(partly_read(s, done.insert(17)) == SettingsModel { openai_compat_models: read_back(s).openai_compat_models, ..partly_read(s, done) });
}

/// Reading the `persona_memory_enabled` row of `s` marks it as read.
#[verifier::spinoff_prover]
proof fn lemma_read_setting_18(s: SettingsModel, done: Set<int>)
    requires
        !done.contains(18),
    ensures
        applied(partly_read(s, done), setting_key(18), settings_rows(s)[18].1) == partly_read(s, done.insert(18)),
{
    lemma_setting_keys(s);
    lemma_setting_keys_distinct();
    lemma_bool_text(s.persona_memory_enabled);
    assert(partly_read(s, done.insert(18)) == SettingsModel { persona_memory_enabled: read_back(s).persona_memory_enabled, ..partly_read(s, done) });
}

/// Reading the `reasoning_level` row of `s` marks it as read.
#[verifier::spinoff_prover]
proof fn lemma_read_setting_19(s: SettingsModel, done: Set<int>)
    requires
        !done.contains(19),
    ensures
        applied(partly_read(s, done), setting_key(19), settings_rows(s)[19].1) == partly_read(s, done.insert(19)),
{
    lemma_setting_keys(s);
    lemma_setting_keys_distinct();
    assert(partly_read(s, done.insert(19)) == SettingsModel { reasoning_level: read_back(s).reasoning_level, ..partly_read(s, done) });
}

/// Reading the `reasoning_pace` row of `s` marks it as read.
#[verifier::spinoff_prover]
proof fn lemma_read_setting_20(s: SettingsModel, done: Set<int>)
    requires
        !done.contains(20),
    ensures
        applied(partly_read(s, done), setting_key(20), settings_rows(s)[20].1) == partly_read(s, done.insert(20)),
{
    lemma_setting_keys(s);
    lemma_setting_keys_distinct();
    assert(partly_read(s, done.insert(20)) == SettingsModel { reasoning_pace: read_back(s).reasoning_pace, ..partly_read(s, done) });
}

/// Reading the `show_model_reasoning` row of `s` marks it as read.
#[verifier::spinoff_prover]
proof fn lemma_read_setting_21(s: SettingsModel, done: Set<int>)
    requires
        !done.contains(21),
    ensures
        applied(partly_read(s, done), setting_key(21), settings_rows(s)[21].1) == partly_read(s, done.insert(21)),
{
    lemma_setting_keys(s);
    lemma_setting_keys_distinct();
    lemma_bool_text(s.show_model_reasoning);
    assert(partly_read(s, done.insert(21)) == SettingsModel { show_model_reasoning: read_back(s).show_model_reasoning, ..partly_read(s, done) });
}

/// Reading the `sound_enabled` row of `s` marks it as read.
#[verifier::spinoff_prover]
proof fn lemma_read_setting_22(s: SettingsModel, done: Set<int>)
    requires
        !done.contains(22),
    ensures
        applied(partly_read(s, done), setting_key(22), settings_rows(s)[22].1) == partly_read(s, done.insert(22)),
{
    lemma_setting_keys(s);
    lemma_setting_keys_distinct();
    lemma_bool_text(s.sound_enabled);
    assert(partly_read(s, done.insert(22)) == SettingsModel { sound_enabled: read_back(s).sound_enabled, ..partly_read(s, done) });
}

/// Reading the `tavily_api_key` row of `s` marks it as read.
#[verifier::spinoff_prover]
proof fn lemma_read_setting_23(s: SettingsModel, done: Set<int>)
    requires
        !done.contains(23),
    ensures
        applied(partly_read(s, done), setting_key(23), settings_rows(s)[23].1) == partly_read(s, done.insert(23)),
{
    lemma_setting_keys(s);
    lemma_setting_keys_distinct();
    assert(partly_read(s, done.insert(23)) == SettingsModel { tavily_api_key: read_back(s).tavily_api_key, ..partly_read(s, done) });
}

/// Reading the `tavily_period_start` row of `s` marks it as read.
#[verifier::spinoff_prover]
proof fn lemma_read_setting_24(s: SettingsModel, done: Set<int>)
    requires
        !done.contains(24),
    ensures
        applied(partly_read(s, done), setting_key(24), settings_rows(s)[24].1) == partly_read(s, done.insert(24)),
{
    lemma_setting_keys(s);
    lemma_setting_keys_distinct();
    assert(partly_read(s, done.insert(24)) == SettingsModel { tavily_period_start: read_back(s).tavily_period_start, ..partly_read(s, done) });
}

/// Reading the `tavily_usage_count` row of `s` marks it as read.
#[verifier::spinoff_prover]
proof fn lemma_read_setting_25(s: SettingsModel, done: Set<int>)
    requires
        !done.contains(25),
    ensures
        applied(partly_read(s, done), setting_key(25), settings_rows(s)[25].1) == partly_read(s, done.insert(25)),
{
    lemma_setting_keys(s);
    lemma_setting_keys_distinct();
    lemma_u32_text_parses(s.tavily_usage_count);
    assert(partly_read(s, done.insert(25)) == SettingsModel { tavily_usage_count: read_back(s).tavily_usage_count, ..partly_read(s, done) });
}

/// Reading the `tavily_usage_history` row of `s` marks it as read.
#[verifier::spinoff_prover]
proof fn lemma_read_setting_26(s: SettingsModel, done: Set<int>)
    requires
        !done.contains(26),
    ensures
        applied(partly_read(s, done), setting_key(26), settings_rows(s)[26].1) == partly_read(s, done.insert(26)),
{
    lemma_setting_keys(s);
    lemma_setting_keys_distinct();
    assert(partly_read(s, done.insert(26)) == SettingsModel { tavily_usage_history: read_back(s).tavily_usage_history, ..partly_read(s, done) });
}

/// Reading the `theme` row of `s` marks it as read.
#[verifier::spinoff_prover]
proof fn lemma_read_setting_27(s: SettingsModel, done: Set<int>)
    requires
        !done.contains(27),
    ensures
        applied(partly_read(s, done), setting_key(27), settings_rows(s)[27].1) == partly_read(s, done.insert(27)),
{
    lemma_setting_keys(s);
    lemma_setting_keys_distinct();
    assert(partly_read(s, done.insert(27)) == SettingsModel { theme: read_back(s).theme, ..partly_read(s, done) });
}

/// Reading the `token_budget_priorities` row of `s` marks it as read.
#[verifier::spinoff_prover]
proof fn lemma_read_setting_28(s: SettingsModel, done: Set<int>)
    requires
        !done.contains(28),
    ensures
        applied(partly_read(s, done), setting_key(28), settings_rows(s)[28].1) == partly_read(s, done.insert(28)),
{
    lemma_setting_keys(s);
    lemma_setting_keys_distinct();
    assert(partly_read(s, done.insert(28)) == SettingsModel { token_budget_priorities: read_back(s).token_budget_priorities, ..partly_read(s, done) });
}

/// Reading the `tts_enabled` row of `s` marks it as read.
#[verifier::spinoff_prover]
proof fn lemma_read_setting_29(s: SettingsModel, done: Set<int>)
    requires
        !done.contains(29),
    ensures
        applied(partly_read(s, done), setting_key(29), settings_rows(s)[29].1) == partly_read(s, done.insert(29)),
{
    lemma_setting_keys(s);
    lemma_setting_keys_distinct();
    lemma_bool_text(s.tts_enabled);
    assert(partly_read(s, done.insert(29)) == SettingsModel { tts_enabled: read_back(s).tts_enabled, ..partly_read(s, done) });
}

/// Reading the `tts_mode` row of `s` marks it as read.
#[verifier::spinoff_prover]
proof fn lemma_read_setting_30(s: SettingsModel, done: Set<int>)
    requires
        !done.contains(30),
    ensures
        applied(partly_read(s, done), setting_key(30), settings_rows(s)[30].1) == partly_read(s, done.insert(30)),
{
    lemma_setting_keys(s);
    lemma_setting_keys_distinct();
    assert(partly_read(s, done.insert(30)) == SettingsModel { tts_mode: read_back(s).tts_mode, ..partly_read(s, done) });
}

/// Reading the `username` row of `s` marks it as read.
#[verifier::spinoff_prover]
proof fn lemma_read_setting_31(s: SettingsModel, done: Set<int>)
    requires
        !done.contains(31),
    ensures
        applied(partly_read(s, done), setting_key(31), settings_rows(s)[31].1) == partly_read(s, done.insert(31)),
{
    lemma_setting_keys(s);
    lemma_setting_keys_distinct();
    assert(partly_read(s, done.insert(31)) == SettingsModel { username: read_back(s).username, ..partly_read(s, done) });
}

/// Reading the row of setting `f` of `s` marks `f` as read.
proof fn lemma_read_setting(s: SettingsModel, done: Set<int>, f: int)
    requires
        0 <= f < 32,
        !done.contains(f),
    ensures
        applied(partly_read(s, done), setting_key(f), settings_rows(s)[f].1) == partly_read(
            s,
            done.insert(f),
        ),
{
    if f == 0 {
        lemma_read_setting_0(s, done);
    } else if f == 1 {
        lemma_read_setting_1(s, done);
    } else if f == 2 {
        lemma_read_setting_2(s, done);
    } else if f == 3 {
        lemma_read_setting_3(s, done);
    } else if f == 4 {
        lemma_read_setting_4(s, done);
    } else if f == 5 {
        lemma_read_setting_5(s, done);
    } else if f == 6 {
        lemma_read_setting_6(s, done);
    } else if f == 7 {
        lemma_read_setting_7(s, done);
    } else if f == 8 {
        lemma_read_setting_8(s, done);
    } else if f == 9 {
        lemma_read_setting_9(s, done);
    } else if f == 10 {
        lemma_read_setting_10(s, done);
    } else if f == 11 {
        lemma_read_setting_11(s, done);
    } else if f == 12 {
        lemma_read_setting_12(s, done);
    } else if f == 13 {
        lemma_read_setting_13(s, done);
    } else if f == 14 {
        lemma_read_setting_14(s, done);
    } else if f == 15 {
        lemma_read_setting_15(s, done);
    } else if f == 16 {
        lemma_read_setting_16(s, done);
    } else if f == 17 {
        lemma_read_setting_17(s, done);
    } else if f == 18 {
        lemma_read_setting_18(s, done);
    } else if f == 19 {
        lemma_read_setting_19(s, done);
    } else if f == 20 {
        lemma_read_setting_20(s, done);
    } else if f == 21 {
        lemma_read_setting_21(s, done);
    } else if f == 22 {
        lemma_read_setting_22(s, done);
    } else if f == 23 {
        lemma_read_setting_23(s, done);
    } else if f == 24 {
        lemma_read_setting_24(s, done);
    } else if f == 25 {
        lemma_read_setting_25(s, done);
    } else if f == 26 {
        lemma_read_setting_26(s, done);
    } else if f == 27 {
        lemma_read_setting_27(s, done);
    } else if f == 28 {
        lemma_read_setting_28(s, done);
    } else if f == 29 {
        lemma_read_setting_29(s, done);
    } else if f == 30 {
        lemma_read_setting_30(s, done);
    } else if f == 31 {
        lemma_read_setting_31(s, done);
    }
}

/// A row whose key is no setting changes nothing.
proof fn lemma_read_other(m: SettingsModel, key: Seq<char>, value: Seq<char>)
    requires
        forall|f: int| 0 <= f < 32 ==> #[trigger] setting_key(f) != key,
    ensures
        applied(m, key, value) == m,
{
    lemma_setting_keys(m);
    assert(setting_key(0) != key);
    assert(setting_key(1) != key);
    assert(setting_key(2) != key);
    assert(setting_key(3) != key);
    assert(setting_key(4) != key);
    assert(setting_key(5) != key);
    assert(setting_key(6) != key);
    assert(setting_key(7) != key);
    assert(setting_key(8) != key);
    assert(setting_key(9) != key);
    assert(setting_key(10) != key);
    assert(setting_key(11) != key);
    assert(setting_key(12) != key);
    assert(setting_key(13) != key);
    assert(setting_key(14) != key);
    assert(setting_key(15) != key);
    assert(setting_key(16) != key);
    assert(setting_key(17) != key);
    assert(setting_key(18) != key);
    assert(setting_key(19) != key);
    assert(setting_key(20) != key);
    assert(setting_key(21) != key);
    assert(setting_key(22) != key);
    assert(setting_key(23) != key);
    assert(setting_key(24) != key);
    assert(setting_key(25) != key);
    assert(setting_key(26) != key);
    assert(setting_key(27) != key);
    assert(setting_key(28) != key);
    assert(setting_key(29) != key);
    assert(setting_key(30) != key);
    assert(setting_key(31) != key);
}

/// `key` is the key of a setting.
pub open spec fn is_setting_key(key: Seq<char>) -> bool {
    exists|f: int| 0 <= f < 32 && #[trigger] setting_key(f) == key
}

/// `rows` store the settings `s`: the row of every setting exactly once, in
/// any order, among any rows whose keys are no settings.
pub open spec fn rows_hold(rows: Seq<(Seq<char>, Seq<char>)>, s: SettingsModel) -> bool {
    &&& forall|p: int|
        0 <= p < rows.len() && is_setting_key(#[trigger] rows[p].0) ==> exists|f: int|
            0 <= f < 32 && rows[p] == #[trigger] settings_rows(s)[f]
    &&& forall|f: int|
        0 <= f < 32 ==> exists|p: int| 0 <= p < rows.len() && rows[p].0 == #[trigger] setting_key(f)
    &&& forall|p: int, q: int|
        0 <= p < q < rows.len() && is_setting_key(rows[p].0) ==> #[trigger] rows[p].0
            != #[trigger] rows[q].0
}

/// The settings whose rows are among the first `n` rows.
pub open spec fn settings_seen(rows: Seq<(Seq<char>, Seq<char>)>, n: int) -> Set<int> {
    Set::new(|f: int| 0 <= f < 32 && exists|p: int| 0 <= p < n && rows[p].0 == setting_key(f))
}


/// The row of setting `f` of `s` is written under `setting_key(f)`.
proof fn lemma_setting_key_of(s: SettingsModel, f: int)
    requires
        0 <= f < 32,
    ensures
        settings_rows(s)[f].0 == setting_key(f),
{
    lemma_setting_keys(s);
}

/// After the row of setting `f`, `f` is seen as well.
proof fn lemma_seen_setting(rows: Seq<(Seq<char>, Seq<char>)>, n: int, f: int)
    requires
        0 < n <= rows.len(),
        0 <= f < 32,
        rows[n - 1].0 == setting_key(f),
    ensures
        settings_seen(rows, n) == settings_seen(rows, n - 1).insert(f),
{
    lemma_setting_keys_distinct();
    let seen = settings_seen(rows, n - 1);
    assert forall|g: int| #[trigger] settings_seen(rows, n).contains(g) == seen.insert(f).contains(g) by {
        if 0 <= g < 32 && g != f {
            if g < f {
                assert(setting_key(g) != setting_key(f));
            } else {
                assert(setting_key(f) != setting_key(g));
            }
            if exists|p: int| 0 <= p < n && rows[p].0 == setting_key(g) {
                let p = choose|p: int| 0 <= p < n && rows[p].0 == setting_key(g);
                assert(p != n - 1);
            }
        }
        if g == f {
            assert(rows[n - 1].0 == setting_key(f));
        }
    }
    assert(settings_seen(rows, n) =~= seen.insert(f));
}

/// After a row whose key is no setting, the same settings are seen.
proof fn lemma_seen_other(rows: Seq<(Seq<char>, Seq<char>)>, n: int)
    requires
        0 < n <= rows.len(),
        !is_setting_key(rows[n - 1].0),
    ensures
        settings_seen(rows, n) == settings_seen(rows, n - 1),
{
    let seen = settings_seen(rows, n - 1);
    assert forall|g: int| #[trigger] settings_seen(rows, n).contains(g) == seen.contains(g) by {
        if 0 <= g < 32 && exists|p: int| 0 <= p < n && rows[p].0 == setting_key(g) {
            let p = choose|p: int| 0 <= p < n && rows[p].0 == setting_key(g);
            if p == n - 1 {
                assert(is_setting_key(rows[n - 1].0));
            }
        }
    }
    assert(settings_seen(rows, n) =~= seen);
}

/// With no setting read, the settings are the defaults.
#[verifier::spinoff_prover]
proof fn lemma_none_read(s: SettingsModel)
    ensures
        partly_read(s, Set::<int>::empty()) == default_settings(),
{
}

/// With every setting read, the settings are those `s` reads back as.
#[verifier::spinoff_prover]
proof fn lemma_all_read(s: SettingsModel)
    ensures
        partly_read(s, Set::new(|f: int| 0 <= f < 32)) == read_back(s),
{
}

/// Reading the first `n` rows yields the settings seen so far.
proof fn lemma_read_prefix(s: SettingsModel, rows: Seq<(Seq<char>, Seq<char>)>, n: int)
    requires
        rows_hold(rows, s),
        0 <= n <= rows.len(),
    ensures
        settings_read(rows.take(n)) == partly_read(s, settings_seen(rows, n)),
    decreases n,
{
    if n == 0 {
        assert(rows.take(0) =~= Seq::<(Seq<char>, Seq<char>)>::empty());
        assert(settings_seen(rows, 0) =~= Set::<int>::empty());
        lemma_none_read(s);
    } else {
        lemma_read_prefix(s, rows, n - 1);
        let seen = settings_seen(rows, n - 1);
        let r = rows[n - 1];
        assert(rows.take(n).drop_last() =~= rows.take(n - 1));
        assert(rows.take(n).last() == r);
        if is_setting_key(r.0) {
            let f = choose|f: int| 0 <= f < 32 && r == #[trigger] settings_rows(s)[f];
            lemma_setting_key_of(s, f);
            if seen.contains(f) {
                let p = choose|p: int| 0 <= p < n - 1 && rows[p].0 == setting_key(f);
                assert(is_setting_key(rows[p].0));
                assert(rows[p].0 != rows[n - 1].0);
            }
            lemma_read_setting(s, seen, f);
            lemma_seen_setting(rows, n, f);
        } else {
            assert forall|f: int| 0 <= f < 32 implies #[trigger] setting_key(f) != r.0 by {}
            lemma_read_other(partly_read(s, seen), r.0, r.1);
            lemma_seen_other(rows, n);
        }
    }
}

/// Settings written as rows read back as themselves (blank values of the
/// three settings that ignore blanks aside), whatever the order of the rows
/// and whatever rows with other keys lie among them.
pub proof fn law_settings_read_back(s: SettingsModel, rows: Seq<(Seq<char>, Seq<char>)>)
    requires
        rows_hold(rows, s),
    ensures
        settings_read(rows) == read_back(s),
{
    lemma_read_prefix(s, rows, rows.len() as int);
    assert(rows.take(rows.len() as int) =~= rows);
    assert(settings_seen(rows, rows.len() as int) =~= Set::new(|f: int| 0 <= f < 32));
    lemma_all_read(s);
}

/// The rows written for settings read back as those settings (blank values of
/// the three settings that ignore blanks aside).
#[verifier::spinoff_prover]
pub proof fn law_settings_round_trip(s: SettingsModel)
    ensures
        settings_read(settings_rows(s)) == read_back(s),
{
    let rows = settings_rows(s);
    assert(rows.len() == 32);
    lemma_setting_keys_distinct();
    assert forall|p: int| 0 <= p < rows.len() && is_setting_key(#[trigger] rows[p].0) implies exists|f: int|
        0 <= f < 32 && rows[p] == #[trigger] settings_rows(s)[f] by {
        assert(rows[p] == settings_rows(s)[p]);
    }
    assert forall|f: int| 0 <= f < 32 implies exists|p: int| 0 <= p < rows.len() && rows[p].0
        == #[trigger] setting_key(f) by {
        lemma_setting_key_of(s, f);
    }
    assert forall|p: int, q: int| 0 <= p < q < rows.len() && is_setting_key(rows[p].0) implies #[trigger] rows[p].0
        != #[trigger] rows[q].0 by {
        lemma_setting_key_of(s, p);
        lemma_setting_key_of(s, q);
        assert(setting_key(p) != setting_key(q));
    }
    law_settings_read_back(s, rows);
}


// ── User saves and server-owned counters ────────────────────────────

/// The settings a user save writes: the user's payload, with the DeepSeek
/// period counters (owned by the backend) taken from the stored settings.
pub open spec fn merged_user_settings(current: SettingsModel, incoming: SettingsModel) -> SettingsModel {
    SettingsModel {
        deepseek_period_start: current.deepseek_period_start,
        deepseek_period_usage_json: current.deepseek_period_usage_json,
        deepseek_usage_history: current.deepseek_usage_history,
        ..incoming
    }
}

/// Merge a settings payload from the frontend with the stored settings: the
/// DeepSeek period counters are never taken from the payload.
pub fn merge_user_settings(current: AppSettings, incoming: AppSettings) -> (r: AppSettings)
    ensures
        r@ == merged_user_settings(current@, incoming@),
{
    AppSettings {
        deepseek_period_start: current.deepseek_period_start,
        deepseek_period_usage_json: current.deepseek_period_usage_json,
        deepseek_usage_history: current.deepseek_usage_history,
        ..incoming
    }
}

/// Settings as saved on `today`: a usage period starts today for a service
/// that has an API key but no period start yet.
pub open spec fn with_period_starts_spec(s: SettingsModel, today: Date) -> SettingsModel {
    let tavily_start = if s.tavily_api_key.len() > 0 && s.tavily_period_start.len() == 0 {
        ymd_text(today)
    } else {
        s.tavily_period_start
    };
    let deepseek_start = if s.deepseek_api_key.len() > 0 && s.deepseek_period_start.len() == 0 {
        ymd_text(today)
    } else {
        s.deepseek_period_start
    };
    SettingsModel { tavily_period_start: tavily_start, deepseek_period_start: deepseek_start, ..s }
}

/// Start the usage periods of the services that have a key but no period yet.
pub fn with_period_starts(s: AppSettings, today: Date) -> (r: AppSettings)
    requires
        today.wf(),
    ensures
        r@ == with_period_starts_spec(s@, today),
{
    let mut s = s;
    if !s.tavily_api_key.as_str().is_empty() && s.tavily_period_start.as_str().is_empty() {
        s.tavily_period_start = format_period_date(today);
    }
    if !s.deepseek_api_key.as_str().is_empty() && s.deepseek_period_start.as_str().is_empty() {
        s.deepseek_period_start = format_period_date(today);
    }
    s
}

/// A user save never changes the recorded DeepSeek spend: the rows it writes
/// carry the stored usage and history, and the stored period start unless
/// none was stored yet (then today, when a key is set).
pub proof fn law_user_save_keeps_server_counters(current: SettingsModel, incoming: SettingsModel, today: Date)
    ensures
        ({
            let written = with_period_starts_spec(merged_user_settings(current, incoming), today);
            &&& written.deepseek_period_usage_json == current.deepseek_period_usage_json
            &&& written.deepseek_usage_history == current.deepseek_usage_history
            &&& current.deepseek_period_start.len() > 0 ==> written.deepseek_period_start
                == current.deepseek_period_start
            &&& written.username == incoming.username
            &&& written.theme == incoming.theme
            &&& written.deepseek_api_key == incoming.deepseek_api_key
        }),
{
}

/// A user save takes every setting from the user's payload except the three
/// server-owned DeepSeek period counters, which keep their stored values.
pub proof fn law_user_save_takes_payload(current: SettingsModel, incoming: SettingsModel)
    ensures
        ({
            let m = merged_user_settings(current, incoming);
            &&& m.advanced_tuning_json == incoming.advanced_tuning_json
            &&& m.deepseek_api_key == incoming.deepseek_api_key
            &&& m.deepseek_model == incoming.deepseek_model
            &&& m.deepseek_period_start == current.deepseek_period_start
            &&& m.deepseek_period_usage_json == current.deepseek_period_usage_json
            &&& m.deepseek_usage_history == current.deepseek_usage_history
            &&& m.embedding_model == incoming.embedding_model
            &&& m.emotion_driven == incoming.emotion_driven
            &&& m.language == incoming.language
            &&& m.license_key == incoming.license_key
            &&& m.llm_provider == incoming.llm_provider
            &&& m.num_ctx == incoming.num_ctx
            &&& m.ollama_model == incoming.ollama_model
            &&& m.ollama_url == incoming.ollama_url
            &&& m.openai_compat_api_key == incoming.openai_compat_api_key
            &&& m.openai_compat_base_url == incoming.openai_compat_base_url
            &&& m.openai_compat_model == incoming.openai_compat_model
            &&& m.openai_compat_models == incoming.openai_compat_models
            &&& m.persona_memory_enabled == incoming.persona_memory_enabled
            &&& m.reasoning_level == incoming.reasoning_level
            &&& m.reasoning_pace == incoming.reasoning_pace
            &&& m.show_model_reasoning == incoming.show_model_reasoning
            &&& m.sound_enabled == incoming.sound_enabled
            &&& m.tavily_api_key == incoming.tavily_api_key
            &&& m.tavily_period_start == incoming.tavily_period_start
            &&& m.tavily_usage_count == incoming.tavily_usage_count
            &&& m.tavily_usage_history == incoming.tavily_usage_history
            &&& m.theme == incoming.theme
            &&& m.token_budget_priorities == incoming.token_budget_priorities
            &&& m.tts_enabled == incoming.tts_enabled
            &&& m.tts_mode == incoming.tts_mode
            &&& m.username == incoming.username
        }),
{
}

/// A save fills only empty period starts: a stored period start is kept, an
/// empty one becomes `today` when its service has an API key and stays empty
/// otherwise, and every other setting is saved as given.
pub proof fn law_period_starts_fill_only_empty(s: SettingsModel, today: Date)
    ensures
        ({
            let w = with_period_starts_spec(s, today);
            &&& s.tavily_period_start.len() > 0 ==> w.tavily_period_start == s.tavily_period_start
            &&& s.deepseek_period_start.len() > 0 ==> w.deepseek_period_start == s.deepseek_period_start
            &&& s.tavily_period_start.len() == 0 ==> w.tavily_period_start == (if s.tavily_api_key.len() > 0 {
                ymd_text(today)
            } else {
                s.tavily_period_start
            })
            &&& s.deepseek_period_start.len() == 0 ==> w.deepseek_period_start == (if s.deepseek_api_key.len() > 0 {
                ymd_text(today)
            } else {
                s.deepseek_period_start
            })
            &&& w.advanced_tuning_json == s.advanced_tuning_json
            &&& w.deepseek_api_key == s.deepseek_api_key
            &&& w.deepseek_model == s.deepseek_model
            &&& w.deepseek_period_usage_json == s.deepseek_period_usage_json
            &&& w.deepseek_usage_history == s.deepseek_usage_history
            &&& w.embedding_model == s.embedding_model
            &&& w.emotion_driven == s.emotion_driven
            &&& w.language == s.language
            &&& w.license_key == s.license_key
            &&& w.llm_provider == s.llm_provider
            &&& w.num_ctx == s.num_ctx
            &&& w.ollama_model == s.ollama_model
            &&& w.ollama_url == s.ollama_url
            &&& w.openai_compat_api_key == s.openai_compat_api_key
            &&& w.openai_compat_base_url == s.openai_compat_base_url
            &&& w.openai_compat_model == s.openai_compat_model
            &&& w.openai_compat_models == s.openai_compat_models
            &&& w.persona_memory_enabled == s.persona_memory_enabled
            &&& w.reasoning_level == s.reasoning_level
            &&& w.reasoning_pace == s.reasoning_pace
            &&& w.show_model_reasoning == s.show_model_reasoning
            &&& w.sound_enabled == s.sound_enabled
            &&& w.tavily_api_key == s.tavily_api_key
            &&& w.tavily_usage_count == s.tavily_usage_count
            &&& w.tavily_usage_history == s.tavily_usage_history
            &&& w.theme == s.theme
            &&& w.token_budget_priorities == s.token_budget_priorities
            &&& w.tts_enabled == s.tts_enabled
            &&& w.tts_mode == s.tts_mode
            &&& w.username == s.username
        }),
{
}

/// Settings after a manual reset of the DeepSeek period counters.
pub fn reset_deepseek_usage(s: AppSettings) -> (r: AppSettings)
    ensures
        r@ == (SettingsModel { deepseek_period_usage_json: "{}"@, ..s@ }),
{
    AppSettings { deepseek_period_usage_json: owned("{}"), ..s }
}

// ── Monthly rollover of the usage counters ──────────────────────────

/// An expired usage period and the one that replaces it.
pub struct PeriodReset {
    /// Stored start of the expired period, as it was stored.
    pub expired_start: String,
    /// The dates of the rollover.
    pub rollover: Rollover,
    /// End (exclusive) of the expired period, `YYYY-MM-DD`.
    pub expired_end: String,
    /// Start of the period containing today, `YYYY-MM-DD`.
    pub new_start: String,
}

/// The date a stored period start names.
pub open spec fn stored_start(text: Seq<char>) -> Option<Date> {
    date_of(ymd_parsed(trimmed(text)))
}

/// The rollover can be computed without leaving the representable dates.
pub open spec fn rollover_in_range(start: Date, today: Date) -> bool {
    !in_last_month(start) && (in_last_month(today) ==> date_before(today, month_after(start)))
}

/// `p` is the reset of the period stored as `text`, checked on `today`.
pub open spec fn reset_found(text: Seq<char>, today: Date, p: PeriodReset) -> bool {
    &&& stored_start(text) matches Some(d)
    &&& rollover_spec(d, today, Some(p.rollover))
    &&& p.expired_start@ == text
    &&& p.expired_end@ == ymd_text(p.rollover.expired_end)
    &&& p.new_start@ == ymd_text(p.rollover.new_start)
}

/// The period stored as `text` has expired on `today`: the reset archives it
/// and starts the period containing `today`. `None` when the stored start is
/// unreadable or the period still runs.
pub fn period_reset(text: &str, today: Date) -> (r: Option<PeriodReset>)
    requires
        today.wf(),
        stored_start(text@) matches Some(d) ==> rollover_in_range(d, today),
    ensures
        match r {
            Some(p) => reset_found(text@, today, p),
            None => stored_start(text@) matches Some(d) ==> date_before(today, month_after(d)),
        },
{
    let start = match parse_period_start(text) {
        Some(d) => d,
        None => {
            return None;
        },
    };
    let ro = match rollover(start, today) {
        Some(ro) => ro,
        None => {
            return None;
        },
    };
    let expired_end = format_period_date(ro.expired_end);
    let new_start = format_period_date(ro.new_start);
    proof {
        assert(ro.expired_end.wf());
    }
    Some(PeriodReset { expired_start: owned(text), rollover: ro, expired_end, new_start })
}

/// `period_reset`, answering `None` as well where the rollover would leave the
/// representable dates (a stored start or today in December of the last
/// representable year).
pub fn period_reset_checked(text: &str, today: Date) -> (r: Option<PeriodReset>)
    requires
        today.wf(),
    ensures
        match r {
            Some(p) => reset_found(text@, today, p),
            None => stored_start(text@) matches Some(d) ==> (!rollover_in_range(d, today)
                || date_before(today, month_after(d))),
        },
{
    let start = match parse_period_start(text) {
        Some(d) => d,
        None => {
            return None;
        },
    };
    let last_month = start.year == crate::rolling_period::MAX_YEAR && start.month == 12;
    if last_month {
        return None;
    }
    let today_last = today.year == crate::rolling_period::MAX_YEAR && today.month == 12;
    if today_last {
        let end = crate::rolling_period::period_end(start);
        if !crate::rolling_period::is_before(&today, &end) {
            return None;
        }
    }
    period_reset(text, today)
}

/// The Tavily period to roll over on `today`: none without an API key or a
/// stored period start.
pub fn tavily_period_reset(s: &AppSettings, today: Date) -> (r: Option<PeriodReset>)
    requires
        today.wf(),
    ensures
        s@.tavily_api_key.len() == 0 || s@.tavily_period_start.len() == 0 ==> r is None,
        r matches Some(p) ==> reset_found(s@.tavily_period_start, today, p),
        r is None && s@.tavily_api_key.len() > 0 && s@.tavily_period_start.len() > 0 ==> (
        stored_start(s@.tavily_period_start) matches Some(d) ==> (!rollover_in_range(d, today)
            || date_before(today, month_after(d)))),
{
    if s.tavily_api_key.as_str().is_empty() || s.tavily_period_start.as_str().is_empty() {
        return None;
    }
    period_reset_checked(s.tavily_period_start.as_str(), today)
}

/// Settings after the Tavily rollover: the new period starts with no usage,
/// `history` being the usage history with the expired period archived.
pub fn apply_tavily_reset(s: AppSettings, reset: &PeriodReset, history: String) -> (r: AppSettings)
    ensures
        r@ == (SettingsModel {
            tavily_period_start: reset.new_start@,
            tavily_usage_count: 0,
            tavily_usage_history: history@,
            ..s@
        }),
{
    AppSettings {
        tavily_period_start: reset.new_start.clone(),
        tavily_usage_count: 0,
        tavily_usage_history: history,
        ..s
    }
}

/// What the Tavily period check saves on `today`, if anything: when the
/// stored period has expired, the period containing `today` with no usage,
/// and the usage history with the expired period (its stored start, its end
/// and its usage count) appended.
pub open spec fn tavily_rolled(s: SettingsModel, p: PeriodReset) -> SettingsModel {
    SettingsModel {
        tavily_period_start: p.new_start@,
        tavily_usage_count: 0,
        tavily_usage_history: history_appended(
            s.tavily_usage_history,
            s.tavily_period_start,
            p.expired_end@,
            s.tavily_usage_count,
        ),
        ..s
    }
}

/// Check the Tavily period on `today`: `None` when there is nothing to save
/// (no API key, no or unreadable period start, period still running),
/// otherwise the settings with the expired period archived and the new one
/// started.
pub fn tavily_period_check(s: AppSettings, today: Date) -> (r: Option<AppSettings>)
    requires
        today.wf(),
    ensures
        match r {
            Some(n) => exists|p: PeriodReset|
                reset_found(s@.tavily_period_start, today, p) && n@ == #[trigger] tavily_rolled(s@, p),
            None => s@.tavily_api_key.len() == 0 || s@.tavily_period_start.len() == 0 || (
            stored_start(s@.tavily_period_start) matches Some(d) ==> (!rollover_in_range(d, today)
                || date_before(today, month_after(d)))),
        },
{
    let reset = match tavily_period_reset(&s, today) {
        Some(p) => p,
        None => {
            return None;
        },
    };
    let history = history_with_period(
        s.tavily_usage_history.as_str(),
        s.tavily_period_start.as_str(),
        reset.expired_end.as_str(),
        s.tavily_usage_count,
    );
    let n = apply_tavily_reset(s, &reset, history);
    proof {
        assert(n@ == tavily_rolled(s@, reset));
    }
    Some(n)
}

/// The DeepSeek period to roll over on `today`: none without an API key.
pub fn deepseek_period_reset(s: &AppSettings, today: Date) -> (r: Option<PeriodReset>)
    requires
        today.wf(),
    ensures
        s@.deepseek_api_key.len() == 0 ==> r is None,
        r matches Some(p) ==> reset_found(s@.deepseek_period_start, today, p),
        r is None && s@.deepseek_api_key.len() > 0 ==> (stored_start(s@.deepseek_period_start) matches Some(
            d,
        ) ==> (!rollover_in_range(d, today) || date_before(today, month_after(d)))),
{
    if s.deepseek_api_key.as_str().is_empty() {
        return None;
    }
    period_reset_checked(s.deepseek_period_start.as_str(), today)
}

/// Settings after the DeepSeek rollover: the new period starts with empty
/// usage, `history` being the history with the expired period archived.
pub fn apply_deepseek_reset(s: AppSettings, reset: &PeriodReset, history: String) -> (r: AppSettings)
    ensures
        r@ == (SettingsModel {
            deepseek_period_start: reset.new_start@,
            deepseek_period_usage_json: "{}"@,
            deepseek_usage_history: history@,
            ..s@
        }),
{
    AppSettings {
        deepseek_period_start: reset.new_start.clone(),
        deepseek_period_usage_json: owned("{}"),
        deepseek_usage_history: history,
        ..s
    }
}

/// After a reset, the stored period contains today: checking again the same
/// day finds nothing to archive (its start reads back as the new start, see
/// `parse_period_start`).
pub proof fn law_reset_is_settled(text: Seq<char>, today: Date, p: PeriodReset, again: Option<Rollover>)
    requires
        reset_found(text, today, p),
        rollover_spec(p.rollover.new_start, today, again),
    ensures
        again is None,
{
}

} // verus!
