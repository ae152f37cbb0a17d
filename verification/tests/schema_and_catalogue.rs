use gladiators_db::discussion::{indexed_content, message_kind_of_row, MessageKind};
use gladiators_db::schema::{alter_statement, column_migrations, has_column, pending_migrations};
use gladiators_db::seed::{builtin_arbitre_profiles, builtin_profiles};
use std::collections::HashSet;

#[test]
fn migrations_run_once() {
    let all = column_migrations();
    assert_eq!(all.len(), 17);
    assert_eq!(pending_migrations(&vec![]).len(), 17);
    let present: Vec<(String, String)> = all.iter().map(|m| (m.table.clone(), m.column.clone())).collect();
    assert!(pending_migrations(&present).is_empty(), "idempotent");
    // A v1.16 database lacks the report, tags, favourite and kind columns
    let v116: Vec<(String, String)> = all
        .iter()
        .filter(|m| !["report_json", "tags", "favorite", "kind"].contains(&m.column.as_str()))
        .map(|m| (m.table.clone(), m.column.clone()))
        .collect();
    let pending: Vec<String> = pending_migrations(&v116).iter().map(|m| m.column.clone()).collect();
    assert_eq!(pending, vec!["report_json", "tags", "favorite", "kind"]);
    assert_eq!(
        alter_statement(&all[0]),
        "ALTER TABLE predefined_profiles ADD COLUMN profile_type TEXT NOT NULL DEFAULT 'gladiateur';"
    );
    assert!(has_column(&vec!["id".into(), "tags".into()], "tags"));
    assert!(!has_column(&vec!["id".into()], "tags"));
}

#[test]
fn message_kinds_derive_from_the_ban_flag_for_old_rows() {
    assert_eq!(message_kind_of_row("normal", false), MessageKind::Normal);
    assert_eq!(message_kind_of_row("normal", true), MessageKind::BanNotification);
    assert_eq!(message_kind_of_row("", true), MessageKind::BanNotification);
    assert_eq!(message_kind_of_row("", false), MessageKind::Normal);
    assert_eq!(message_kind_of_row("stageDirection", false), MessageKind::StageDirection);
    assert_eq!(message_kind_of_row("stageDirection", true), MessageKind::StageDirection);
    for k in [MessageKind::Normal, MessageKind::BanNotification, MessageKind::StageDirection] {
        assert_eq!(MessageKind::parse(&k.as_str()), k);
    }
}

#[test]
fn indexed_content_joins_messages() {
    assert_eq!(indexed_content(&vec!["a b".into(), "c".into()]), "a b c");
    assert_eq!(indexed_content(&vec![]), "");
}

#[test]
fn builtin_catalogue_is_complete_and_unique() {
    let g = builtin_profiles();
    let a = builtin_arbitre_profiles();
    assert_eq!(g.len(), 135);
    assert_eq!(a.len(), 10);
    assert!(g.iter().all(|p| p.is_builtin && p.profile_type == "gladiateur"));
    assert!(a.iter().all(|p| p.is_builtin && p.profile_type == "arbitre" && p.category == "arbitre"));
    let ids: HashSet<&str> = g.iter().chain(a.iter()).map(|p| p.id.as_str()).collect();
    assert_eq!(ids.len(), 145, "profile ids are unique");
    assert_eq!(g[0].id, "scientist");
    assert_eq!(g[0].category, "experts");
    assert!(g[0].initial_emotions.as_deref().unwrap().contains("curiosite"));
    assert!(g.iter().all(|p| !p.system_prompt.is_empty()));
}

#[test]
fn builtin_profiles_carry_persona_prompts_and_emotions() {
    let g = builtin_profiles();
    let a = builtin_arbitre_profiles();
    assert_eq!(
        g[0].initial_emotions.as_deref(),
        Some("{\"engagement\":60,\"accord\":40,\"confiance\":70,\"frustration\":20,\"curiosite\":80,\"enthousiasme\":50}")
    );
    assert!(g[0].system_prompt.starts_with("<persona>\n<identity>\nLe Scientifique"));
    for p in g.iter().chain(a.iter()) {
        assert!(p.system_prompt.starts_with("<persona>") && p.system_prompt.ends_with("</persona>"), "{}", p.id);
    }
    for p in &g {
        assert!(!p.id.starts_with("arb-"));
        assert!(["experts", "imaginaires", "metiers", "personnalites", "autres"].contains(&p.category.as_str()));
        let e: serde_json::Value = serde_json::from_str(p.initial_emotions.as_deref().unwrap()).unwrap();
        let obj = e.as_object().unwrap();
        assert_eq!(obj.len(), 6, "{}", p.id);
        assert!(obj.values().all(|v| v.as_u64().map_or(false, |n| n <= 100)), "{}", p.id);
    }
    assert!(a.iter().all(|p| p.id.starts_with("arb-") && p.initial_emotions.is_none()));
}
