use gladiators_db::memory::{memory_rows, rank_memories, PersonaMemory, PersonaRecap, SpeakerRecap};

fn recap(lesson: &str) -> PersonaRecap {
    PersonaRecap { positions: vec![], best_lines: vec![], allies: vec![], rivals: vec![], lesson: lesson.to_string() }
}

fn memory(discussion_id: &str) -> PersonaMemory {
    PersonaMemory {
        id: format!("{discussion_id}-0"),
        profile_id: "scientist".into(),
        discussion_id: discussion_id.into(),
        topic: String::new(),
        created_at: String::new(),
        recap: recap("x"),
    }
}

fn ids(v: Vec<PersonaMemory>) -> Vec<String> {
    v.into_iter().map(|m| m.discussion_id).collect()
}

#[test]
fn topic_matches_come_first_then_recency() {
    // Newest first: d3, d2, d1; the topic matches d1 only
    let all = || vec![memory("d3"), memory("d2"), memory("d1")];
    assert_eq!(ids(rank_memories(all(), vec![2], 2)), vec!["d1", "d3"]);
    // No match at all: the most recent ones
    assert_eq!(ids(rank_memories(all(), vec![], 2)), vec!["d3", "d2"]);
    // Fewer memories than asked: all of them
    assert_eq!(ids(rank_memories(all(), vec![], 10)), vec!["d3", "d2", "d1"]);
    // The closest first even when everything fits
    assert_eq!(ids(rank_memories(all(), vec![1, 2], 10)), vec!["d2", "d1", "d3"]);
    // Repeated or unknown positions are ignored
    assert_eq!(ids(rank_memories(all(), vec![1, 1, 7, 0], 3)), vec!["d2", "d3", "d1"]);
    assert!(rank_memories(all(), vec![0], 0).is_empty());
    assert!(rank_memories(vec![], vec![0], 3).is_empty());
}

#[test]
fn only_recaps_with_a_profile_and_content_are_stored() {
    let recaps = vec![
        SpeakerRecap { speaker_id: "g1".into(), speaker_name: "Le Scientifique".into(), profile_id: "scientist".into(), recap: recap("mesurer") },
        SpeakerRecap { speaker_id: "g2".into(), speaker_name: "Perso".into(), profile_id: "  ".into(), recap: recap("x") },
        SpeakerRecap { speaker_id: "g3".into(), speaker_name: "Vide".into(), profile_id: "philosopher".into(), recap: recap("") },
        SpeakerRecap { speaker_id: "g4".into(), speaker_name: "Critique".into(), profile_id: "critic".into(), recap: PersonaRecap { positions: vec!["p".into()], ..recap("") } },
    ];
    let rows = memory_rows("disc-1", &recaps);
    assert_eq!(rows, vec![(0, "disc-1-0".to_string()), (3, "disc-1-3".to_string())]);
    assert!(recaps[2].recap.is_empty());
    assert!(!recaps[3].recap.is_empty());
}
