//! The static catalogs, the streak rule, the text utilities, and search.

use yavin::badges::{self, BadgeId, BadgeState, TriggerTag};
use yavin::catalog::{self, PageId, SectionId};
use yavin::certificate::cert_code;
use yavin::search::{self, SearchEntry};
use yavin::streak::next_streak;
use yavin::text;

#[test]
fn streak_rule_cases() {
    // Yesterday, streak 4: today's update yields 5.
    assert_eq!(next_streak(Some(99), 4, 100), 5);
    // Ten days ago: reset to 1.
    assert_eq!(next_streak(Some(90), 4, 100), 1);
    // No prior activity: 1.
    assert_eq!(next_streak(None, 4, 100), 1);
    // Same day again: unchanged.
    assert_eq!(next_streak(Some(100), 4, 100), 4);
    // A last-activity day in the future counts as a gap.
    assert_eq!(next_streak(Some(105), 4, 100), 1);
    // The counter saturates at the machine limit.
    assert_eq!(next_streak(Some(99), u32::MAX, 100), u32::MAX);
}

#[test]
fn section_catalog() {
    let sections = catalog::all_sections();
    assert_eq!(sections.len(), 8);
    assert_eq!(catalog::section_from_str("foundations"), Some(SectionId::Foundations));
    assert_eq!(catalog::section_from_str("glossary"), Some(SectionId::Glossary));
    assert_eq!(catalog::section_from_str("astrology"), None);
    assert_eq!(catalog::section_from_str(""), None);
    assert_eq!(catalog::section_xp(SectionId::Foundations), 100);
    assert_eq!(catalog::section_key(SectionId::Sequential), "sequential");
    assert_eq!(catalog::section_title(SectionId::Learning), "Machine Learning");
    assert!(catalog::is_core(SectionId::Foundations));
    assert!(catalog::is_core(SectionId::Ethics));
    assert!(!catalog::is_core(SectionId::Sequential));
    assert!(!catalog::is_core(SectionId::Glossary));
    for (k, s) in sections.iter().enumerate() {
        assert_eq!(catalog::section_rank(*s), k);
        assert_eq!(catalog::section_from_str(catalog::section_key(*s)), Some(*s));
    }
}

#[test]
fn badge_catalog() {
    let all = badges::all_badges();
    assert_eq!(all.len(), 15);
    for (k, b) in all.iter().enumerate() {
        assert_eq!(badges::badge_rank(*b), k);
        assert!(!badges::badge_name(*b).is_empty());
        assert!(!badges::badge_key(*b).is_empty());
        assert!(!badges::badge_icon(*b).is_empty());
    }
    assert_eq!(badges::badge_xp(BadgeId::MonthStreak), 150);
    assert_eq!(badges::badge_xp(BadgeId::XpCollector), 0);
    assert_eq!(badges::trigger_from_str("playground"), Some(TriggerTag::PlaygroundRun));
    assert_eq!(badges::trigger_from_str("chat"), Some(TriggerTag::ChatUsed));
    assert_eq!(badges::trigger_from_str("something"), None);
}

#[test]
fn badge_predicates() {
    let quiet = BadgeState {
        completed_count: 0,
        foundations_done: false,
        ethics_done: false,
        core_done: false,
        all_done: false,
        perfect_quizzes: 0,
        streak_days: 0,
        total_xp: 0,
        trigger: None,
    };
    for b in badges::all_badges() {
        assert!(!badges::badge_eligible(b, &quiet));
    }
    let busy = BadgeState {
        completed_count: 8,
        foundations_done: true,
        ethics_done: true,
        core_done: true,
        all_done: true,
        perfect_quizzes: 5,
        streak_days: 30,
        total_xp: 1000,
        trigger: Some(TriggerTag::ChatUsed),
    };
    for b in badges::all_badges() {
        let expected = b != BadgeId::Tinkerer;
        assert_eq!(badges::badge_eligible(b, &busy), expected);
    }
}

#[test]
fn page_catalog() {
    assert_eq!(catalog::page_title(PageId::Home), "Yavin – Understanding Artificial Intelligence");
    assert_eq!(catalog::page_marker(PageId::Home), "home");
    assert_eq!(catalog::page_template(PageId::Home), "index.html");
    assert_eq!(catalog::page_title(PageId::Ethics), "Ethics & Society – Yavin");
    assert_eq!(catalog::page_template(PageId::Mission), "mission.html");
    assert_eq!(search::page_url(PageId::Home), "/");
    assert_eq!(search::page_url(PageId::Deep), "/deep");
    assert_eq!(search::all_pages().len(), 9);
}

#[test]
fn search_is_case_insensitive() {
    let hits = search::search_hits("NEURAL");
    assert!(hits.contains(&PageId::Neural));
    let hits = search::search_hits("neural");
    assert!(hits.contains(&PageId::Neural));
    // A keyword-only match.
    let hits = search::search_hits("Turing");
    assert_eq!(hits, vec![PageId::Foundations]);
}

#[test]
fn search_short_or_hopeless_queries() {
    assert!(search::search_hits("").is_empty());
    assert!(search::search_hits("x").is_empty());
    assert!(search::search_hits("qqqqzzzz").is_empty());
}

#[test]
fn search_returns_full_entries() {
    let rows: Vec<SearchEntry> = search::search("glossary");
    assert_eq!(rows.len(), 1);
    assert_eq!(rows[0].title, "Glossary – Yavin");
    assert_eq!(rows[0].section, "glossary");
    assert_eq!(rows[0].url, "/glossary");
    assert!(rows[0].keywords.contains("terms"));
    // Every page matches a query on the shared title suffix.
    let rows = search::search("yavin");
    assert_eq!(rows.len(), 9);
}

#[test]
fn digest_is_stable() {
    assert_eq!(text::digest("abc"), 0xe71fa2190541574b);
    assert_eq!(text::digest(""), 0xcbf29ce484222325);
    assert_ne!(text::digest("longpass1"), text::digest("longpass2"));
}

#[test]
fn email_local_part() {
    assert_eq!(text::email_local("ada.l@site.org"), "ada.l");
    assert_eq!(text::email_local("@site.org"), "");
    assert_eq!(text::email_local("no-sign"), "no-sign");
    assert_eq!(text::email_local("a@b@c"), "a");
}

#[test]
fn number_rendering() {
    assert_eq!(text::dec_string(0), "0");
    assert_eq!(text::dec_string(12345), "12345");
    assert_eq!(text::dec_string(u32::MAX), "4294967295");
    assert_eq!(text::hex_width(0xABCD5678, 8), "ABCD5678");
    assert_eq!(text::hex_width(0x1F, 8), "0000001F");
    assert_eq!(text::hex_width(0, 0), "");
}

#[test]
fn certificate_code_format() {
    // The code truncates the identifier to its low 32 bits.
    assert_eq!(cert_code(0x1234ABCD5678, 7), "YAVIN-ABCD5678-7");
    assert_eq!(cert_code(0, 19700), "YAVIN-00000000-19700");
}

#[test]
fn str_helpers() {
    assert!(text::str_eq("same", "same"));
    assert!(!text::str_eq("same", "sane"));
    assert!(!text::str_eq("same", "sameness"));
    assert!(text::str_contains_char("hello", 'e'));
    assert!(!text::str_contains_char("hello", 'z'));
    assert_eq!(text::find_char("hello", 'l'), Some(2));
    assert_eq!(text::find_char("hello", 'z'), None);
}
