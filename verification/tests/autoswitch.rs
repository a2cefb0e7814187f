use hyperion_core::autoswitch::{
    contains_ignore_ascii_case, match_rules, match_rules_for_device, rule_matches,
};
use hyperion_core::config::AutoSwitchRule;

fn rule(exe: &str, title: &str, profile: &str) -> AutoSwitchRule {
    AutoSwitchRule {
        device: String::new(),
        exe_substr: exe.to_string(),
        title_substr: title.to_string(),
        profile: profile.to_string(),
    }
}

#[test]
fn contains_ignore_case_basic() {
    assert!(contains_ignore_ascii_case(
        "C:/Games/Valorant.exe",
        "valorant"
    ));
    assert!(contains_ignore_ascii_case("VALORANT", "valorant"));
    assert!(contains_ignore_ascii_case("valorant", "VALORANT"));
    assert!(!contains_ignore_ascii_case("csgo.exe", "valorant"));
    assert!(contains_ignore_ascii_case("anything", ""));
    assert!(!contains_ignore_ascii_case("ab", "abc"));
    assert!(contains_ignore_ascii_case("path/to/app", "app"));
    assert!(contains_ignore_ascii_case("app/path", "app"));
}

#[test]
fn exe_substr_first_match_wins() {
    let rules = [
        rule("game", "", "first"),
        rule("game", "", "second"),
        rule("valorant", "", "third"),
    ];
    assert_eq!(
        match_rules(&rules, "C:/MyGame/game.exe", "Some Window"),
        Some("first")
    );
    assert_eq!(
        match_rules(&rules, "C:/valorant.exe", "Some Window"),
        Some("third")
    );
}

#[test]
fn title_substr_matches() {
    let rules = [rule("", "Counter-Strike", "cs")];
    assert_eq!(
        match_rules(&rules, "C:/steam/csgo.exe", "Counter-Strike 2"),
        Some("cs")
    );
    assert_eq!(match_rules(&rules, "C:/steam/csgo.exe", "Desktop"), None);
}

#[test]
fn case_insensitive_exe_and_title() {
    let rules = [rule("VaLoRaNt", "RIOT", "fps")];
    assert_eq!(
        match_rules(&rules, "c:/riot games/valorant.EXE", "valorant - riot"),
        Some("fps")
    );
}

#[test]
fn both_fields_are_anded() {
    let rules = [rule("game.exe", "Ranked", "ranked")];
    assert_eq!(
        match_rules(&rules, "game.exe", "Ranked Lobby"),
        Some("ranked")
    );
    assert_eq!(match_rules(&rules, "game.exe", "Main Menu"), None);
    assert_eq!(match_rules(&rules, "other.exe", "Ranked Lobby"), None);
}

#[test]
fn no_match_returns_none() {
    let rules = [rule("valorant", "", "fps"), rule("csgo", "", "cs")];
    assert_eq!(
        match_rules(&rules, "C:/desktop/explorer.exe", "Desktop"),
        None
    );
}

#[test]
fn empty_rules_returns_none() {
    let rules: [AutoSwitchRule; 0] = [];
    assert_eq!(match_rules(&rules, "anything.exe", "Any Title"), None);
}

#[test]
fn all_empty_rule_is_inert_not_a_catch_all() {
    let rules = [rule("", "", "ghost"), rule("valorant", "", "fps")];
    assert_eq!(match_rules(&rules, "x.exe", "X"), None);
    assert_eq!(match_rules(&rules, "valorant.exe", "X"), Some("fps"));
}

#[test]
fn per_device_scoping_filters_rules() {
    let mut global = rule("game", "", "global-profile");
    global.device = String::new();
    let mut dev_a = rule("game", "", "a-profile");
    dev_a.device = "padA".to_string();
    let mut dev_b = rule("game", "", "b-profile");
    dev_b.device = "padB".to_string();

    let rules = [global, dev_a, dev_b];
    assert_eq!(
        match_rules_for_device(&rules, "padA", "game.exe", "W"),
        Some("global-profile")
    );

    let rules2 = [rules[1].clone(), rules[2].clone()];
    assert_eq!(
        match_rules_for_device(&rules2, "padA", "game.exe", "W"),
        Some("a-profile")
    );
    assert_eq!(
        match_rules_for_device(&rules2, "padB", "game.exe", "W"),
        Some("b-profile")
    );
    assert_eq!(
        match_rules_for_device(&rules2, "padC", "game.exe", "W"),
        None
    );
}

#[test]
fn returned_str_borrows_profile() {
    let rules = [rule("app", "", "my-profile")];
    let got = match_rules(&rules, "app.exe", "T").unwrap();
    assert_eq!(got, "my-profile");
}

#[test]
fn only_ascii_letters_fold() {
    assert!(contains_ignore_ascii_case("STRASSE", "strasse"));
    assert!(!contains_ignore_ascii_case("\u{c9}COLE", "\u{e9}cole"));
    assert!(contains_ignore_ascii_case("\u{e9}COLE", "\u{e9}cole"));
    assert!(!contains_ignore_ascii_case("[", "{"));
    assert!(!contains_ignore_ascii_case("@", "`"));
    assert!(contains_ignore_ascii_case("", ""));
    assert!(contains_ignore_ascii_case("aab", "ab"));
}

#[test]
fn a_rule_is_tested_alone() {
    assert!(rule_matches(&rule("GAME", "", "p"), "c:/game.exe", "x"));
    assert!(!rule_matches(&rule("", "", "p"), "c:/game.exe", "x"));
    assert!(!rule_matches(&rule("game", "menu", "p"), "c:/game.exe", "x"));
}
