use hyperion_core::editor::macros::{
    add_macro, add_step, macro_label, next_free_id, NewStep, StepClicks,
};
use hyperion_core::editor::text::{append_decimal, is_in_use, trim, unique_copy_name};
use hyperion_core::map::{MacroDef, MacroMouseButton, MacroStep};

fn strings(names: &[&str]) -> Vec<String> {
    names.iter().map(|n| n.to_string()).collect()
}

fn named(id: u16, name: &str) -> MacroDef {
    MacroDef { id, name: name.to_string(), repeat: false, steps: vec![] }
}

#[test]
fn numbers_are_written_in_decimal() {
    for n in [0u32, 7, 10, 99, 100, 4096, u32::MAX] {
        let mut s = "n=".to_string();
        append_decimal(&mut s, n);
        assert_eq!(s, format!("n={n}"));
    }
}

#[test]
fn the_first_free_copy_name_is_taken() {
    assert_eq!(unique_copy_name(&strings(&["fps"]), "fps"), "fps copy");
    assert_eq!(unique_copy_name(&strings(&["fps", "fps copy"]), "fps"), "fps copy 2");
    let taken = strings(&["fps", "fps copy", "fps copy 2", "fps copy 4"]);
    assert_eq!(unique_copy_name(&taken, "fps"), "fps copy 3");
    assert!(is_in_use(&taken, &"fps copy 4".to_string()));
    assert!(!is_in_use(&taken, &"fps copy 3".to_string()));
}

#[test]
fn ten_copies_count_on() {
    let mut ids = strings(&["a"]);
    for _ in 0..12 {
        let name = unique_copy_name(&ids, "a");
        ids.push(name);
    }
    assert_eq!(ids.last().unwrap(), "a copy 12");
}

#[test]
fn white_space_goes_from_both_ends() {
    for s in ["", "  ", " a b ", "\t\nx", "x\u{3000}\u{85}", "\u{2003}\u{e9} ", "plain", "\u{200b}z"] {
        assert_eq!(trim(s), s.trim());
        assert_eq!(trim(&trim(s)), trim(s));
    }
}

#[test]
fn macros_are_labelled_by_name_and_number() {
    let list = [named(3, "reload"), named(4, ""), named(3, "other")];
    assert_eq!(macro_label(&list, 3), "reload (#3)");
    assert_eq!(macro_label(&list, 4), "#4");
    assert_eq!(macro_label(&list, 65535), "#65535");
}

#[test]
fn a_new_macro_gets_the_smallest_free_number() {
    assert_eq!(next_free_id(&[]), 0);
    let mut list = vec![named(0, "a"), named(2, "b")];
    assert_eq!(next_free_id(&list), 1);
    let def = add_macro(&mut list);
    assert_eq!(def, MacroDef { id: 1, name: "macro 1".to_string(), repeat: false, steps: vec![] });
    assert_eq!(list.last(), Some(&def));
    assert_eq!(next_free_id(&list), 3);
}

#[test]
fn steps_are_added_moved_and_removed() {
    let mut steps = Vec::new();
    for kind in [NewStep::KeyDown, NewStep::Wait, NewStep::KeyUp] {
        add_step(&mut steps, kind);
    }
    let down = MacroStep::KeyDown { vk: 0x41, scan_code: true };
    let up = MacroStep::KeyUp { vk: 0x41, scan_code: true };
    let wait = MacroStep::Wait { ms: 20 };
    assert_eq!(steps, vec![down, wait, up]);
    let none = StepClicks { remove: None, move_up: None, move_down: None };
    assert!(!none.apply(&mut steps));
    assert!(StepClicks { move_up: Some(2), ..none }.apply(&mut steps));
    assert_eq!(steps, vec![down, up, wait]);
    assert!(StepClicks { move_down: Some(1), ..none }.apply(&mut steps));
    assert_eq!(steps, vec![down, wait, up]);
    let both = StepClicks { remove: Some(0), move_up: Some(1), move_down: None };
    assert!(both.apply(&mut steps));
    assert_eq!(steps, vec![wait, up]);
    add_step(&mut steps, NewStep::MouseDown);
    add_step(&mut steps, NewStep::MouseUp);
    assert_eq!(steps[2], MacroStep::MouseDown(MacroMouseButton::Left));
    assert_eq!(steps[3], MacroStep::MouseUp(MacroMouseButton::Left));
}
