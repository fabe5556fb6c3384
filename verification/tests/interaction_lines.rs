use sena::interaction::{interaction_line, InteractionBubbles, INTERACTION_LINE_COUNT};

#[test]
fn interaction_lines_cycle_after_last_entry() {
    assert_eq!(interaction_line(0), "嗯？我在这里呀 ✦");
    assert_eq!(interaction_line(INTERACTION_LINE_COUNT), interaction_line(0));
}

#[test]
fn interaction_lines_are_non_empty() {
    assert!((0..INTERACTION_LINE_COUNT).all(|index| !interaction_line(index).trim().is_empty()));
}

#[test]
fn interaction_lines_follow_their_order() {
    assert_eq!(interaction_line(5), "星奈收到你的招呼啦 ♡");
    assert_eq!(interaction_line(13), interaction_line(1));
    assert_eq!(interaction_line(usize::MAX), interaction_line(usize::MAX % 6));
}

#[test]
fn only_the_latest_bubble_hides_itself() {
    let mut bubbles = InteractionBubbles::new();
    let (first_line, first_token) = bubbles.interact();
    let (second_line, second_token) = bubbles.interact();
    assert_eq!((first_line, second_line), (0, 1));
    assert!(!bubbles.should_hide(first_token));
    assert!(bubbles.should_hide(second_token));

    let mut wrapped = InteractionBubbles { next_line: usize::MAX, generation: u64::MAX };
    assert_eq!(wrapped.interact(), (usize::MAX, 0));
    assert_eq!(wrapped.next_line, 0);
}
