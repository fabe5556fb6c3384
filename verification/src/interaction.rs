//! Clicking the pet: the speech bubble lines and when a bubble hides again.

use vstd::prelude::*;

use crate::text::is_blank;

verus! {

/// How long a speech bubble stays up, in milliseconds.
pub const BUBBLE_DURATION_MS: u64 = 2600;

/// The lines the pet says, in turn.
pub open spec fn interaction_lines() -> Seq<Seq<char>> {
    seq![
        "嗯？我在这里呀 ✦"@,
        "今天也一起待一会儿吧。"@,
        "别戳太快，会痒的……"@,
        "猫猫刚刚好像也看你了。"@,
        "要记得偶尔休息一下哦。"@,
        "星奈收到你的招呼啦 ♡"@,
    ]
}

/// Number of bubble lines.
pub const INTERACTION_LINE_COUNT: usize = 6;

/// The line for the `index`-th click; the lines repeat after the last one.
pub fn interaction_line(index: usize) -> (line: &'static str)
    ensures
        line@ == interaction_lines()[(index % 6) as int],
{
    let i = index % INTERACTION_LINE_COUNT;
    if i == 0 {
        "嗯？我在这里呀 ✦"
    } else if i == 1 {
        "今天也一起待一会儿吧。"
    } else if i == 2 {
        "别戳太快，会痒的……"
    } else if i == 3 {
        "猫猫刚刚好像也看你了。"
    } else if i == 4 {
        "要记得偶尔休息一下哦。"
    } else {
        "星奈收到你的招呼啦 ♡"
    }
}

/// Which line comes next and which bubble is the latest one.
#[derive(Debug, Clone, Copy, PartialEq, Eq, Structural)]
pub struct InteractionBubbles {
    pub next_line: usize,
    pub generation: u64,
}

impl InteractionBubbles {
    pub fn new() -> (b: InteractionBubbles)
        ensures
            b.next_line == 0,
            b.generation == 0,
    {
        InteractionBubbles { next_line: 0, generation: 0 }
    }

    /// A click: returns the index of the line to show and the token of the
    /// new bubble.
    pub fn interact(&mut self) -> (r: (usize, u64))
        ensures
            r.0 == old(self).next_line,
            final(self).next_line == (if old(self).next_line == usize::MAX {
                0
            } else {
                (old(self).next_line + 1) as usize
            }),
            final(self).generation == (if old(self).generation == u64::MAX {
                0
            } else {
                (old(self).generation + 1) as u64
            }),
            r.1 == final(self).generation,
    {
        let index = self.next_line;
        self.next_line = self.next_line.wrapping_add(1);
        self.generation = self.generation.wrapping_add(1);
        (index, self.generation)
    }

    /// When a bubble's time is up it hides only if no newer bubble replaced it.
    pub fn should_hide(&self, token: u64) -> (hide: bool)
        ensures
            hide == (token == self.generation),
    {
        token == self.generation
    }
}

/// The lines repeat with a period of their count.
pub proof fn law_interaction_lines_cycle(index: nat)
    ensures
        interaction_lines()[((index + 6) % 6) as int] == interaction_lines()[(index % 6) as int],
{
}

/// Every line has something to say.
pub proof fn law_interaction_lines_not_blank(i: int)
    requires
        0 <= i < 6,
    ensures
        !is_blank(interaction_lines()[i]),
{
    reveal_strlit("嗯？我在这里呀 ✦");
    reveal_strlit("今天也一起待一会儿吧。");
    reveal_strlit("别戳太快，会痒的……");
    reveal_strlit("猫猫刚刚好像也看你了。");
    reveal_strlit("要记得偶尔休息一下哦。");
    reveal_strlit("星奈收到你的招呼啦 ♡");
    assert(!crate::text::is_unicode_whitespace(interaction_lines()[i][0]));
}

/// After another click, the earlier bubble's timer no longer hides the
/// bubble (short of 2^64 clicks in between).
pub proof fn law_newer_bubble_wins(generation: u64)
    ensures
        (if generation == u64::MAX { 0 } else { (generation + 1) as u64 }) != generation,
{
}

} // verus!
