//! Hints that the line editor offers while a command is typed.

use vstd::prelude::*;
use crate::text::{has_prefix, starts_with};

verus! {

/// What a hint is, as a mathematical value.
pub struct HintView {
    pub display: Seq<char>,
    pub complete_up_to: nat,
}

/// A text to show after what was typed, of which the first
/// `complete_up_to` characters may be taken as a completion.
pub struct CommandHint {
    display: String,
    complete_up_to: usize,
}

impl View for CommandHint {
    type V = HintView;

    closed spec fn view(&self) -> HintView {
        HintView { display: self.display@, complete_up_to: self.complete_up_to as nat }
    }
}

/// The hint left once the first `strip` characters are typed.
pub open spec fn suffix_view(h: HintView, strip: nat) -> HintView {
    HintView {
        display: h.display.subrange(strip as int, h.display.len() as int),
        complete_up_to: if h.complete_up_to >= strip {
            (h.complete_up_to - strip) as nat
        } else {
            0
        },
    }
}

/// The hint for `typed` (the text before the cursor, which is at the end of
/// the line): the rest of the first hint that begins with it, if `typed` is
/// not empty.
pub open spec fn hint_spec(hs: Seq<HintView>, typed: Seq<char>) -> Option<HintView>
    decreases hs.len(),
{
    if hs.len() == 0 || typed.len() == 0 {
        None
    } else if has_prefix(hs[0].display, typed) {
        Some(suffix_view(hs[0], typed.len()))
    } else {
        hint_spec(hs.drop_first(), typed)
    }
}

/// The views of a sequence of hints.
pub open spec fn hints_view(hs: Seq<CommandHint>) -> Seq<HintView> {
    hs.map_values(|h: CommandHint| h@)
}

impl CommandHint {
    /// A hint that shows `text`, and completes it once what is typed is as
    /// long as `complete_up_to`, which begins it.
    pub fn new(text: &str, complete_up_to: &str) -> (r: CommandHint)
        requires
            has_prefix(text@, complete_up_to@),
        ensures
            r@ == (HintView { display: text@, complete_up_to: complete_up_to@.len() }),
    {
        CommandHint { display: String::from_str(text), complete_up_to: complete_up_to.unicode_len() }
    }

    /// The hint left once the first `strip_chars` characters are typed.
    pub fn suffix(&self, strip_chars: usize) -> (r: CommandHint)
        requires
            strip_chars <= self@.display.len(),
        ensures
            r@ == suffix_view(self@, strip_chars as nat),
    {
        let n = self.display.as_str().unicode_len();
        CommandHint {
            display: String::from_str(self.display.as_str().substring_char(strip_chars, n)),
            complete_up_to: if self.complete_up_to >= strip_chars {
                self.complete_up_to - strip_chars
            } else {
                0
            },
        }
    }

    /// The text to show.
    pub fn display(&self) -> (r: &str)
        ensures
            r@ == self@.display,
    {
        self.display.as_str()
    }

    /// The text that may be taken as a completion, if any.
    pub fn completion(&self) -> (r: Option<&str>)
        ensures
            r is Some <==> self@.complete_up_to > 0,
            r matches Some(c) ==> c@ == self@.display,
    {
        if self.complete_up_to > 0 {
            Some(self.display.as_str())
        } else {
            None
        }
    }
}

/// The hints for the commands.
pub fn editor_hints() -> (r: Vec<CommandHint>)
    ensures
        hints_view(r@) == seq![
            HintView { display: "add"@, complete_up_to: 1 },
            HintView { display: "group"@, complete_up_to: 1 },
            HintView { display: "remove"@, complete_up_to: 1 },
            HintView { display: "help"@, complete_up_to: 1 },
        ],
{
    proof {
        reveal_strlit("add");
        reveal_strlit("a");
        reveal_strlit("group");
        reveal_strlit("g");
        reveal_strlit("remove");
        reveal_strlit("r");
        reveal_strlit("help");
        reveal_strlit("h");
    }
    assert("add"@.subrange(0, 1) =~= "a"@);
    assert("group"@.subrange(0, 1) =~= "g"@);
    assert("remove"@.subrange(0, 1) =~= "r"@);
    assert("help"@.subrange(0, 1) =~= "h"@);
    let mut hints: Vec<CommandHint> = Vec::new();
    hints.push(CommandHint::new("add", "a"));
    hints.push(CommandHint::new("group", "g"));
    hints.push(CommandHint::new("remove", "r"));
    hints.push(CommandHint::new("help", "h"));
    assert(hints_view(hints@) =~= seq![
        HintView { display: "add"@, complete_up_to: 1 },
        HintView { display: "group"@, complete_up_to: 1 },
        HintView { display: "remove"@, complete_up_to: 1 },
        HintView { display: "help"@, complete_up_to: 1 },
    ]);
    hints
}

/// The hint for `typed`, the text before the cursor when the cursor is at
/// the end of the line.
pub fn hint(hints: &Vec<CommandHint>, typed: &str) -> (r: Option<CommandHint>)
    ensures
        r matches Some(h) ==> hint_spec(hints_view(hints@), typed@) == Some(h@),
        r is None ==> hint_spec(hints_view(hints@), typed@) is None,
{
    let n = typed.unicode_len();
    if n == 0 {
        return None;
    }
    let mut i: usize = 0;
    assert(hints_view(hints@).subrange(0, hints@.len() as int) =~= hints_view(hints@));
    while i < hints.len()
        invariant
            0 <= i <= hints@.len(),
            n == typed@.len(),
            n > 0,
            hint_spec(hints_view(hints@), typed@) == hint_spec(
                hints_view(hints@).subrange(i as int, hints@.len() as int),
                typed@,
            ),
        decreases hints@.len() - i,
    {
        let ghost rest = hints_view(hints@).subrange(i as int, hints@.len() as int);
        assert(rest[0] == hints@[i as int]@);
        assert(rest.drop_first() =~= hints_view(hints@).subrange(i + 1, hints@.len() as int));
        if starts_with(hints[i].display(), typed) {
            return Some(hints[i].suffix(n));
        }
        i = i + 1;
    }
    assert(hints_view(hints@).subrange(i as int, hints@.len() as int).len() == 0);
    None
}

} // verus!
