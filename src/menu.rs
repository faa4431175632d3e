use vstd::prelude::*;
use crate::levels::LEVEL_COUNT;

verus! {

/// Level buttons on one page of the level select menu.
pub const LEVELS_PER_PAGE: u16 = 9;

/// The page of the level select menu that is shown.
#[derive(Clone, Copy, Debug, PartialEq, Eq, Structural)]
pub struct LevelSelectPage(pub u16);

/// A button that starts the level with this index.
#[derive(Clone, Copy, Debug, PartialEq, Eq, Structural)]
pub struct LevelButton(pub u16);

/// The buttons that turn the page.
#[derive(Clone, Copy, Debug, PartialEq, Eq, Structural)]
pub enum ArrowButton {
    Forward,
    Backward,
}

/// Every button shows a level of the page.
pub open spec fn buttons_on_page(page: LevelSelectPage, buttons: Seq<LevelButton>) -> bool {
    &&& (page.0 + 1) * LEVELS_PER_PAGE <= u16::MAX
    &&& forall|i: int| 0 <= i < buttons.len() ==> page.0 * LEVELS_PER_PAGE <= (#[trigger] buttons[i]).0
        < (page.0 + 1) * LEVELS_PER_PAGE
}

/// The buttons moved by `delta` levels.
pub open spec fn shifted(buttons: Seq<LevelButton>, delta: int) -> Seq<LevelButton> {
    Seq::new(buttons.len(), |i: int| LevelButton((buttons[i].0 + delta) as u16))
}

/// The buttons of the first page: one for each existing level among the
/// first nine, in order.
pub fn first_page_buttons() -> (r: Vec<LevelButton>)
    ensures
        r@.len() == if LEVEL_COUNT < LEVELS_PER_PAGE { LEVEL_COUNT } else { LEVELS_PER_PAGE },
        forall|i: int| 0 <= i < r@.len() ==> (#[trigger] r@[i]).0 == i,
        buttons_on_page(LevelSelectPage(0), r@),
{
    let n: u16 = if LEVEL_COUNT < LEVELS_PER_PAGE { LEVEL_COUNT } else { LEVELS_PER_PAGE };
    let mut r: Vec<LevelButton> = Vec::new();
    let mut i: u16 = 0;
    while i < n
        invariant
            i <= n,
            n <= LEVELS_PER_PAGE,
            r@.len() == i,
            forall|k: int| 0 <= k < i ==> (#[trigger] r@[k]).0 == k,
        decreases n - i,
    {
        r.push(LevelButton(i));
        i += 1;
    }
    r
}

/// Turns the page. Forward only where the next page starts at an existing
/// level, backward only from a page after the first; the level buttons move
/// with the page. Returns whether the page turned.
pub fn arrow_button_system(page: &mut LevelSelectPage, button: ArrowButton, level_buttons: &mut Vec<LevelButton>) -> (turned: bool)
    requires
        buttons_on_page(*old(page), old(level_buttons)@),
    ensures
        turned == match button {
            ArrowButton::Forward => (old(page).0 + 1) * LEVELS_PER_PAGE < LEVEL_COUNT,
            ArrowButton::Backward => old(page).0 > 0,
        },
        !turned ==> *final(page) == *old(page) && final(level_buttons)@ == old(level_buttons)@,
        turned ==> match button {
            ArrowButton::Forward => final(page).0 == old(page).0 + 1
                && final(level_buttons)@ == shifted(old(level_buttons)@, LEVELS_PER_PAGE as int),
            ArrowButton::Backward => final(page).0 == old(page).0 - 1
                && final(level_buttons)@ == shifted(old(level_buttons)@, -(LEVELS_PER_PAGE as int)),
        },
        buttons_on_page(*final(page), final(level_buttons)@),
{
    let forward = match button {
        ArrowButton::Forward => true,
        ArrowButton::Backward => false,
    };
    if forward {
        if (page.0 + 1) * LEVELS_PER_PAGE >= LEVEL_COUNT {
            return false;
        }
        page.0 = page.0 + 1;
    } else {
        if page.0 == 0 {
            return false;
        }
        page.0 = page.0 - 1;
    }
    let ghost before = level_buttons@;
    let mut i: usize = 0;
    while i < level_buttons.len()
        invariant
            i <= level_buttons@.len(),
            level_buttons@.len() == before.len(),
            buttons_on_page(*old(page), before),
            forward ==> (old(page).0 + 1) * LEVELS_PER_PAGE < LEVEL_COUNT,
            !forward ==> old(page).0 > 0,
            forall|k: int| 0 <= k < i ==> #[trigger] level_buttons@[k] == LevelButton(
                (before[k].0 + if forward { LEVELS_PER_PAGE as int } else { -(LEVELS_PER_PAGE as int) }) as u16,
            ),
            forall|k: int| i <= k < level_buttons@.len() ==> #[trigger] level_buttons@[k] == before[k],
        decreases level_buttons.len() - i,
    {
        let b = level_buttons[i].0;
        assert(old(page).0 * LEVELS_PER_PAGE <= before[i as int].0 < (old(page).0 + 1) * LEVELS_PER_PAGE);
        let moved = if forward { b + LEVELS_PER_PAGE } else { b - LEVELS_PER_PAGE };
        level_buttons.set(i, LevelButton(moved));
        i += 1;
    }
    if forward {
        assert(level_buttons@ =~= shifted(before, LEVELS_PER_PAGE as int));
    } else {
        assert(level_buttons@ =~= shifted(before, -(LEVELS_PER_PAGE as int)));
    }
    true
}

} // verus!
