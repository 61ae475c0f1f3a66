//! Quick tasks: one-shot orders given to every bot of the swarm at once.

use vstd::prelude::*;
use crate::text::text_eq;
use crate::inventory::Menu;
use crate::movement::WalkDirection;
use crate::stealer::BlockPos;

verus! {

/// The quick tasks.
#[derive(Clone, Copy, Debug, PartialEq, Eq, Structural)]
pub enum QuickTask {
    ClearInventory,
    MoveForward,
    MoveBackward,
    MoveLeft,
    MoveRight,
    Jump,
    Shift,
    Quit,
    Fly,
    Rise,
    Capsule,
    Unite,
    Turn,
    Zero,
    FormCircle,
    FormLine,
    PathfinderStop,
}

/// The quick task a name gives.
pub open spec fn quick_task_spec(name: Seq<char>) -> Option<QuickTask> {
    if name == "clear-inventory"@ {
        Some(QuickTask::ClearInventory)
    } else if name == "move-forward"@ {
        Some(QuickTask::MoveForward)
    } else if name == "move-backward"@ {
        Some(QuickTask::MoveBackward)
    } else if name == "move-left"@ {
        Some(QuickTask::MoveLeft)
    } else if name == "move-right"@ {
        Some(QuickTask::MoveRight)
    } else if name == "jump"@ {
        Some(QuickTask::Jump)
    } else if name == "shift"@ {
        Some(QuickTask::Shift)
    } else if name == "quit"@ {
        Some(QuickTask::Quit)
    } else if name == "fly"@ {
        Some(QuickTask::Fly)
    } else if name == "rise"@ {
        Some(QuickTask::Rise)
    } else if name == "capsule"@ {
        Some(QuickTask::Capsule)
    } else if name == "unite"@ {
        Some(QuickTask::Unite)
    } else if name == "turn"@ {
        Some(QuickTask::Turn)
    } else if name == "zero"@ {
        Some(QuickTask::Zero)
    } else if name == "form-circle"@ {
        Some(QuickTask::FormCircle)
    } else if name == "form-line"@ {
        Some(QuickTask::FormLine)
    } else if name == "pathfinder-stop"@ {
        Some(QuickTask::PathfinderStop)
    } else {
        None
    }
}

/// `v + d` held within the range of `i32`.
pub open spec fn shifted(v: i32, d: int) -> i32 {
    if v + d > i32::MAX {
        i32::MAX
    } else if v + d < i32::MIN {
        i32::MIN
    } else {
        (v + d) as i32
    }
}

/// The block `(dx, dy, dz)` away from `b`, held within the range of `i32`.
pub open spec fn offset(b: BlockPos, dx: int, dy: int, dz: int) -> BlockPos {
    BlockPos { x: shifted(b.x, dx), y: shifted(b.y, dy), z: shifted(b.z, dz) }
}

/// The ten blocks of the capsule around a bot standing at block `b`: the
/// four sides at foot level, the four sides at head level, then one side
/// and the block right above the head.
pub open spec fn capsule_blocks_spec(b: BlockPos) -> Seq<BlockPos> {
    seq![
        offset(b, -1, 0, 0),
        offset(b, 1, 0, 0),
        offset(b, 0, 0, -1),
        offset(b, 0, 0, 1),
        offset(b, -1, 1, 0),
        offset(b, 1, 1, 0),
        offset(b, 0, 1, -1),
        offset(b, 0, 1, 1),
        offset(b, -1, 2, 0),
        offset(b, 0, 2, 0),
    ]
}

/// `v + d`, held within the range of `i32`.
fn shift(v: i32, d: i32) -> (res: i32)
    requires
        -2 <= d <= 2,
    ensures
        res == shifted(v, d as int),
{
    let w: i64 = v as i64 + d as i64;
    if w > i32::MAX as i64 {
        i32::MAX
    } else if w < i32::MIN as i64 {
        i32::MIN
    } else {
        w as i32
    }
}

/// The block `(dx, dy, dz)` away from `b`.
fn offset_block(b: BlockPos, dx: i32, dy: i32, dz: i32) -> (res: BlockPos)
    requires
        -2 <= dx <= 2,
        -2 <= dy <= 2,
        -2 <= dz <= 2,
    ensures
        res == offset(b, dx as int, dy as int, dz as int),
{
    BlockPos { x: shift(b.x, dx), y: shift(b.y, dy), z: shift(b.z, dz) }
}

/// One step of building the capsule.
#[derive(Clone, Copy, Debug, PartialEq, Eq, Structural)]
pub enum CapsuleAction {
    /// Wait a random number of ticks in `min..=max`.
    WaitTicks { min: u64, max: u64 },
    Jump,
    Crouch,
    Uncrouch,
    LookAt(BlockPos),
    SwingArm,
    PlaceAt(BlockPos),
}

/// The steps for the `count`-th block (counting from 1) placed at `pos`:
/// before the ninth the bot jumps and crouches, before the tenth it waits
/// and after the tenth it stands up again.
pub open spec fn capsule_round_spec(count: u8, pos: BlockPos) -> Seq<CapsuleAction> {
    (if count == 10 {
        seq![CapsuleAction::WaitTicks { min: 4, max: 5 }]
    } else {
        seq![]
    }) + (if count == 9 {
        seq![
            CapsuleAction::Jump,
            CapsuleAction::WaitTicks { min: 1, max: 1 },
            CapsuleAction::Crouch,
            CapsuleAction::WaitTicks { min: 2, max: 3 },
        ]
    } else {
        seq![]
    }) + seq![
        CapsuleAction::LookAt(pos),
        CapsuleAction::WaitTicks { min: 1, max: 2 },
        CapsuleAction::SwingArm,
        CapsuleAction::PlaceAt(pos),
    ] + (if count == 10 {
        seq![CapsuleAction::Uncrouch]
    } else {
        seq![]
    }) + seq![CapsuleAction::WaitTicks { min: 2, max: 3 }]
}

/// Every round looks at its block and then places it, once; only the ninth
/// round jumps and crouches, only the tenth stands up again, and every round
/// ends with a wait.
pub proof fn lemma_capsule_round(count: u8, pos: BlockPos)
    ensures
        ({
            let r = capsule_round_spec(count, pos);
            &&& exists|i: int, j: int|
                0 <= i < j < r.len() && r[i] == CapsuleAction::LookAt(pos) && r[j]
                    == CapsuleAction::PlaceAt(pos) && forall|k: int|
                    0 <= k < r.len() && k != j ==> r[k] != CapsuleAction::PlaceAt(pos)
            &&& r.contains(CapsuleAction::Jump) == (count == 9)
            &&& r.contains(CapsuleAction::Crouch) == (count == 9)
            &&& r.contains(CapsuleAction::Uncrouch) == (count == 10)
            &&& r.last() == CapsuleAction::WaitTicks { min: 2, max: 3 }
        }),
{
    let r = capsule_round_spec(count, pos);
    let pre: int = (if count == 10 { 1int } else { 0 }) + (if count == 9 { 4int } else { 0 });
    assert(r[pre] == CapsuleAction::LookAt(pos));
    assert(r[pre + 3] == CapsuleAction::PlaceAt(pos));
    assert forall|k: int| 0 <= k < r.len() && k != pre + 3 implies r[k] != CapsuleAction::PlaceAt(pos) by {}
    if count == 9 {
        assert(r[0] == CapsuleAction::Jump);
        assert(r[2] == CapsuleAction::Crouch);
    } else {
        assert forall|k: int| 0 <= k < r.len() implies r[k] != CapsuleAction::Jump && r[k]
            != CapsuleAction::Crouch by {}
    }
    if count == 10 {
        assert(r[5] == CapsuleAction::Uncrouch);
    } else {
        assert forall|k: int| 0 <= k < r.len() implies r[k] != CapsuleAction::Uncrouch by {}
    }
}

/// Every capsule block touches the bot's column: it is one block beside the
/// bot at foot or head level or beside/above the head, never farther.
pub proof fn lemma_capsule_hugs_bot(b: BlockPos)
    requires
        i32::MIN < b.x < i32::MAX,
        b.y < i32::MAX - 1,
        i32::MIN < b.z < i32::MAX,
    ensures
        forall|i: int|
            0 <= i < 10 ==> {
                let p = #[trigger] capsule_blocks_spec(b)[i];
                &&& b.y <= p.y <= b.y + 2
                &&& -1 <= p.x - b.x <= 1
                &&& -1 <= p.z - b.z <= 1
                &&& (p.x == b.x || p.z == b.z)
                &&& (p.x != b.x || p.z != b.z || p.y == b.y + 2)
            },
{
    let s = capsule_blocks_spec(b);
    assert(s.len() == 10);
    assert forall|i: int| 0 <= i < 10 implies {
        let p = #[trigger] s[i];
        &&& b.y <= p.y <= b.y + 2
        &&& -1 <= p.x - b.x <= 1
        &&& -1 <= p.z - b.z <= 1
        &&& (p.x == b.x || p.z == b.z)
        &&& (p.x != b.x || p.z != b.z || p.y == b.y + 2)
    } by {
        if i == 0 {
        } else if i == 1 {
        } else if i == 2 {
        } else if i == 3 {
        } else if i == 4 {
        } else if i == 5 {
        } else if i == 6 {
        } else if i == 7 {
        } else if i == 8 {
        } else {
        }
    }
}

/// `slots` are the slots "clear-inventory" throws out of `menu`: each of
/// slots 0 to 48 that the menu has and that holds items, once, in order.
pub open spec fn is_clear_list(menu: Menu, slots: Seq<u16>) -> bool {
    &&& forall|k: int|
        0 <= k < slots.len() ==> slots[k] <= 48 && menu.filled_at(#[trigger] slots[k] as int)
    &&& forall|s: int| 0 <= s <= 48 && menu.filled_at(s) ==> slots.contains(s as u16)
    &&& forall|a: int, b: int| 0 <= a < b < slots.len() ==> #[trigger] slots[a] < #[trigger] slots[b]
}

/// The slots thrown out of a bot whose menu may be unknown: none without a
/// menu.
pub open spec fn bot_clear_list(menu: Option<Menu>, slots: Seq<u16>) -> bool {
    match menu {
        Some(m) => is_clear_list(m, slots),
        None => slots.len() == 0,
    }
}

/// The steps of the first `k` capsule blocks of `blocks`, block after block.
pub open spec fn capsule_rounds(blocks: Seq<BlockPos>, k: nat) -> Seq<CapsuleAction>
    decreases k,
{
    if k == 0 {
        seq![]
    } else {
        capsule_rounds(blocks, (k - 1) as nat) + capsule_round_spec(k as u8, blocks[k - 1])
    }
}

/// All steps of building the capsule around a bot standing at block `b`.
pub open spec fn capsule_plan_spec(b: BlockPos) -> Seq<CapsuleAction> {
    capsule_rounds(capsule_blocks_spec(b), 10)
}

/// What a bot brings to a quick task: its open menu, if known, and the
/// block it stands at.
pub struct QuickBot {
    pub menu: Option<Menu>,
    pub block: BlockPos,
}

/// A key held for a while by a quick task.
#[derive(Clone, Copy, Debug, PartialEq, Eq, Structural)]
pub enum HoldAction {
    Walk(WalkDirection),
    Crouch,
}

/// What a quick task does with the swarm's bots.
#[derive(Debug, PartialEq)]
pub enum QuickPlan {
    /// Throw out, for each bot in order, the stacks in its slots.
    Throw { slots: Vec<Vec<u16>> },
    /// Every bot starts `action` (walking, or crouching) and ends it
    /// `millis` milliseconds later.
    Hold { action: HoldAction, millis: u64 },
    /// Every bot runs its own list of capsule steps.
    Capsule { steps: Vec<Vec<CapsuleAction>> },
    /// A task done by one call on each bot (jump, quit, zero, stop
    /// path-finding) or by float geometry (fly, rise, turn, unite and the
    /// formations).
    Other(QuickTask),
}

/// The key a move or shift task holds, and for how long.
pub open spec fn hold_spec(task: QuickTask) -> Option<(HoldAction, u64)> {
    match task {
        QuickTask::MoveForward => Some((HoldAction::Walk(WalkDirection::Forward), 100u64)),
        QuickTask::MoveBackward => Some((HoldAction::Walk(WalkDirection::Backward), 100u64)),
        QuickTask::MoveLeft => Some((HoldAction::Walk(WalkDirection::Left), 100u64)),
        QuickTask::MoveRight => Some((HoldAction::Walk(WalkDirection::Right), 100u64)),
        QuickTask::Shift => Some((HoldAction::Crouch, 200u64)),
        _ => None,
    }
}

/// Each quick task name gives its own task.
pub proof fn lemma_quick_names()
    ensures
        quick_task_spec("clear-inventory"@) == Some(QuickTask::ClearInventory),
        quick_task_spec("move-forward"@) == Some(QuickTask::MoveForward),
        quick_task_spec("move-backward"@) == Some(QuickTask::MoveBackward),
        quick_task_spec("move-left"@) == Some(QuickTask::MoveLeft),
        quick_task_spec("move-right"@) == Some(QuickTask::MoveRight),
        quick_task_spec("jump"@) == Some(QuickTask::Jump),
        quick_task_spec("shift"@) == Some(QuickTask::Shift),
        quick_task_spec("quit"@) == Some(QuickTask::Quit),
        quick_task_spec("fly"@) == Some(QuickTask::Fly),
        quick_task_spec("rise"@) == Some(QuickTask::Rise),
        quick_task_spec("capsule"@) == Some(QuickTask::Capsule),
        quick_task_spec("unite"@) == Some(QuickTask::Unite),
        quick_task_spec("turn"@) == Some(QuickTask::Turn),
        quick_task_spec("zero"@) == Some(QuickTask::Zero),
        quick_task_spec("form-circle"@) == Some(QuickTask::FormCircle),
        quick_task_spec("form-line"@) == Some(QuickTask::FormLine),
        quick_task_spec("pathfinder-stop"@) == Some(QuickTask::PathfinderStop),
{
    reveal_strlit("clear-inventory");
    reveal_strlit("move-forward");
    reveal_strlit("move-backward");
    reveal_strlit("move-left");
    reveal_strlit("move-right");
    reveal_strlit("jump");
    reveal_strlit("shift");
    reveal_strlit("quit");
    reveal_strlit("fly");
    reveal_strlit("rise");
    reveal_strlit("capsule");
    reveal_strlit("unite");
    reveal_strlit("turn");
    reveal_strlit("zero");
    reveal_strlit("form-circle");
    reveal_strlit("form-line");
    reveal_strlit("pathfinder-stop");
    assert("move-forward"@[0] != "clear-inventory"@[0]);
    assert("move-backward"@[0] != "clear-inventory"@[0]);
    assert("move-backward"@[5] != "move-forward"@[5]);
    assert("move-left"@[0] != "clear-inventory"@[0]);
    assert("move-left"@[5] != "move-forward"@[5]);
    assert("move-left"@[5] != "move-backward"@[5]);
    assert("move-right"@[0] != "clear-inventory"@[0]);
    assert("move-right"@[5] != "move-forward"@[5]);
    assert("move-right"@[5] != "move-backward"@[5]);
    assert("move-right"@[5] != "move-left"@[5]);
    assert("jump"@[0] != "clear-inventory"@[0]);
    assert("jump"@[0] != "move-forward"@[0]);
    assert("jump"@[0] != "move-backward"@[0]);
    assert("jump"@[0] != "move-left"@[0]);
    assert("jump"@[0] != "move-right"@[0]);
    assert("shift"@[0] != "clear-inventory"@[0]);
    assert("shift"@[0] != "move-forward"@[0]);
    assert("shift"@[0] != "move-backward"@[0]);
    assert("shift"@[0] != "move-left"@[0]);
    assert("shift"@[0] != "move-right"@[0]);
    assert("shift"@[0] != "jump"@[0]);
    assert("quit"@[0] != "clear-inventory"@[0]);
    assert("quit"@[0] != "move-forward"@[0]);
    assert("quit"@[0] != "move-backward"@[0]);
    assert("quit"@[0] != "move-left"@[0]);
    assert("quit"@[0] != "move-right"@[0]);
    assert("quit"@[0] != "jump"@[0]);
    assert("quit"@[0] != "shift"@[0]);
    assert("fly"@[0] != "clear-inventory"@[0]);
    assert("fly"@[0] != "move-forward"@[0]);
    assert("fly"@[0] != "move-backward"@[0]);
    assert("fly"@[0] != "move-left"@[0]);
    assert("fly"@[0] != "move-right"@[0]);
    assert("fly"@[0] != "jump"@[0]);
    assert("fly"@[0] != "shift"@[0]);
    assert("fly"@[0] != "quit"@[0]);
    assert("rise"@[0] != "clear-inventory"@[0]);
    assert("rise"@[0] != "move-forward"@[0]);
    assert("rise"@[0] != "move-backward"@[0]);
    assert("rise"@[0] != "move-left"@[0]);
    assert("rise"@[0] != "move-right"@[0]);
    assert("rise"@[0] != "jump"@[0]);
    assert("rise"@[0] != "shift"@[0]);
    assert("rise"@[0] != "quit"@[0]);
    assert("rise"@[0] != "fly"@[0]);
    assert("capsule"@[1] != "clear-inventory"@[1]);
    assert("capsule"@[0] != "move-forward"@[0]);
    assert("capsule"@[0] != "move-backward"@[0]);
    assert("capsule"@[0] != "move-left"@[0]);
    assert("capsule"@[0] != "move-right"@[0]);
    assert("capsule"@[0] != "jump"@[0]);
    assert("capsule"@[0] != "shift"@[0]);
    assert("capsule"@[0] != "quit"@[0]);
    assert("capsule"@[0] != "fly"@[0]);
    assert("capsule"@[0] != "rise"@[0]);
    assert("unite"@[0] != "clear-inventory"@[0]);
    assert("unite"@[0] != "move-forward"@[0]);
    assert("unite"@[0] != "move-backward"@[0]);
    assert("unite"@[0] != "move-left"@[0]);
    assert("unite"@[0] != "move-right"@[0]);
    assert("unite"@[0] != "jump"@[0]);
    assert("unite"@[0] != "shift"@[0]);
    assert("unite"@[0] != "quit"@[0]);
    assert("unite"@[0] != "fly"@[0]);
    assert("unite"@[0] != "rise"@[0]);
    assert("unite"@[0] != "capsule"@[0]);
    assert("turn"@[0] != "clear-inventory"@[0]);
    assert("turn"@[0] != "move-forward"@[0]);
    assert("turn"@[0] != "move-backward"@[0]);
    assert("turn"@[0] != "move-left"@[0]);
    assert("turn"@[0] != "move-right"@[0]);
    assert("turn"@[0] != "jump"@[0]);
    assert("turn"@[0] != "shift"@[0]);
    assert("turn"@[0] != "quit"@[0]);
    assert("turn"@[0] != "fly"@[0]);
    assert("turn"@[0] != "rise"@[0]);
    assert("turn"@[0] != "capsule"@[0]);
    assert("turn"@[0] != "unite"@[0]);
    assert("zero"@[0] != "clear-inventory"@[0]);
    assert("zero"@[0] != "move-forward"@[0]);
    assert("zero"@[0] != "move-backward"@[0]);
    assert("zero"@[0] != "move-left"@[0]);
    assert("zero"@[0] != "move-right"@[0]);
    assert("zero"@[0] != "jump"@[0]);
    assert("zero"@[0] != "shift"@[0]);
    assert("zero"@[0] != "quit"@[0]);
    assert("zero"@[0] != "fly"@[0]);
    assert("zero"@[0] != "rise"@[0]);
    assert("zero"@[0] != "capsule"@[0]);
    assert("zero"@[0] != "unite"@[0]);
    assert("zero"@[0] != "turn"@[0]);
    assert("form-circle"@[0] != "clear-inventory"@[0]);
    assert("form-circle"@[0] != "move-forward"@[0]);
    assert("form-circle"@[0] != "move-backward"@[0]);
    assert("form-circle"@[0] != "move-left"@[0]);
    assert("form-circle"@[0] != "move-right"@[0]);
    assert("form-circle"@[0] != "jump"@[0]);
    assert("form-circle"@[0] != "shift"@[0]);
    assert("form-circle"@[0] != "quit"@[0]);
    assert("form-circle"@[1] != "fly"@[1]);
    assert("form-circle"@[0] != "rise"@[0]);
    assert("form-circle"@[0] != "capsule"@[0]);
    assert("form-circle"@[0] != "unite"@[0]);
    assert("form-circle"@[0] != "turn"@[0]);
    assert("form-circle"@[0] != "zero"@[0]);
    assert("form-line"@[0] != "clear-inventory"@[0]);
    assert("form-line"@[0] != "move-forward"@[0]);
    assert("form-line"@[0] != "move-backward"@[0]);
    assert("form-line"@[0] != "move-left"@[0]);
    assert("form-line"@[0] != "move-right"@[0]);
    assert("form-line"@[0] != "jump"@[0]);
    assert("form-line"@[0] != "shift"@[0]);
    assert("form-line"@[0] != "quit"@[0]);
    assert("form-line"@[1] != "fly"@[1]);
    assert("form-line"@[0] != "rise"@[0]);
    assert("form-line"@[0] != "capsule"@[0]);
    assert("form-line"@[0] != "unite"@[0]);
    assert("form-line"@[0] != "turn"@[0]);
    assert("form-line"@[0] != "zero"@[0]);
    assert("form-line"@[5] != "form-circle"@[5]);
    assert("pathfinder-stop"@[0] != "clear-inventory"@[0]);
    assert("pathfinder-stop"@[0] != "move-forward"@[0]);
    assert("pathfinder-stop"@[0] != "move-backward"@[0]);
    assert("pathfinder-stop"@[0] != "move-left"@[0]);
    assert("pathfinder-stop"@[0] != "move-right"@[0]);
    assert("pathfinder-stop"@[0] != "jump"@[0]);
    assert("pathfinder-stop"@[0] != "shift"@[0]);
    assert("pathfinder-stop"@[0] != "quit"@[0]);
    assert("pathfinder-stop"@[0] != "fly"@[0]);
    assert("pathfinder-stop"@[0] != "rise"@[0]);
    assert("pathfinder-stop"@[0] != "capsule"@[0]);
    assert("pathfinder-stop"@[0] != "unite"@[0]);
    assert("pathfinder-stop"@[0] != "turn"@[0]);
    assert("pathfinder-stop"@[0] != "zero"@[0]);
    assert("pathfinder-stop"@[0] != "form-circle"@[0]);
    assert("pathfinder-stop"@[0] != "form-line"@[0]);
}

/// A move task walks in the direction its name says, and shift crouches;
/// both hold their key briefly (100 ms to walk, 200 ms to crouch) and let go,
/// and no other task holds a key.
pub proof fn lemma_hold_keys(task: QuickTask)
    ensures
        quick_task_spec("move-forward"@) matches Some(t) && hold_spec(t) == Some(
            (HoldAction::Walk(WalkDirection::Forward), 100u64),
        ),
        quick_task_spec("move-backward"@) matches Some(t) && hold_spec(t) == Some(
            (HoldAction::Walk(WalkDirection::Backward), 100u64),
        ),
        quick_task_spec("move-left"@) matches Some(t) && hold_spec(t) == Some(
            (HoldAction::Walk(WalkDirection::Left), 100u64),
        ),
        quick_task_spec("move-right"@) matches Some(t) && hold_spec(t) == Some(
            (HoldAction::Walk(WalkDirection::Right), 100u64),
        ),
        quick_task_spec("shift"@) matches Some(t) && hold_spec(t) == Some((HoldAction::Crouch, 200u64)),
        hold_spec(task) matches Some((action, millis)) ==> 0 < millis <= 200 && ((action is Crouch)
            == (task == QuickTask::Shift)),
        hold_spec(task) is None ==> !(task == QuickTask::MoveForward || task == QuickTask::MoveBackward
            || task == QuickTask::MoveLeft || task == QuickTask::MoveRight || task == QuickTask::Shift),
{
    lemma_quick_names();
}

/// The plan of quick task `task` for `bots`.
pub open spec fn quick_plan_ok(task: QuickTask, bots: Seq<QuickBot>, plan: QuickPlan) -> bool {
    match task {
        QuickTask::ClearInventory => plan matches QuickPlan::Throw { slots } && slots@.len()
            == bots.len() && forall|i: int|
            0 <= i < bots.len() ==> bot_clear_list(bots[i].menu, (#[trigger] slots@[i])@),
        QuickTask::Capsule => plan matches QuickPlan::Capsule { steps } && steps@.len()
            == bots.len() && forall|i: int|
            0 <= i < bots.len() ==> (#[trigger] steps@[i])@ == capsule_plan_spec(bots[i].block),
        _ => match hold_spec(task) {
            Some((action, millis)) => plan == QuickPlan::Hold { action, millis },
            None => plan == QuickPlan::Other(task),
        },
    }
}

/// The quick task manager.
pub struct QuickTaskManager;

impl QuickTaskManager {
    /// The quick task a name gives.
    pub fn task_of(name: &str) -> (res: Option<QuickTask>)
        ensures
            res == quick_task_spec(name@),
    {
        if text_eq(name, "clear-inventory") {
            Some(QuickTask::ClearInventory)
        } else if text_eq(name, "move-forward") {
            Some(QuickTask::MoveForward)
        } else if text_eq(name, "move-backward") {
            Some(QuickTask::MoveBackward)
        } else if text_eq(name, "move-left") {
            Some(QuickTask::MoveLeft)
        } else if text_eq(name, "move-right") {
            Some(QuickTask::MoveRight)
        } else if text_eq(name, "jump") {
            Some(QuickTask::Jump)
        } else if text_eq(name, "shift") {
            Some(QuickTask::Shift)
        } else if text_eq(name, "quit") {
            Some(QuickTask::Quit)
        } else if text_eq(name, "fly") {
            Some(QuickTask::Fly)
        } else if text_eq(name, "rise") {
            Some(QuickTask::Rise)
        } else if text_eq(name, "capsule") {
            Some(QuickTask::Capsule)
        } else if text_eq(name, "unite") {
            Some(QuickTask::Unite)
        } else if text_eq(name, "turn") {
            Some(QuickTask::Turn)
        } else if text_eq(name, "zero") {
            Some(QuickTask::Zero)
        } else if text_eq(name, "form-circle") {
            Some(QuickTask::FormCircle)
        } else if text_eq(name, "form-line") {
            Some(QuickTask::FormLine)
        } else if text_eq(name, "pathfinder-stop") {
            Some(QuickTask::PathfinderStop)
        } else {
            None
        }
    }

    /// What quick task `name` does with `bots`: nothing with no bots or an
    /// unknown name; otherwise the slots each bot throws out, the key held
    /// and for how long, each bot's capsule steps, or the task itself.
    pub fn execute(name: &str, bots: &Vec<QuickBot>) -> (res: Option<QuickPlan>)
        ensures
            bots@.len() == 0 ==> res is None,
            bots@.len() > 0 ==> match quick_task_spec(name@) {
                None => res is None,
                Some(task) => res matches Some(plan) && quick_plan_ok(task, bots@, plan),
            },
    {
        if bots.len() == 0 {
            return None;
        }
        let task = match Self::task_of(name) {
            Some(t) => t,
            None => return None,
        };
        let n: usize = bots.len();
        match task {
            QuickTask::ClearInventory => {
                let mut slots: Vec<Vec<u16>> = Vec::new();
                let mut i: usize = 0;
                while i < n
                    invariant
                        n == bots@.len(),
                        i <= n,
                        slots@.len() == i,
                        forall|j: int|
                            0 <= j < i ==> bot_clear_list(bots@[j].menu, (#[trigger] slots@[j])@),
                    decreases n - i,
                {
                    let bot_slots = match &bots[i].menu {
                        Some(menu) => Self::clear_inventory_slots(menu),
                        None => Vec::new(),
                    };
                    slots.push(bot_slots);
                    i = i + 1;
                }
                Some(QuickPlan::Throw { slots })
            },
            QuickTask::Capsule => {
                let mut steps: Vec<Vec<CapsuleAction>> = Vec::new();
                let mut i: usize = 0;
                while i < n
                    invariant
                        n == bots@.len(),
                        i <= n,
                        steps@.len() == i,
                        forall|j: int|
                            0 <= j < i ==> (#[trigger] steps@[j])@ == capsule_plan_spec(
                                bots@[j].block,
                            ),
                    decreases n - i,
                {
                    steps.push(Self::capsule_plan(bots[i].block));
                    i = i + 1;
                }
                Some(QuickPlan::Capsule { steps })
            },
            _ => {
                let millis = Self::hold_millis(task);
                match millis {
                    Some(ms) => {
                        let action = match Self::walk_direction(task) {
                            Some(d) => HoldAction::Walk(d),
                            None => HoldAction::Crouch,
                        };
                        Some(QuickPlan::Hold { action, millis: ms })
                    },
                    None => Some(QuickPlan::Other(task)),
                }
            },
        }
    }

    /// All steps of building the capsule around a bot standing at block `b`.
    pub fn capsule_plan(b: BlockPos) -> (res: Vec<CapsuleAction>)
        ensures
            res@ == capsule_plan_spec(b),
    {
        let blocks = Self::capsule_blocks(b);
        let mut steps: Vec<CapsuleAction> = Vec::new();
        let mut i: usize = 0;
        while i < 10
            invariant
                blocks@ == capsule_blocks_spec(b),
                i <= 10,
                steps@ == capsule_rounds(blocks@, i as nat),
            decreases 10 - i,
        {
            let mut round = Self::capsule_round((i + 1) as u8, blocks[i]);
            steps.append(&mut round);
            i = i + 1;
        }
        steps
    }

    /// The direction of a move task, walked for 100 ms.
    pub fn walk_direction(task: QuickTask) -> (res: Option<WalkDirection>)
        ensures
            res == (match task {
                QuickTask::MoveForward => Some(WalkDirection::Forward),
                QuickTask::MoveBackward => Some(WalkDirection::Backward),
                QuickTask::MoveLeft => Some(WalkDirection::Left),
                QuickTask::MoveRight => Some(WalkDirection::Right),
                _ => None,
            }),
    {
        match task {
            QuickTask::MoveForward => Some(WalkDirection::Forward),
            QuickTask::MoveBackward => Some(WalkDirection::Backward),
            QuickTask::MoveLeft => Some(WalkDirection::Left),
            QuickTask::MoveRight => Some(WalkDirection::Right),
            _ => None,
        }
    }

    /// How long a move or shift task holds its key, in milliseconds.
    pub fn hold_millis(task: QuickTask) -> (res: Option<u64>)
        ensures
            res == (match task {
                QuickTask::MoveForward | QuickTask::MoveBackward | QuickTask::MoveLeft
                | QuickTask::MoveRight => Some(100u64),
                QuickTask::Shift => Some(200u64),
                _ => None,
            }),
    {
        match task {
            QuickTask::MoveForward | QuickTask::MoveBackward | QuickTask::MoveLeft
            | QuickTask::MoveRight => Some(100),
            QuickTask::Shift => Some(200),
            _ => None,
        }
    }

    /// The slots that "clear-inventory" throws out: each of slots 0 to 48
    /// that the menu has and that holds items, in order.
    pub fn clear_inventory_slots(menu: &Menu) -> (res: Vec<u16>)
        ensures
            is_clear_list(*menu, res@),
    {
        let mut slots: Vec<u16> = Vec::new();
        let mut slot: u16 = 0;
        while slot <= 48
            invariant
                slot <= 49,
                forall|k: int|
                    0 <= k < slots@.len() ==> #[trigger] slots@[k] < slot && menu.filled_at(
                        slots@[k] as int,
                    ),
                forall|s: int| 0 <= s < slot && menu.filled_at(s) ==> slots@.contains(s as u16),
                forall|a: int, b: int|
                    0 <= a < b < slots@.len() ==> #[trigger] slots@[a] < #[trigger] slots@[b],
            decreases 49 - slot,
        {
            if (slot as usize) < menu.slots.len() && !menu.slots[slot as usize].is_empty() {
                let ghost before = slots@;
                slots.push(slot);
                proof {
                    assert forall|s: int|
                        0 <= s < slot + 1 && menu.filled_at(s) implies slots@.contains(s as u16) by {
                        if s == slot {
                            assert(slots@[slots@.len() - 1] == s);
                        } else {
                            let k: int = choose|k: int| 0 <= k < before.len() && before[k] == s as u16;
                            assert(slots@[k] == s as u16);
                        }
                    }
                }
            }
            slot = slot + 1;
        }
        slots
    }

    /// The capsule blocks around a bot standing at block `b`; coordinates
    /// past the range of `i32` stop at its bounds.
    pub fn capsule_blocks(b: BlockPos) -> (res: Vec<BlockPos>)
        ensures
            res@ == capsule_blocks_spec(b),
    {
        let mut v: Vec<BlockPos> = Vec::new();
        v.push(offset_block(b, -1, 0, 0));
        v.push(offset_block(b, 1, 0, 0));
        v.push(offset_block(b, 0, 0, -1));
        v.push(offset_block(b, 0, 0, 1));
        v.push(offset_block(b, -1, 1, 0));
        v.push(offset_block(b, 1, 1, 0));
        v.push(offset_block(b, 0, 1, -1));
        v.push(offset_block(b, 0, 1, 1));
        v.push(offset_block(b, -1, 2, 0));
        v.push(offset_block(b, 0, 2, 0));
        assert(v@ =~= capsule_blocks_spec(b));
        v
    }

    /// The steps for placing the `count`-th capsule block at `pos`.
    pub fn capsule_round(count: u8, pos: BlockPos) -> (res: Vec<CapsuleAction>)
        ensures
            res@ == capsule_round_spec(count, pos),
    {
        let mut steps: Vec<CapsuleAction> = Vec::new();
        if count == 10 {
            steps.push(CapsuleAction::WaitTicks { min: 4, max: 5 });
        }
        if count == 9 {
            steps.push(CapsuleAction::Jump);
            steps.push(CapsuleAction::WaitTicks { min: 1, max: 1 });
            steps.push(CapsuleAction::Crouch);
            steps.push(CapsuleAction::WaitTicks { min: 2, max: 3 });
        }
        steps.push(CapsuleAction::LookAt(pos));
        steps.push(CapsuleAction::WaitTicks { min: 1, max: 2 });
        steps.push(CapsuleAction::SwingArm);
        steps.push(CapsuleAction::PlaceAt(pos));
        if count == 10 {
            steps.push(CapsuleAction::Uncrouch);
        }
        steps.push(CapsuleAction::WaitTicks { min: 2, max: 3 });
        assert(steps@ =~= capsule_round_spec(count, pos));
        steps
    }
}

} // verus!
