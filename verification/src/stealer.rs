//! The stealer: scanning a cube of blocks around the bot for containers of
//! a chosen kind and emptying the ones it opens.

use vstd::prelude::*;
use crate::text::text_eq;
use crate::inventory::Menu;
use crate::movement::Pause;

verus! {

/// A block position.
#[derive(Clone, Copy, Debug, PartialEq, Eq, Structural)]
pub struct BlockPos {
    pub x: i32,
    pub y: i32,
    pub z: i32,
}

/// Block state ids of the four chest orientations.
pub open spec fn is_chest_id(id: u16) -> bool {
    id == 3793 || id == 3787 || id == 3805 || id == 3799
}

/// Block state ids of the five barrel states.
pub open spec fn is_barrel_id(id: u16) -> bool {
    id == 20547 || id == 20543 || id == 20541 || id == 20549 || id == 20545
}

/// Block state ids of the sixteen shulker box colours.
pub open spec fn is_shulker_id(id: u16) -> bool {
    id == 14666 || id == 14672 || id == 14678 || id == 14720 || id == 14756 || id == 14714
        || id == 14762 || id == 14744 || id == 14702 || id == 14696 || id == 14708 || id
        == 14750 || id == 14684 || id == 14726 || id == 14738 || id == 14732
}

/// Whether block state `id` is a container of the kind `target` names.
pub open spec fn is_target_block(id: u16, target: Seq<char>) -> bool {
    ||| target == "chest"@ && is_chest_id(id)
    ||| target == "barrel"@ && is_barrel_id(id)
    ||| target == "shulker"@ && is_shulker_id(id)
}

/// `p` lies in the cube of half-width `r` around `c`.
pub open spec fn in_cube(p: BlockPos, c: BlockPos, r: int) -> bool {
    &&& c.x - r <= p.x <= c.x + r
    &&& c.y - r <= p.y <= c.y + r
    &&& c.z - r <= p.z <= c.z + r
}

/// The number of blocks in the cube of half-width `r`: none for a negative
/// half-width.
pub open spec fn cube_count(r: int) -> int {
    if r < 0 {
        0
    } else {
        (2 * r + 1) * (2 * r + 1) * (2 * r + 1)
    }
}

/// The place of `p` in the scan of the cube of half-width `r` around `c`.
pub open spec fn scan_index(p: BlockPos, c: BlockPos, r: int) -> int {
    ((p.x - (c.x - r)) * (2 * r + 1) + (p.y - (c.y - r))) * (2 * r + 1) + (p.z - (c.z - r))
}

/// `a` comes before the point `(x, y, z)` in the scan order: by `x`, then
/// `y`, then `z`.
pub open spec fn scanned_before(a: BlockPos, x: int, y: int, z: int) -> bool {
    a.x < x || (a.x == x && (a.y < y || (a.y == y && a.z < z)))
}

/// `a` comes strictly before `b` in the scan order.
pub open spec fn lex_before(a: BlockPos, b: BlockPos) -> bool {
    scanned_before(a, b.x as int, b.y as int, b.z as int)
}

/// The block at `p` of the cube of half-width `r` around `c` is a container
/// of kind `target`, by the block ids `ids` given in scan order.
pub open spec fn target_at(ids: Seq<Option<u16>>, p: BlockPos, c: BlockPos, r: int, target: Seq<char>) -> bool {
    ids[scan_index(p, c, r)] matches Some(id) && is_target_block(id, target)
}

/// The containers by kind: the four chest states 3787, 3793, 3799 and
/// 3805; the five barrel states 20541 to 20549 (odd ids); the sixteen
/// shulker box colours from 14666 to 14762; a target name other than
/// "chest", "barrel" or "shulker" matches no block.
pub proof fn lemma_container_ids(id: u16, target: Seq<char>)
    ensures
        is_target_block(3787, "chest"@) && is_target_block(3793, "chest"@) && is_target_block(3799, "chest"@)
            && is_target_block(3805, "chest"@),
        is_target_block(20541, "barrel"@) && is_target_block(20543, "barrel"@) && is_target_block(20545, "barrel"@)
            && is_target_block(20547, "barrel"@) && is_target_block(20549, "barrel"@),
        is_target_block(14666, "shulker"@) && is_target_block(14672, "shulker"@) && is_target_block(14678, "shulker"@)
            && is_target_block(14684, "shulker"@) && is_target_block(14696, "shulker"@) && is_target_block(14702, "shulker"@)
            && is_target_block(14708, "shulker"@) && is_target_block(14714, "shulker"@) && is_target_block(14720, "shulker"@)
            && is_target_block(14726, "shulker"@) && is_target_block(14732, "shulker"@) && is_target_block(14738, "shulker"@)
            && is_target_block(14744, "shulker"@) && is_target_block(14750, "shulker"@) && is_target_block(14756, "shulker"@)
            && is_target_block(14762, "shulker"@),
        is_target_block(id, "chest"@) ==> 3787 <= id <= 3805,
        is_target_block(id, "barrel"@) ==> 20541 <= id <= 20549,
        is_target_block(id, "shulker"@) ==> 14666 <= id <= 14762,
        target != "chest"@ && target != "barrel"@ && target != "shulker"@ ==> !is_target_block(id, target),
{
    reveal_strlit("chest");
    reveal_strlit("barrel");
    reveal_strlit("shulker");
    assert("chest"@[0] != "barrel"@[0]);
    assert("chest"@[0] != "shulker"@[0]);
    assert("barrel"@[0] != "shulker"@[0]);
}

/// The block ids of containers are not shared between kinds: no id is a
/// container of two different kinds.
pub proof fn lemma_container_kinds_disjoint(id: u16)
    ensures
        !(is_chest_id(id) && is_barrel_id(id)),
        !(is_chest_id(id) && is_shulker_id(id)),
        !(is_barrel_id(id) && is_shulker_id(id)),
{
}

/// What one round of the stealer runs with.
#[derive(Clone, Copy, Debug, PartialEq, Eq, Structural)]
pub struct StealerPlan {
    /// Half-width of the cube of blocks scanned around the bot.
    pub radius: i32,
    /// Pause between rounds, in milliseconds.
    pub delay_millis: u64,
    /// Pause after turning towards a container, before opening it.
    pub look_pause: Pause,
    /// Pause after closing an emptied container.
    pub close_pause: Pause,
}

/// One step of a stealer round.
#[derive(Clone, Copy, Debug, PartialEq, Eq, Structural)]
pub enum StealerStep {
    /// Turn the head towards a container.
    LookAt(BlockPos),
    /// Wait out a pause.
    Wait(Pause),
    /// Try to open the container at a block. When it does not open, the
    /// steps that follow it, up to the next `LookAt` or `TurnHead`, are
    /// skipped.
    Open(BlockPos),
    /// Shift-click out every filled slot of the open container
    /// (`extract_all_items`).
    TakeAll,
    /// Close the open container.
    Close,
    /// Turn the head by a small random amount.
    TurnHead,
    /// Sleep for the given number of milliseconds.
    Sleep(u64),
}

/// Step `j` (of six) of visiting the container at `t`.
pub open spec fn visit_step(plan: StealerPlan, t: BlockPos, j: int) -> StealerStep {
    if j == 0 {
        StealerStep::LookAt(t)
    } else if j == 1 {
        StealerStep::Wait(plan.look_pause)
    } else if j == 2 {
        StealerStep::Open(t)
    } else if j == 3 {
        StealerStep::TakeAll
    } else if j == 4 {
        StealerStep::Close
    } else {
        StealerStep::Wait(plan.close_pause)
    }
}

/// A round: each target in turn is looked at, opened, emptied and closed,
/// with the plan's pauses; then the head turns a little and the bot sleeps
/// for the plan's delay.
pub open spec fn round_spec(plan: StealerPlan, targets: Seq<BlockPos>) -> Seq<StealerStep> {
    Seq::new(
        (6 * targets.len() + 2) as nat,
        |m: int|
            if m < 6 * targets.len() {
                visit_step(plan, targets[m / 6], m % 6)
            } else if m == 6 * targets.len() {
                StealerStep::TurnHead
            } else {
                StealerStep::Sleep(plan.delay_millis)
            },
    )
}

/// The stealer's options.
#[derive(Clone, Debug)]
pub struct StealerOptions {
    pub target: String,
    pub radius: Option<i32>,
    pub delay: Option<u64>,
    pub state: bool,
}

/// The stealer module: opens nearby containers and empties them.
pub struct StealerModule;

impl StealerModule {
    pub fn new() -> (res: StealerModule) {
        StealerModule
    }

    /// Whether block state `block_id` is a container of the kind `target`
    /// names ("chest", "barrel" or "shulker"); any other name matches nothing.
    pub fn check_block_id(&self, block_id: u16, target: &str) -> (res: bool)
        ensures
            res == is_target_block(block_id, target@),
    {
        proof {
            reveal_strlit("chest");
            reveal_strlit("barrel");
            reveal_strlit("shulker");
            assert("chest"@[0] != "barrel"@[0]);
            assert("chest"@[0] != "shulker"@[0]);
            assert("barrel"@[0] != "shulker"@[0]);
        }
        if text_eq(target, "chest") {
            return block_id == 3793 || block_id == 3787 || block_id == 3805 || block_id == 3799;
        }
        if text_eq(target, "barrel") {
            return block_id == 20547 || block_id == 20543 || block_id == 20541 || block_id
                == 20549 || block_id == 20545;
        }
        if text_eq(target, "shulker") {
            return block_id == 14666 || block_id == 14672 || block_id == 14678 || block_id
                == 14720 || block_id == 14756 || block_id == 14714 || block_id == 14762
                || block_id == 14744 || block_id == 14702 || block_id == 14696 || block_id
                == 14708 || block_id == 14750 || block_id == 14684 || block_id == 14726
                || block_id == 14738 || block_id == 14732;
        }
        false
    }

    /// The round's radius and pause: 4 blocks and 1000 ms unless the
    /// options give them; 50 to 100 ms after turning to a container and 200
    /// to 300 ms after closing it.
    pub fn enable(&self, options: &StealerOptions) -> (res: StealerPlan)
        ensures
            res.radius == (match options.radius {
                Some(r) => r,
                None => 4,
            }),
            res.delay_millis == (match options.delay {
                Some(d) => d,
                None => 1000,
            }),
            res.look_pause == (Pause::Random { min: 50, max: 100 }),
            res.close_pause == (Pause::Random { min: 200, max: 300 }),
    {
        StealerPlan {
            radius: match options.radius {
                Some(r) => r,
                None => 4,
            },
            delay_millis: match options.delay {
                Some(d) => d,
                None => 1000,
            },
            look_pause: Pause::Random { min: 50, max: 100 },
            close_pause: Pause::Random { min: 200, max: 300 },
        }
    }

    /// Every block position of the cube of half-width `radius` around
    /// `center`, each once, in scan order (by `x`, then `y`, then `z`); empty
    /// for a negative radius.
    pub fn scan_area(&self, center: BlockPos, radius: i32) -> (res: Vec<BlockPos>)
        requires
            radius >= 0 ==> {
                &&& center.x - radius >= i32::MIN && center.x + radius <= i32::MAX
                &&& center.y - radius >= i32::MIN && center.y + radius <= i32::MAX
                &&& center.z - radius >= i32::MIN && center.z + radius <= i32::MAX
            },
        ensures
            forall|i: int| 0 <= i < res@.len() ==> in_cube(#[trigger] res@[i], center, radius as int),
            forall|p: BlockPos| in_cube(p, center, radius as int) ==> res@.contains(p),
            forall|i: int, j: int|
                0 <= i < j < res@.len() ==> lex_before(#[trigger] res@[i], #[trigger] res@[j]),
            res@.len() == cube_count(radius as int),
            forall|i: int|
                0 <= i < res@.len() ==> scan_index(#[trigger] res@[i], center, radius as int) == i,
    {
        let mut positions: Vec<BlockPos> = Vec::new();
        if radius < 0 {
            return positions;
        }
        proof {
            let n: int = 2 * radius + 1;
            assert(0 * n * n == 0) by (nonlinear_arith);
        }
        let r: i64 = radius as i64;
        let cx: i64 = center.x as i64;
        let cy: i64 = center.y as i64;
        let cz: i64 = center.z as i64;
        let ghost n: int = 2 * r + 1;
        let mut x: i64 = cx - r;
        while x <= cx + r
            invariant
                r == radius,
                r >= 0,
                cx == center.x,
                cy == center.y,
                cz == center.z,
                cx - r >= i32::MIN,
                cx + r <= i32::MAX,
                cy - r >= i32::MIN,
                cy + r <= i32::MAX,
                cz - r >= i32::MIN,
                cz + r <= i32::MAX,
                cx - r <= x <= cx + r + 1,
                forall|i: int|
                    0 <= i < positions@.len() ==> in_cube(#[trigger] positions@[i], center, r as int),
                forall|i: int| 0 <= i < positions@.len() ==> (#[trigger] positions@[i]).x < x,
                forall|p: BlockPos|
                    in_cube(p, center, r as int) && p.x < x ==> #[trigger] positions@.contains(p),
                forall|i: int, j: int|
                    0 <= i < j < positions@.len() ==> lex_before(
                        #[trigger] positions@[i],
                        #[trigger] positions@[j],
                    ),
                n == 2 * r + 1,
                positions@.len() == (x - (cx - r)) * n * n,
                forall|i: int|
                    0 <= i < positions@.len() ==> scan_index(#[trigger] positions@[i], center, r as int) == i,
            decreases cx + r + 1 - x,
        {
            let mut y: i64 = cy - r;
            while y <= cy + r
                invariant
                    r == radius,
                    r >= 0,
                    cx == center.x,
                    cy == center.y,
                    cz == center.z,
                    cx - r >= i32::MIN,
                    cx + r <= i32::MAX,
                    cy - r >= i32::MIN,
                    cy + r <= i32::MAX,
                    cz - r >= i32::MIN,
                    cz + r <= i32::MAX,
                    cx - r <= x <= cx + r,
                    cy - r <= y <= cy + r + 1,
                    forall|i: int|
                        0 <= i < positions@.len() ==> in_cube(
                            #[trigger] positions@[i],
                            center,
                            r as int,
                        ),
                    forall|i: int|
                        0 <= i < positions@.len() ==> scanned_before(
                            #[trigger] positions@[i],
                            x as int,
                            y as int,
                            i32::MIN as int,
                        ),
                    forall|p: BlockPos|
                        in_cube(p, center, r as int) && scanned_before(
                            p,
                            x as int,
                            y as int,
                            i32::MIN as int,
                        ) ==> #[trigger] positions@.contains(p),
                    forall|i: int, j: int|
                        0 <= i < j < positions@.len() ==> lex_before(
                            #[trigger] positions@[i],
                            #[trigger] positions@[j],
                        ),
                    n == 2 * r + 1,
                    positions@.len() == ((x - (cx - r)) * n + (y - (cy - r))) * n,
                    forall|i: int|
                        0 <= i < positions@.len() ==> scan_index(#[trigger] positions@[i], center, r as int) == i,
                decreases cy + r + 1 - y,
            {
                let mut z: i64 = cz - r;
                while z <= cz + r
                    invariant
                        r == radius,
                        r >= 0,
                        cx == center.x,
                        cy == center.y,
                        cz == center.z,
                        cx - r >= i32::MIN,
                        cx + r <= i32::MAX,
                        cy - r >= i32::MIN,
                        cy + r <= i32::MAX,
                        cz - r >= i32::MIN,
                        cz + r <= i32::MAX,
                        cx - r <= x <= cx + r,
                        cy - r <= y <= cy + r,
                        cz - r <= z <= cz + r + 1,
                        forall|i: int|
                            0 <= i < positions@.len() ==> in_cube(
                                #[trigger] positions@[i],
                                center,
                                r as int,
                            ),
                        forall|i: int|
                            0 <= i < positions@.len() ==> scanned_before(
                                #[trigger] positions@[i],
                                x as int,
                                y as int,
                                z as int,
                            ),
                        forall|p: BlockPos|
                            in_cube(p, center, r as int) && scanned_before(
                                p,
                                x as int,
                                y as int,
                                z as int,
                            ) ==> #[trigger] positions@.contains(p),
                        forall|i: int, j: int|
                            0 <= i < j < positions@.len() ==> lex_before(
                                #[trigger] positions@[i],
                                #[trigger] positions@[j],
                            ),
                        n == 2 * r + 1,
                        positions@.len() == ((x - (cx - r)) * n + (y - (cy - r))) * n + (z - (cz - r)),
                        forall|i: int|
                            0 <= i < positions@.len() ==> scan_index(#[trigger] positions@[i], center, r as int) == i,
                    decreases cz + r + 1 - z,
                {
                    let q = BlockPos { x: x as i32, y: y as i32, z: z as i32 };
                    let ghost old_positions = positions@;
                    positions.push(q);
                    proof {
                        assert(positions@.last() == q);
                        assert forall|p: BlockPos|
                            in_cube(p, center, r as int) && scanned_before(
                                p,
                                x as int,
                                y as int,
                                z + 1,
                            ) implies #[trigger] positions@.contains(p) by {
                            if p == q {
                                assert(positions@[positions@.len() - 1] == p);
                            } else {
                                assert(old_positions.contains(p));
                                let k: int = choose|k: int|
                                    0 <= k < old_positions.len() && old_positions[k] == p;
                                assert(positions@[k] == p);
                            }
                        }
                    }
                    z = z + 1;
                }
                proof {
                    let a: int = (x - (cx - r)) * n + (y - (cy - r));
                    assert(a * n + n == (a + 1) * n) by (nonlinear_arith);
                }
                y = y + 1;
            }
            proof {
                let a: int = x - (cx - r);
                assert((a * n + n) * n == (a + 1) * n * n) by (nonlinear_arith);
            }
            x = x + 1;
        }
        proof {
            assert((x - (cx - r)) == n);
        }
        positions
    }

    /// The containers of kind `target` in the cube of half-width `radius`
    /// around `center`, in scan order; `states` holds the block state id of
    /// each block of the cube in scan order (`None` where the world has no
    /// block loaded). None for a negative radius.
    pub fn find_nearest_targets(
        &self,
        center: BlockPos,
        radius: i32,
        states: &Vec<Option<u16>>,
        target: &str,
    ) -> (res: Vec<BlockPos>)
        requires
            radius >= 0 ==> {
                &&& center.x - radius >= i32::MIN && center.x + radius <= i32::MAX
                &&& center.y - radius >= i32::MIN && center.y + radius <= i32::MAX
                &&& center.z - radius >= i32::MIN && center.z + radius <= i32::MAX
            },
            states@.len() == cube_count(radius as int),
        ensures
            forall|k: int|
                0 <= k < res@.len() ==> in_cube(#[trigger] res@[k], center, radius as int) && target_at(
                    states@,
                    res@[k],
                    center,
                    radius as int,
                    target@,
                ),
            forall|p: BlockPos|
                in_cube(p, center, radius as int) && target_at(states@, p, center, radius as int, target@)
                    ==> res@.contains(p),
            forall|a: int, b: int|
                0 <= a < b < res@.len() ==> lex_before(#[trigger] res@[a], #[trigger] res@[b]),
            res@.len() <= cube_count(radius as int),
    {
        let area = self.scan_area(center, radius);
        let ghost r: int = radius as int;
        let n: usize = area.len();
        let mut found: Vec<BlockPos> = Vec::new();
        let ghost mut picked: Seq<int> = Seq::empty();
        let mut i: usize = 0;
        while i < n
            invariant
                n == area@.len(),
                n == states@.len(),
                r == radius,
                i <= n,
                forall|j: int| 0 <= j < n ==> in_cube(#[trigger] area@[j], center, r),
                forall|j: int| 0 <= j < n ==> scan_index(#[trigger] area@[j], center, r) == j,
                forall|a: int, b: int|
                    0 <= a < b < n ==> lex_before(#[trigger] area@[a], #[trigger] area@[b]),
                picked.len() == found@.len(),
                found@.len() <= i,
                forall|k: int|
                    0 <= k < picked.len() ==> 0 <= #[trigger] picked[k] < i && found@[k]
                        == area@[picked[k]] && target_at(states@, area@[picked[k]], center, r, target@),
                forall|a: int, b: int| 0 <= a < b < picked.len() ==> #[trigger] picked[a] < #[trigger] picked[b],
                forall|j: int|
                    0 <= j < i && target_at(states@, #[trigger] area@[j], center, r, target@) ==> found@.contains(area@[j]),
            decreases n - i,
        {
            let matched = match states[i] {
                Some(id) => self.check_block_id(id, target),
                None => false,
            };
            proof {
                assert(scan_index(area@[i as int], center, r) == i);
            }
            if matched {
                let ghost before = found@;
                found.push(area[i]);
                proof {
                    picked = picked.push(i as int);
                    assert forall|j: int|
                        0 <= j < i + 1 && target_at(states@, #[trigger] area@[j], center, r, target@)
                            implies found@.contains(area@[j]) by {
                        if j == i {
                            assert(found@[found@.len() - 1] == area@[j]);
                        } else {
                            let k: int = choose|k: int| 0 <= k < before.len() && before[k] == area@[j];
                            assert(found@[k] == area@[j]);
                        }
                    }
                }
            }
            i = i + 1;
        }
        proof {
            assert forall|k: int| 0 <= k < found@.len() implies in_cube(
                #[trigger] found@[k],
                center,
                r,
            ) && target_at(states@, found@[k], center, r, target@) by {
                assert(found@[k] == area@[picked[k]]);
                assert(in_cube(area@[picked[k]], center, r));
            }
            assert forall|p: BlockPos|
                in_cube(p, center, r) && target_at(states@, p, center, r, target@) implies found@.contains(p) by {
                assert(area@.contains(p));
                let j: int = choose|j: int| 0 <= j < area@.len() && area@[j] == p;
                assert(target_at(states@, area@[j], center, r, target@));
            }
            assert forall|a: int, b: int| 0 <= a < b < found@.len() implies lex_before(
                #[trigger] found@[a],
                #[trigger] found@[b],
            ) by {
                assert(picked[a] < picked[b]);
                assert(found@[a] == area@[picked[a]]);
                assert(found@[b] == area@[picked[b]]);
            }
        }
        found
    }

    /// The steps of one round over `targets`. Every container that is opened
    /// is emptied and closed by the two steps right after it, so no two
    /// containers are open at once.
    pub fn round(&self, plan: &StealerPlan, targets: &Vec<BlockPos>) -> (res: Vec<StealerStep>)
        requires
            targets@.len() <= usize::MAX / 8,
        ensures
            res@ == round_spec(*plan, targets@),
            forall|m: int|
                0 <= m < res@.len() && (#[trigger] res@[m]) is Open ==> m + 2 < res@.len()
                    && res@[m + 1] == StealerStep::TakeAll && res@[m + 2] == StealerStep::Close,
    {
        let n: usize = targets.len();
        let mut steps: Vec<StealerStep> = Vec::new();
        let mut i: usize = 0;
        while i < n
            invariant
                n == targets@.len(),
                n <= usize::MAX / 8,
                i <= n,
                steps@.len() == 6 * i,
                forall|m: int|
                    0 <= m < steps@.len() ==> #[trigger] steps@[m] == visit_step(
                        *plan,
                        targets@[m / 6],
                        m % 6,
                    ),
            decreases n - i,
        {
            let t = targets[i];
            steps.push(StealerStep::LookAt(t));
            steps.push(StealerStep::Wait(plan.look_pause));
            steps.push(StealerStep::Open(t));
            steps.push(StealerStep::TakeAll);
            steps.push(StealerStep::Close);
            steps.push(StealerStep::Wait(plan.close_pause));
            i = i + 1;
        }
        steps.push(StealerStep::TurnHead);
        steps.push(StealerStep::Sleep(plan.delay_millis));
        assert(steps@ =~= round_spec(*plan, targets@));
        proof {
            assert forall|m: int|
                0 <= m < steps@.len() && (#[trigger] steps@[m]) is Open implies m + 2 < steps@.len()
                    && steps@[m + 1] == StealerStep::TakeAll && steps@[m + 2] == StealerStep::Close by {
                assert(m < 6 * n);
                assert(m % 6 == 2);
                assert((m + 1) / 6 == m / 6 && (m + 1) % 6 == 3);
                assert((m + 2) / 6 == m / 6 && (m + 2) % 6 == 4);
            }
        }
        steps
    }

    /// The container slots to shift-click out: each of slots 0 to 26 that
    /// the menu has and that holds items, in order.
    pub fn extract_all_items(&self, menu: &Menu) -> (res: Vec<usize>)
        ensures
            forall|k: int| 0 <= k < res@.len() ==> res@[k] <= 26 && menu.filled_at(#[trigger] res@[k] as int),
            forall|s: int| 0 <= s <= 26 && menu.filled_at(s) ==> res@.contains(s as usize),
            forall|a: int, b: int| 0 <= a < b < res@.len() ==> #[trigger] res@[a] < #[trigger] res@[b],
    {
        let mut slots: Vec<usize> = Vec::new();
        let mut slot: usize = 0;
        while slot <= 26
            invariant
                slot <= 27,
                forall|k: int|
                    0 <= k < slots@.len() ==> #[trigger] slots@[k] < slot && menu.filled_at(
                        slots@[k] as int,
                    ),
                forall|s: int| 0 <= s < slot && menu.filled_at(s) ==> slots@.contains(s as usize),
                forall|a: int, b: int|
                    0 <= a < b < slots@.len() ==> #[trigger] slots@[a] < #[trigger] slots@[b],
            decreases 27 - slot,
        {
            if slot < menu.slots.len() && !menu.slots[slot].is_empty() {
                let ghost before = slots@;
                slots.push(slot);
                proof {
                    assert forall|s: int|
                        0 <= s < slot + 1 && menu.filled_at(s) implies slots@.contains(
                        s as usize,
                    ) by {
                        if s == slot {
                            assert(slots@[slots@.len() - 1] == s);
                        } else {
                            let k: int = choose|k: int| 0 <= k < before.len() && before[k] == s as usize;
                            assert(slots@[k] == s as usize);
                        }
                    }
                }
            }
            slot = slot + 1;
        }
        slots
    }
}

} // verus!
