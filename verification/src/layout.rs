use vstd::prelude::*;

use crate::buildings::Building;
use crate::buildings::generate_inventory;
use crate::buildings::spec_inventory;
use crate::registry::ITEM_VISUAL_SIZE;

verus! {

/// Seed of the default generation pass.
pub const DEFAULT_SEED: u64 = 0;

/// Number of buildings the default generation pass produces.
pub const DEFAULT_INVENTORY_COUNT: usize = 6;

/// Horizontal position shared by every inventory slot, in world units.
pub const SLOT_X: i64 = -350;

/// Vertical gap between two inventory slots, in world units.
pub const SLOT_GAP: i64 = 10;

/// Vertical distance between consecutive slots: one item plus one gap.
pub const SLOT_STEP: i64 = ITEM_VISUAL_SIZE as i64 + SLOT_GAP;

/// On-screen position of one inventory slot, in world units.
#[derive(Clone, Copy, Debug, PartialEq, Eq, Structural)]
pub struct SlotPosition {
    /// Horizontal coordinate.
    pub x: i64,
    /// Vertical coordinate.
    pub y: i64,
    /// Depth coordinate.
    pub z: i64,
}

/// Why a layout could not be assembled.
#[derive(Clone, Copy, Debug, PartialEq, Eq, Structural)]
pub enum LayoutError {
    /// The entity list and the position list differ in length.
    LengthMismatch,
}

/// The position of slot `index`: a fixed column, one step down per slot.
pub open spec fn spec_slot_position(index: int) -> SlotPosition {
    SlotPosition { x: SLOT_X, y: (SLOT_STEP * index) as i64, z: 0 }
}

/// The ordered on-screen positions of `n` inventory slots.
pub fn inventory_positions(n: usize) -> (positions: Vec<SlotPosition>)
    requires
        n as int * SLOT_STEP as int <= i64::MAX as int,
    ensures
        positions@.len() == n,
        forall|i: int| 0 <= i < n ==> positions@[i] == spec_slot_position(i),
{
    let mut positions: Vec<SlotPosition> = Vec::new();
    let mut i: usize = 0;
    let mut y: i64 = 0;
    while i < n
        invariant
            i <= n,
            n as int * SLOT_STEP as int <= i64::MAX as int,
            y as int == SLOT_STEP as int * i as int,
            positions@.len() == i,
            forall|j: int| 0 <= j < i ==> positions@[j] == spec_slot_position(j),
        decreases n - i,
    {
        proof {
            assert(0 <= SLOT_STEP as int * i as int && SLOT_STEP as int * (i as int + 1)
                <= n as int * SLOT_STEP as int && SLOT_STEP as int * (i as int + 1)
                == SLOT_STEP as int * i as int + SLOT_STEP as int) by (nonlinear_arith)
                requires
                    0 <= i as int,
                    i as int + 1 <= n as int,
            ;
        }
        positions.push(SlotPosition { x: SLOT_X, y, z: 0 });
        proof {
            assert(positions@[i as int] == spec_slot_position(i as int));
        }
        y = y + SLOT_STEP;
        i = i + 1;
    }
    positions
}

/// Pair generated entities with slot positions, index by index. The two
/// lists must be of equal length; a mismatch is a configuration defect and
/// refuses the whole layout.
pub fn pair_slots(entities: &Vec<u64>, positions: &Vec<SlotPosition>) -> (paired: Result<
    Vec<(u64, SlotPosition)>,
    LayoutError,
>)
    ensures
        match paired {
            Ok(pairs) => {
                &&& entities@.len() == positions@.len()
                &&& pairs@.len() == entities@.len()
                &&& forall|i: int|
                    0 <= i < pairs@.len() ==> #[trigger] pairs@[i] == (
                    entities@[i],
                    positions@[i],
                    )
            },
            Err(e) => e == LayoutError::LengthMismatch && entities@.len() != positions@.len(),
        },
{
    if entities.len() != positions.len() {
        return Err(LayoutError::LengthMismatch);
    }
    let mut pairs: Vec<(u64, SlotPosition)> = Vec::new();
    let mut i: usize = 0;
    while i < entities.len()
        invariant
            i <= entities@.len(),
            entities@.len() == positions@.len(),
            pairs@.len() == i,
            forall|j: int| 0 <= j < i ==> #[trigger] pairs@[j] == (entities@[j], positions@[j]),
        decreases entities@.len() - i,
    {
        pairs.push((entities[i], positions[i]));
        i = i + 1;
    }
    Ok(pairs)
}

/// The inventory generation pass, planned: the descriptor drawn for each
/// slot together with the slot's position. Entity creation and the deferred
/// visual attachment stay with the host runtime.
pub struct InventoryPlan {
    /// One descriptor per slot, in generation order.
    pub buildings: Vec<Building>,
    /// One position per slot, in the same order.
    pub positions: Vec<SlotPosition>,
}

/// Plan one inventory generation pass: draw `n` descriptors from a
/// generator seeded with `seed` and lay out `n` slot positions. Both lists
/// have exactly `n` entries, in matching order.
pub fn spawn_layout(seed: u64, n: usize) -> (plan: InventoryPlan)
    requires
        n as int * SLOT_STEP as int <= i64::MAX as int,
    ensures
        plan.buildings@ == spec_inventory(seed, n as nat),
        plan.buildings@.len() == n,
        plan.positions@.len() == n,
        forall|i: int| 0 <= i < n ==> plan.positions@[i] == spec_slot_position(i),
{
    let buildings = generate_inventory(seed, n);
    let positions = inventory_positions(n);
    InventoryPlan { buildings, positions }
}

} // verus!
