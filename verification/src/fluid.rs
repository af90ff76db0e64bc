use vstd::prelude::*;
use vstd::string::StrSliceExecFns;

verus! {

/// Velocity multiplier, in thousandths, applied each tick while submerged in water.
pub const WATER_DRAG_MILLI: u32 = 800;

/// Velocity multiplier, in thousandths, applied each tick while submerged in lava.
pub const LAVA_DRAG_MILLI: u32 = 500;

/// A fluid an entity can be submerged in, together with the drag it imposes.
///
/// Shared by the gravity, drag, and swim-to-surface systems so they agree on which
/// fluids exist and how strongly each one resists motion.
#[derive(Clone, Copy, PartialEq, Eq, Debug, Structural)]
pub enum Fluid {
    Water,
    Lava,
}

impl Fluid {
    /// The per-tick velocity multiplier of this fluid, in thousandths.
    pub open spec fn spec_drag_milli(self) -> int {
        match self {
            Fluid::Water => WATER_DRAG_MILLI as int,
            Fluid::Lava => LAVA_DRAG_MILLI as int,
        }
    }

    /// Per-tick velocity multiplier applied while submerged, in thousandths
    /// (800 in water, 500 in lava). A smaller multiplier removes more velocity.
    pub fn drag_milli(self) -> (m: u32)
        ensures
            m == self.spec_drag_milli(),
            self == Fluid::Water ==> m == 800,
            self == Fluid::Lava ==> m == 500,
    {
        match self {
            Fluid::Water => WATER_DRAG_MILLI,
            Fluid::Lava => LAVA_DRAG_MILLI,
        }
    }
}

/// Whether two strings hold the same characters.
fn same_name(name: &str, expected: &str) -> (same: bool)
    ensures
        same == (name@ == expected@),
{
    let n = name.unicode_len();
    let m = expected.unicode_len();
    if n != m {
        return false;
    }
    let mut i: usize = 0;
    while i < n
        invariant
            n == name@.len(),
            m == expected@.len(),
            n == m,
            i <= n,
            forall|k: int| 0 <= k < i ==> name@[k] == expected@[k],
        decreases n - i,
    {
        if name.get_char(i) != expected.get_char(i) {
            return false;
        }
        i = i + 1;
    }
    assert(name@ =~= expected@);
    true
}

/// Whether `name` identifies the block `block`: either the bare name or the name in
/// the default `minecraft:` namespace.
pub open spec fn spec_names_block(name: Seq<char>, block: Seq<char>) -> bool {
    name == block || name == "minecraft:"@ + block
}

/// The fluid that fills a block, given the block's identifier.
pub open spec fn spec_fluid_of_block(name: Seq<char>) -> Option<Fluid> {
    if spec_names_block(name, "water"@) {
        Some(Fluid::Water)
    } else if spec_names_block(name, "lava"@) {
        Some(Fluid::Lava)
    } else {
        None
    }
}

/// The fluid occupying a block, if any, given the block's identifier (`water` or
/// `minecraft:water`): every state of water is water, every state of lava is lava,
/// and any other block holds no fluid.
pub fn fluid_of_block(name: &str) -> (fluid: Option<Fluid>)
    ensures
        fluid == spec_fluid_of_block(name@),
        (fluid == Some(Fluid::Water)) == (name@ == "water"@ || name@ == "minecraft:water"@),
        (fluid == Some(Fluid::Lava)) == (name@ == "lava"@ || name@ == "minecraft:lava"@),
        (fluid is None) == (name@ != "water"@ && name@ != "minecraft:water"@ && name@ != "lava"@
            && name@ != "minecraft:lava"@),
{
    proof {
        reveal_strlit("minecraft:");
        reveal_strlit("water");
        reveal_strlit("lava");
        reveal_strlit("minecraft:water");
        reveal_strlit("minecraft:lava");
        assert("minecraft:water"@ =~= "minecraft:"@ + "water"@);
        assert("minecraft:lava"@ =~= "minecraft:"@ + "lava"@);
    }
    if same_name(name, "water") || same_name(name, "minecraft:water") {
        Some(Fluid::Water)
    } else if same_name(name, "lava") || same_name(name, "minecraft:lava") {
        Some(Fluid::Lava)
    } else {
        None
    }
}

} // verus!
