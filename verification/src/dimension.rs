//! The dimension types of the world and their fixed properties.
use crate::fixed::UNITS_PER_BLOCK;
use vstd::prelude::*;

verus! {

/// A namespaced resource name, such as `minecraft:overworld`.
#[derive(Debug, PartialEq, Eq)]
pub struct Identifier {
    pub namespace: String,
    pub path: String,
}

impl Clone for Identifier {
    fn clone(&self) -> (id: Identifier)
        ensures
            id.namespace@ == self.namespace@,
            id.path@ == self.path@,
    {
        Identifier { namespace: self.namespace.clone(), path: self.path.clone() }
    }
}

impl Identifier {
    /// The name `path` in the namespace `minecraft`.
    pub fn vanilla(path: &str) -> (id: Identifier)
        ensures
            id.namespace@ == "minecraft"@,
            id.path@ == path@,
    {
        Identifier { namespace: "minecraft".to_owned(), path: path.to_owned() }
    }
}

#[derive(Debug, Clone, Copy, PartialEq, Eq)]
pub enum DimensionType {
    Overworld,
    OverworldCaves,
    TheEnd,
    TheNether,
}

impl DimensionType {
    /// The path of the dimension's name.
    pub open spec fn name_path(self) -> Seq<char> {
        match self {
            Self::Overworld => "overworld"@,
            Self::OverworldCaves => "overworld_caves"@,
            Self::TheEnd => "the_end"@,
            Self::TheNether => "the_nether"@,
        }
    }

    /// The path of the tag that names the blocks which burn forever.
    pub open spec fn infiniburn_path(self) -> Seq<char> {
        match self {
            Self::Overworld => "minecraft:infiniburn_overworld"@,
            Self::OverworldCaves => "minecraft:infiniburn_overworld"@,
            Self::TheEnd => "minecraft:infiniburn_end"@,
            Self::TheNether => "minecraft:infiniburn_nether"@,
        }
    }

    /// The path of the dimension's sky effects.
    pub open spec fn effects_path(self) -> Seq<char> {
        match self {
            Self::Overworld => "minecraft:overworld"@,
            Self::OverworldCaves => "minecraft:overworld"@,
            Self::TheEnd => "minecraft:end"@,
            Self::TheNether => "minecraft:the_nether"@,
        }
    }

    /// The lowest block layer.
    pub open spec fn lowest_layer(self) -> int {
        match self {
            Self::Overworld => -64,
            Self::OverworldCaves => -64,
            Self::TheEnd => 0,
            Self::TheNether => 0,
        }
    }

    /// The number of block layers.
    pub open spec fn layers(self) -> int {
        match self {
            Self::Overworld => 384,
            Self::OverworldCaves => 384,
            Self::TheEnd => 256,
            Self::TheNether => 256,
        }
    }

    /// The number of block layers that portals and chorus fruit can reach.
    pub open spec fn logical_layers(self) -> int {
        match self {
            Self::Overworld => 384,
            Self::OverworldCaves => 384,
            Self::TheEnd => 256,
            Self::TheNether => 128,
        }
    }

    /// The dimension is the nether.
    pub open spec fn is_nether(self) -> bool {
        self is TheNether
    }

    /// The dimension is one of the two overworld kinds.
    pub open spec fn is_overworld(self) -> bool {
        self is Overworld || self is OverworldCaves
    }

    /// The name of the dimension.
    pub fn name(&self) -> (id: Identifier)
        ensures
            id.namespace@ == "minecraft"@,
            id.path@ == self.name_path(),
    {
        match self {
            Self::Overworld => Identifier::vanilla("overworld"),
            Self::OverworldCaves => Identifier::vanilla("overworld_caves"),
            Self::TheEnd => Identifier::vanilla("the_end"),
            Self::TheNether => Identifier::vanilla("the_nether"),
        }
    }

    /// The time of day at which the dimension stands still, if it does.
    pub fn fixed_time(&self) -> (t: Option<i64>)
        ensures
            t == match self {
                Self::Overworld => None::<i64>,
                Self::OverworldCaves => None,
                Self::TheEnd => Some(6000i64),
                Self::TheNether => Some(18000i64),
            },
            t.is_none() == self.is_overworld(),
    {
        match self {
            Self::Overworld => None,
            Self::OverworldCaves => None,
            Self::TheEnd => Some(6000),
            Self::TheNether => Some(18000),
        }
    }

    pub fn has_skylight(&self) -> (b: bool)
        ensures
            b == self.is_overworld(),
    {
        match self {
            Self::Overworld => true,
            Self::OverworldCaves => true,
            Self::TheEnd => false,
            Self::TheNether => false,
        }
    }

    pub fn has_ceiling(&self) -> (b: bool)
        ensures
            b == (self is OverworldCaves || self is TheNether),
    {
        match self {
            Self::Overworld => false,
            Self::OverworldCaves => true,
            Self::TheEnd => false,
            Self::TheNether => true,
        }
    }

    pub fn ultra_warm(&self) -> (b: bool)
        ensures
            b == self.is_nether(),
    {
        match self {
            Self::Overworld => false,
            Self::OverworldCaves => false,
            Self::TheEnd => false,
            Self::TheNether => true,
        }
    }

    pub fn natural(&self) -> (b: bool)
        ensures
            b == self.is_overworld(),
    {
        match self {
            Self::Overworld => true,
            Self::OverworldCaves => true,
            Self::TheEnd => false,
            Self::TheNether => false,
        }
    }

    /// How many blocks of this dimension one block of travel covers
    /// elsewhere, as a fixed-point scalar.
    pub fn coordinate_scale(&self) -> (scale: i64)
        ensures
            scale == if self.is_nether() {
                8 * UNITS_PER_BLOCK
            } else {
                UNITS_PER_BLOCK as int
            },
    {
        match self {
            Self::Overworld => UNITS_PER_BLOCK,
            Self::OverworldCaves => UNITS_PER_BLOCK,
            Self::TheEnd => UNITS_PER_BLOCK,
            Self::TheNether => 8 * UNITS_PER_BLOCK,
        }
    }

    pub fn bed_works(&self) -> (b: bool)
        ensures
            b == self.is_overworld(),
    {
        match self {
            Self::Overworld => true,
            Self::OverworldCaves => true,
            Self::TheEnd => false,
            Self::TheNether => false,
        }
    }

    pub fn respawn_anchor_works(&self) -> (b: bool)
        ensures
            b == self.is_nether(),
    {
        match self {
            Self::Overworld => false,
            Self::OverworldCaves => false,
            Self::TheEnd => false,
            Self::TheNether => true,
        }
    }

    pub fn min_y(&self) -> (y: i32)
        ensures
            y == self.lowest_layer(),
    {
        match self {
            Self::Overworld => -64,
            Self::OverworldCaves => -64,
            Self::TheEnd => 0,
            Self::TheNether => 0,
        }
    }

    pub fn height(&self) -> (h: i32)
        ensures
            h == self.layers(),
    {
        match self {
            Self::Overworld => 384,
            Self::OverworldCaves => 384,
            Self::TheEnd => 256,
            Self::TheNether => 256,
        }
    }

    pub fn logical_height(&self) -> (h: i32)
        ensures
            h == self.logical_layers(),
    {
        match self {
            Self::Overworld => 384,
            Self::OverworldCaves => 384,
            Self::TheEnd => 256,
            Self::TheNether => 128,
        }
    }

    pub fn infiniburn(&self) -> (id: Identifier)
        ensures
            id.namespace@ == "minecraft"@,
            id.path@ == self.infiniburn_path(),
    {
        match self {
            Self::Overworld => Identifier::vanilla("minecraft:infiniburn_overworld"),
            Self::OverworldCaves => Identifier::vanilla("minecraft:infiniburn_overworld"),
            Self::TheEnd => Identifier::vanilla("minecraft:infiniburn_end"),
            Self::TheNether => Identifier::vanilla("minecraft:infiniburn_nether"),
        }
    }

    pub fn effects(&self) -> (id: Identifier)
        ensures
            id.namespace@ == "minecraft"@,
            id.path@ == self.effects_path(),
    {
        match self {
            Self::Overworld => Identifier::vanilla("minecraft:overworld"),
            Self::OverworldCaves => Identifier::vanilla("minecraft:overworld"),
            Self::TheEnd => Identifier::vanilla("minecraft:end"),
            Self::TheNether => Identifier::vanilla("minecraft:the_nether"),
        }
    }

    /// The light that the dimension has everywhere, as a fixed-point
    /// scalar between zero and one.
    pub fn ambient_light(&self) -> (light: i64)
        ensures
            light == if self.is_nether() {
                100_000_000i64
            } else {
                0i64
            },
    {
        match self {
            Self::Overworld => 0,
            Self::OverworldCaves => 0,
            Self::TheEnd => 0,
            Self::TheNether => 100_000_000,
        }
    }

    pub fn piglin_safe(&self) -> (b: bool)
        ensures
            b == self.is_nether(),
    {
        match self {
            Self::Overworld => false,
            Self::OverworldCaves => false,
            Self::TheEnd => false,
            Self::TheNether => true,
        }
    }

    pub fn has_raids(&self) -> (b: bool)
        ensures
            b == !self.is_nether(),
    {
        match self {
            Self::Overworld => true,
            Self::OverworldCaves => true,
            Self::TheEnd => true,
            Self::TheNether => false,
        }
    }

    /// This is a tuple of (min, max); you can use it to get a random number between the two values.
    pub fn monster_spawn_light_test(&self) -> (range: (i32, i32))
        ensures
            range.1 == 7,
            range.0 == if self.is_nether() {
                7i32
            } else {
                0i32
            },
    {
        match self {
            Self::Overworld => (0, 7),
            Self::OverworldCaves => (0, 7),
            Self::TheEnd => (0, 7),
            Self::TheNether => (7, 7),
        }
    }

    pub fn monster_spawn_block_light_limit(&self) -> (limit: i32)
        ensures
            limit == if self is TheEnd {
                15i32
            } else {
                0i32
            },
    {
        match self {
            Self::Overworld => 0,
            Self::OverworldCaves => 0,
            Self::TheEnd => 15,
            Self::TheNether => 0,
        }
    }
}

/// The layers of every dimension fit together: the logical height is
/// positive and within the height, the height is a whole number of
/// sixteen-block sections, and so is the lowest layer.
pub proof fn lemma_layers_fit(d: DimensionType)
    ensures
        0 < d.logical_layers() <= d.layers(),
        d.layers() % 16 == 0,
        d.lowest_layer() % 16 == 0,
        d.lowest_layer() + d.layers() <= 320,
{
}

} // verus!
