//! Terrain tiles: the value every cell of the world holds, and the numeric id
//! each kind is stored under.

use vstd::prelude::*;

verus! {

/// Terrain that carries no payload.
#[derive(Debug, Clone, Copy, PartialEq, Eq, Structural)]
pub enum StaticTerrainTile {
    Water,
    Stone,
    Impassable,
}

/// A resource deposit together with its magnitude.
#[derive(Debug, Clone, Copy, PartialEq, Eq, Structural)]
pub enum ComplexTerrainTile {
    Copper(u32),
    Coal(u32),
    Iron(u32),
}

/// One cell of terrain.
#[derive(Debug, Clone, Copy, PartialEq, Eq, Structural)]
pub enum TerrainTile {
    Static(StaticTerrainTile),
    Complex(ComplexTerrainTile),
}

impl TerrainTile {
    /// The id a tile is stored under: 0 water, 1 stone, 2 impassable, 3 iron,
    /// 4 copper, 5 coal.
    pub open spec fn tile_id(self) -> u8 {
        match self {
            TerrainTile::Static(StaticTerrainTile::Water) => 0,
            TerrainTile::Static(StaticTerrainTile::Stone) => 1,
            TerrainTile::Static(StaticTerrainTile::Impassable) => 2,
            TerrainTile::Complex(ComplexTerrainTile::Iron(_)) => 3,
            TerrainTile::Complex(ComplexTerrainTile::Copper(_)) => 4,
            TerrainTile::Complex(ComplexTerrainTile::Coal(_)) => 5,
        }
    }

    /// The magnitude of a resource tile; static terrain has none.
    pub open spec fn magnitude(self) -> Option<u32> {
        match self {
            TerrainTile::Static(_) => None,
            TerrainTile::Complex(ComplexTerrainTile::Iron(m)) => Some(m),
            TerrainTile::Complex(ComplexTerrainTile::Copper(m)) => Some(m),
            TerrainTile::Complex(ComplexTerrainTile::Coal(m)) => Some(m),
        }
    }

    /// The tile a stored id and magnitude stand for. Ids 0 to 2 are static
    /// terrain whatever the magnitude says; ids 3 to 5 are deposits and need a
    /// magnitude; every other combination stands for nothing.
    pub open spec fn from_id(chunk_tile_id: u8, metadata: Option<u32>) -> Option<TerrainTile> {
        if chunk_tile_id == 0 {
            Some(TerrainTile::Static(StaticTerrainTile::Water))
        } else if chunk_tile_id == 1 {
            Some(TerrainTile::Static(StaticTerrainTile::Stone))
        } else if chunk_tile_id == 2 {
            Some(TerrainTile::Static(StaticTerrainTile::Impassable))
        } else if chunk_tile_id == 3 && metadata is Some {
            Some(TerrainTile::Complex(ComplexTerrainTile::Iron(metadata->0)))
        } else if chunk_tile_id == 4 && metadata is Some {
            Some(TerrainTile::Complex(ComplexTerrainTile::Copper(metadata->0)))
        } else if chunk_tile_id == 5 && metadata is Some {
            Some(TerrainTile::Complex(ComplexTerrainTile::Coal(metadata->0)))
        } else {
            None
        }
    }

    /// The tile a stored id and magnitude decode to: what they stand for, and
    /// stone where they stand for nothing.
    pub open spec fn decoded(chunk_tile_id: u8, metadata: Option<u32>) -> TerrainTile {
        match Self::from_id(chunk_tile_id, metadata) {
            Some(tile) => tile,
            None => TerrainTile::Static(StaticTerrainTile::Stone),
        }
    }

    pub fn into_chunk_tile_id(&self) -> (id: u8)
        ensures
            id == self.tile_id(),
    {
        match self {
            TerrainTile::Static(StaticTerrainTile::Water) => 0,
            TerrainTile::Static(StaticTerrainTile::Stone) => 1,
            TerrainTile::Static(StaticTerrainTile::Impassable) => 2,
            TerrainTile::Complex(ComplexTerrainTile::Iron(_)) => 3,
            TerrainTile::Complex(ComplexTerrainTile::Copper(_)) => 4,
            TerrainTile::Complex(ComplexTerrainTile::Coal(_)) => 5,
        }
    }

    pub fn get_metadata(&self) -> (metadata: Option<u32>)
        ensures
            metadata == self.magnitude(),
    {
        match self {
            TerrainTile::Complex(ComplexTerrainTile::Iron(metadata)) => Some(*metadata),
            TerrainTile::Complex(ComplexTerrainTile::Copper(metadata)) => Some(*metadata),
            TerrainTile::Complex(ComplexTerrainTile::Coal(metadata)) => Some(*metadata),
            _ => None,
        }
    }

    pub fn from_chunk_tile_id_and_metadata(chunk_tile_id: u8, metadata: Option<u32>) -> (tile:
        Option<Self>)
        ensures
            tile == Self::from_id(chunk_tile_id, metadata),
    {
        match (chunk_tile_id, metadata) {
            (0, _) => Some(TerrainTile::Static(StaticTerrainTile::Water)),
            (1, _) => Some(TerrainTile::Static(StaticTerrainTile::Stone)),
            (2, _) => Some(TerrainTile::Static(StaticTerrainTile::Impassable)),
            (3, Some(metadata)) => Some(TerrainTile::Complex(ComplexTerrainTile::Iron(metadata))),
            (4, Some(metadata)) => Some(TerrainTile::Complex(ComplexTerrainTile::Copper(metadata))),
            (5, Some(metadata)) => Some(TerrainTile::Complex(ComplexTerrainTile::Coal(metadata))),
            _ => None,
        }
    }
}

/// Every tile is found again from its own id and magnitude.
pub proof fn lemma_tile_id_round_trip(tile: TerrainTile)
    ensures
        TerrainTile::from_id(tile.tile_id(), tile.magnitude()) == Some(tile),
        TerrainTile::decoded(tile.tile_id(), tile.magnitude()) == tile,
        tile.tile_id() <= 5,
        tile.magnitude() is Some <==> tile.tile_id() >= 3,
{
}

} // verus!
