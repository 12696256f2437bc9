use vstd::prelude::*;

use crate::color::RGBColor;

verus! {

/// The longest distance between two points that the map is built to hold.
pub const MAP_MAX_DISTANCE: usize = 5;

/// A map of tiles joined to their neighbors.
pub struct TileMap {
    /// The tiles of the map
    tiles: Vec<Tile>,
    /// The longest distance between two points within the map
    max_distance: usize,
}

/// The five directions in which a tile can have a neighbor.
#[allow(non_camel_case_types)]
#[derive(Clone, Copy, Debug, PartialEq, Eq, Structural)]
pub enum Direction5 {
    BACK,
    BACK_LEFT,
    FRONT_LEFT,
    FRONT_RIGHT,
    BACK_RIGHT,
}

/// Walks the items of a vector once, circularly, starting at `offset`.
pub struct CircularIterator<'a, T> {
    vec: &'a Vec<T>,
    offset: usize,
    current_count: usize,
}

/// The items that a circular walk of `s` from `offset` yields, in order.
pub open spec fn circular_items<T>(s: Seq<T>, offset: nat) -> Seq<T> {
    Seq::new(s.len(), |i: int| s[(offset + i) % (s.len() as int)])
}

impl<'a, T: Copy> CircularIterator<'a, T> {
    /// The items that are still to come.
    pub closed spec fn remaining(&self) -> Seq<T> {
        circular_items(self.vec@, self.offset as nat).skip(
            if self.current_count <= self.vec@.len() {
                self.current_count as int
            } else {
                self.vec@.len() as int
            },
        )
    }

    /// The vector walked.
    pub closed spec fn items(&self) -> Seq<T> {
        self.vec@
    }

    /// Hands out the next item, or `None` once every item of the vector has
    /// been handed out.
    pub fn next(&mut self) -> (r: Option<T>)
        ensures
            old(self).remaining().len() == 0 ==> r is None && final(self).remaining().len() == 0,
            old(self).remaining().len() > 0 ==> r == Some(old(self).remaining()[0])
                && final(self).remaining() == old(self).remaining().skip(1),
            final(self).items() == old(self).items(),
    {
        if self.current_count >= self.vec.len() {
            None
        } else {
            let len = self.vec.len();
            let o = self.offset % len;
            let c = self.current_count;
            let idx = if c < len - o {
                o + c
            } else {
                c - (len - o)
            };
            proof {
                let off = self.offset as int;
                let m = len as int;
                vstd::arithmetic::div_mod::lemma_add_mod_noop_right(c as int, off, m);
                vstd::arithmetic::div_mod::lemma_small_mod(c as nat, m as nat);
                if c < len - o {
                    vstd::arithmetic::div_mod::lemma_small_mod(idx as nat, m as nat);
                } else {
                    vstd::arithmetic::div_mod::lemma_mod_add_multiples_vanish(idx as int, m);
                    vstd::arithmetic::div_mod::lemma_small_mod(idx as nat, m as nat);
                }
                assert(idx as int == (off + c) % m);
                assert(old(self).remaining()[0] == self.vec@[idx as int]);
            }
            let item = self.vec[idx];
            self.current_count = self.current_count + 1;
            proof {
                let old_rem = old(self).remaining();
                assert(self.remaining() =~= old_rem.skip(1));
            }
            Some(item)
        }
    }
}

/// A tile of the map: the indices of its neighbors and what it holds.
pub struct Tile {
    neighbors: Vec<Option<usize>>,
    content: i32,
}

/// What a tile shows.
#[derive(Clone, Copy, Debug, PartialEq, Eq, Structural)]
pub enum TileContent {
    Empty,
    Wall(RGBColor),
}

/// What a tile whose content code is `code` shows.
pub open spec fn content_of(code: i32) -> TileContent {
    if code == 1 {
        TileContent::Wall(RGBColor { r: 255, g: 0, b: 0 })
    } else if code == 2 {
        TileContent::Wall(RGBColor { r: 0, g: 255, b: 0 })
    } else if code == 3 {
        TileContent::Wall(RGBColor { r: 0, g: 0, b: 255 })
    } else if code == 4 {
        TileContent::Wall(RGBColor { r: 255, g: 255, b: 0 })
    } else {
        TileContent::Empty
    }
}

impl Tile {
    pub fn new(neighbors: Vec<Option<usize>>, content: i32) -> (t: Tile)
        ensures
            t.neighbors() == neighbors@,
            t.content() == content,
    {
        Tile { neighbors, content }
    }

    /// The neighbors of the tile, by direction.
    pub closed spec fn neighbors(&self) -> Seq<Option<usize>> {
        self.neighbors@
    }

    /// The content code of the tile.
    pub closed spec fn content(&self) -> i32 {
        self.content
    }

    /// Walks the tile's neighbors once, from the first.
    pub fn iter(&self) -> (it: CircularIterator<'_, Option<usize>>)
        ensures
            it.items() == self.neighbors(),
            it.remaining() == self.neighbors(),
    {
        let it = CircularIterator { vec: &self.neighbors, offset: 0, current_count: 0 };
        proof {
            let items = circular_items(self.neighbors@, 0);
            assert forall|i: int| 0 <= i < items.len() implies #[trigger] items[i]
                == self.neighbors@[i] by {
                vstd::arithmetic::div_mod::lemma_small_mod(i as nat, self.neighbors@.len());
            }
            assert(items =~= self.neighbors@);
            assert(it.remaining() =~= self.neighbors());
        }
        it
    }

    /// Walks the tile's neighbors once, circularly, starting at `offset`.
    pub fn iter_from(&self, offset: usize) -> (it: CircularIterator<'_, Option<usize>>)
        ensures
            it.items() == self.neighbors(),
            it.remaining() == circular_items(self.neighbors(), offset as nat),
    {
        let it = CircularIterator { vec: &self.neighbors, offset: offset, current_count: 0 };
        proof {
            assert(it.remaining() =~= circular_items(self.neighbors(), offset as nat));
        }
        it
    }

    /// What the tile shows: a wall of the color that its content code names,
    /// or nothing.
    pub fn get_color(&self) -> (c: TileContent)
        ensures
            c == content_of(self.content()),
    {
        match self.content {
            1 => TileContent::Wall(RGBColor::red()),
            2 => TileContent::Wall(RGBColor::green()),
            3 => TileContent::Wall(RGBColor::blue()),
            4 => TileContent::Wall(RGBColor::yellow()),
            _ => TileContent::Empty,
        }
    }
}

impl TileMap {
    /// Creates a map from its tiles.
    pub fn new(tiles: Vec<Tile>) -> (m: TileMap)
        ensures
            m.tile_count() == tiles@.len(),
            m.max_distance_spec() == MAP_MAX_DISTANCE,
    {
        TileMap { tiles, max_distance: MAP_MAX_DISTANCE }
    }

    /// The number of tiles of the map.
    pub closed spec fn tile_count(&self) -> nat {
        self.tiles@.len()
    }

    /// The longest distance between two points within the map.
    pub closed spec fn max_distance_spec(&self) -> usize {
        self.max_distance
    }

    /// The tile at a position of the map. The map holds no tile at any
    /// position, so this is always `None`.
    pub fn tile(&self, position: &TilePosition) -> (t: Option<Tile>)
        ensures
            t is None,
    {
        None
    }

    /// The longest distance between two points that can exist within the map.
    pub fn max_distance(&self) -> (d: usize)
        ensures
            d == self.max_distance_spec(),
    {
        self.max_distance
    }
}

/// The position of a tile within the map.
#[derive(Clone, Copy, Debug, PartialEq, Eq, Structural)]
pub struct TilePosition {
    pub x: isize,
    pub y: isize,
}

} // verus!
