use vstd::prelude::*;

use crate::geometry::{QUERY_LIMIT, SUBPIXELS};

verus! {

/// Most tiles along either side of a map.
pub const MAX_GRID_SIDE: usize = 1_000_000;

/// Largest tile side in pixels.
pub const MAX_TILE_SIDE: i64 = 1024;

/// The two layers the engine reads.
#[derive(Clone, Copy, Debug, PartialEq, Eq, Structural)]
pub enum Layer {
    /// Non-empty tiles block movement.
    Collision,
    /// Gameplay markers: goal, spawn point, hazard.
    Logic,
}

/// Mathematical view of a tilemap.
pub ghost struct TileGrid {
    pub columns: nat,
    pub rows: nat,
    pub tile_width: int,
    pub tile_height: int,
    pub collision: Seq<Option<u32>>,
    pub logic: Seq<Option<u32>>,
}

impl TileGrid {
    pub open spec fn wf(self) -> bool {
        &&& 0 < self.tile_width <= MAX_TILE_SIDE
        &&& 0 < self.tile_height <= MAX_TILE_SIDE
        &&& self.columns <= MAX_GRID_SIDE
        &&& self.rows <= MAX_GRID_SIDE
        &&& self.collision.len() == self.columns * self.rows
        &&& self.logic.len() == self.columns * self.rows
    }

    pub open spec fn layer(self, layer: Layer) -> Seq<Option<u32>> {
        match layer {
            Layer::Collision => self.collision,
            Layer::Logic => self.logic,
        }
    }

    /// Tile id covering the sub-pixel point `(x, y)`; `None` for an empty
    /// tile or a point outside the grid.
    pub open spec fn tile_at(self, layer: Layer, x: int, y: int) -> Option<u32> {
        if x < 0 || y < 0 {
            None
        } else {
            let col = x / (self.tile_width * SUBPIXELS);
            let row = y / (self.tile_height * SUBPIXELS);
            if col < self.columns && row < self.rows {
                self.layer(layer)[row * self.columns + col]
            } else {
                None
            }
        }
    }

    /// Whether the sub-pixel point `(x, y)` holds no tile on `layer`.
    pub open spec fn is_empty_at(self, layer: Layer, x: int, y: int) -> bool {
        self.tile_at(layer, x, y) is None
    }

    /// Top-left corner, in sub-pixel units, of the tile at row-major index `i`.
    pub open spec fn origin_of(self, i: int) -> (int, int) {
        (
            (i % (self.columns as int)) * self.tile_width * SUBPIXELS,
            (i / (self.columns as int)) * self.tile_height * SUBPIXELS,
        )
    }

    /// `i` is the first row-major index whose tile on `layer` is `id`.
    pub open spec fn is_first_index_of(self, layer: Layer, id: u32, i: int) -> bool {
        &&& 0 <= i < self.layer(layer).len()
        &&& self.layer(layer)[i] == Some(id)
        &&& forall|j: int| 0 <= j < i ==> self.layer(layer)[j] != Some(id)
    }

    /// Some tile on `layer` carries `id`.
    pub open spec fn holds_id(self, layer: Layer, id: u32) -> bool {
        exists|i: int| 0 <= i < self.layer(layer).len() && self.layer(layer)[i] == Some(id)
    }
}

/// A rectangular map of tiles on two layers.
pub struct Tilemap {
    columns: usize,
    rows: usize,
    tile_width: i64,
    tile_height: i64,
    collision: Vec<Option<u32>>,
    logic: Vec<Option<u32>>,
}

impl View for Tilemap {
    type V = TileGrid;

    closed spec fn view(&self) -> TileGrid {
        TileGrid {
            columns: self.columns as nat,
            rows: self.rows as nat,
            tile_width: self.tile_width as int,
            tile_height: self.tile_height as int,
            collision: self.collision@,
            logic: self.logic@,
        }
    }
}

impl Tilemap {
    #[verifier::type_invariant]
    spec fn inv(self) -> bool {
        self@.wf()
    }

    /// Builds a map of `columns` by `rows` tiles, each `tile_width` by
    /// `tile_height` pixels, from its two layers in row-major order.
    pub fn new(
        columns: usize,
        rows: usize,
        tile_width: i64,
        tile_height: i64,
        collision: Vec<Option<u32>>,
        logic: Vec<Option<u32>>,
    ) -> (r: Option<Tilemap>)
        ensures
            r is Some <==> (TileGrid {
                columns: columns as nat,
                rows: rows as nat,
                tile_width: tile_width as int,
                tile_height: tile_height as int,
                collision: collision@,
                logic: logic@,
            }).wf(),
            r matches Some(m) ==> m@ == (TileGrid {
                columns: columns as nat,
                rows: rows as nat,
                tile_width: tile_width as int,
                tile_height: tile_height as int,
                collision: collision@,
                logic: logic@,
            }),
    {
        if tile_width <= 0 || tile_width > MAX_TILE_SIDE || tile_height <= 0 || tile_height
            > MAX_TILE_SIDE || columns > MAX_GRID_SIDE || rows > MAX_GRID_SIDE {
            return None;
        }
        assert(columns * rows <= MAX_GRID_SIDE * MAX_GRID_SIDE) by (nonlinear_arith)
            requires
                columns <= MAX_GRID_SIDE,
                rows <= MAX_GRID_SIDE,
        ;
        let count = columns as u64 * rows as u64;
        if collision.len() as u64 != count || logic.len() as u64 != count {
            return None;
        }
        Some(Tilemap { columns, rows, tile_width, tile_height, collision, logic })
    }

    /// Tile id on `layer` at the sub-pixel point `(x, y)`, `None` when the
    /// tile is empty or the point lies outside the map.
    pub fn get_id_at_position(&self, layer: Layer, x: i64, y: i64) -> (r: Option<u32>)
        requires
            -QUERY_LIMIT <= x <= QUERY_LIMIT,
            -QUERY_LIMIT <= y <= QUERY_LIMIT,
        ensures
            r == self@.tile_at(layer, x as int, y as int),
    {
        proof {
            use_type_invariant(self);
        }
        if x < 0 || y < 0 {
            return None;
        }
        let col = x / (self.tile_width * SUBPIXELS);
        let row = y / (self.tile_height * SUBPIXELS);
        if col < self.columns as i64 && row < self.rows as i64 {
            let c = col as usize;
            let r = row as usize;
            let columns = self.columns;
            let rows = self.rows;
            assert(r * columns + c < columns * rows && r * columns <= columns * rows)
                by (nonlinear_arith)
                requires
                    r < rows,
                    c < columns,
            ;
            let n = self.collision.len();
            assert(n == columns * rows);
            let i = r * columns + c;
            match layer {
                Layer::Collision => self.collision[i],
                Layer::Logic => self.logic[i],
            }
        } else {
            None
        }
    }

    /// Index, in row-major order, of the first tile on `layer` that carries `id`.
    pub fn first_index_of(&self, layer: Layer, id: u32) -> (r: Option<usize>)
        ensures
            r is None <==> !self@.holds_id(layer, id),
            r matches Some(i) ==> self@.is_first_index_of(layer, id, i as int) && i < self@.columns
                * self@.rows,
    {
        proof {
            use_type_invariant(self);
        }
        let tiles = match layer {
            Layer::Collision => &self.collision,
            Layer::Logic => &self.logic,
        };
        let mut i: usize = 0;
        while i < tiles.len()
            invariant
                tiles@ == self@.layer(layer),
                self@.wf(),
                0 <= i <= tiles.len(),
                forall|j: int| 0 <= j < i ==> tiles@[j] != Some(id),
            decreases tiles.len() - i,
        {
            if tiles[i] == Some(id) {
                return Some(i);
            }
            i = i + 1;
        }
        None
    }

    /// Top-left corner, in sub-pixel units, of the tile at row-major index `i`.
    pub fn tile_origin(&self, i: usize) -> (r: (i64, i64))
        requires
            i < self@.columns * self@.rows,
        ensures
            r.0 as int == self@.origin_of(i as int).0,
            r.1 as int == self@.origin_of(i as int).1,
            0 <= r.0 <= MAX_GRID_SIDE * MAX_TILE_SIDE * SUBPIXELS,
            0 <= r.1 <= MAX_GRID_SIDE * MAX_TILE_SIDE * SUBPIXELS,
    {
        proof {
            use_type_invariant(self);
        }
        let columns = self.columns;
        let rows = self.rows;
        assert(columns > 0) by (nonlinear_arith)
            requires
                i < columns * rows,
        ;
        let col = i % columns;
        let row = i / columns;
        assert(row < rows) by (nonlinear_arith)
            requires
                i < columns * rows,
                row == i / columns,
                columns > 0,
        ;
        let tw = self.tile_width;
        let th = self.tile_height;
        assert(0 <= col * tw * SUBPIXELS <= MAX_GRID_SIDE * MAX_TILE_SIDE * SUBPIXELS)
            by (nonlinear_arith)
            requires
                col < MAX_GRID_SIDE,
                0 < tw <= MAX_TILE_SIDE,
        ;
        assert(0 <= row * th * SUBPIXELS <= MAX_GRID_SIDE * MAX_TILE_SIDE * SUBPIXELS)
            by (nonlinear_arith)
            requires
                row < MAX_GRID_SIDE,
                0 < th <= MAX_TILE_SIDE,
        ;
        (col as i64 * tw * SUBPIXELS, row as i64 * th * SUBPIXELS)
    }
}

} // verus!
