//! Chunks of the tile world: grid addressing, terrain classification,
//! procedural layer generation, and the loader that materializes layers for
//! every chunk that is not yet loaded.

use vstd::prelude::*;

verus! {

/// Width and height, in tiles, of one square chunk.
pub const CHUNK_EXTENT: u32 = 32;

/// Identifies a chunk in the infinite two-dimensional world grid.
#[derive(Clone, Copy, PartialEq, Eq, Structural, Debug)]
pub struct Chunk {
    pub x: i32,
    pub y: i32,
}

impl Chunk {
    pub fn new(x: i32, y: i32) -> (r: Self)
        ensures
            r.x == x,
            r.y == y,
    {
        Self { x, y }
    }
}

/// Size, in tiles, of one tile-map layer.
#[derive(Clone, Copy, PartialEq, Eq, Structural, Debug)]
pub struct MapSize {
    pub x: u32,
    pub y: u32,
}

/// Position of a tile inside its chunk.
#[derive(Clone, Copy, PartialEq, Eq, Structural, Debug)]
pub struct TilePos {
    pub x: u32,
    pub y: u32,
}

/// Position of a tile in the world grid.
#[derive(Clone, Copy, PartialEq, Eq, Structural, Debug)]
pub struct GlobalPos {
    pub x: i32,
    pub y: i32,
}

/// Maps a chunk coordinate and an in-chunk tile coordinate to the global tile
/// coordinate: each axis is `chunk * size + local`.
pub fn get_global_tile_position(chunk: &Chunk, size: &MapSize, pos: &TilePos) -> (r: GlobalPos)
    requires
        pos.x < size.x,
        pos.y < size.y,
        size.x as int <= i32::MAX,
        size.y as int <= i32::MAX,
        i32::MIN <= chunk.x as int * size.x as int,
        chunk.x as int * size.x as int + pos.x as int <= i32::MAX,
        i32::MIN <= chunk.y as int * size.y as int,
        chunk.y as int * size.y as int + pos.y as int <= i32::MAX,
    ensures
        r.x as int == chunk.x as int * size.x as int + pos.x as int,
        r.y as int == chunk.y as int * size.y as int + pos.y as int,
{
    GlobalPos {
        x: chunk.x * (size.x as i32) + (pos.x as i32),
        y: chunk.y * (size.y as i32) + (pos.y as i32),
    }
}

/// Tile texture index drawn for a surface tile (global row zero).
pub const SURFACE_TILE: u32 = 5;

/// Tile texture index drawn for an underground tile (global rows below zero).
pub const UNDERGROUND_TILE: u32 = 21;

/// Tile texture index that fills every cell of the background layer.
pub const BACKGROUND_TILE: u32 = 54;

/// Terrain class of a global row.
#[derive(Clone, Copy, PartialEq, Eq, Structural, Debug)]
pub enum TileKind {
    Surface,
    Underground,
    Empty,
}

/// Classifies a tile by its global vertical coordinate: the single surface
/// row lies at zero, every row below it is underground, every row above it
/// is empty.
pub fn classify(global_y: i32) -> (r: TileKind)
    ensures
        (r == TileKind::Surface) <==> global_y == 0,
        (r == TileKind::Underground) <==> global_y < 0,
        (r == TileKind::Empty) <==> global_y > 0,
{
    if global_y == 0 {
        TileKind::Surface
    } else if global_y < 0 {
        TileKind::Underground
    } else {
        TileKind::Empty
    }
}

/// Foreground texture of a global row, `None` where the row is empty.
pub open spec fn spec_foreground_texture(global_y: int) -> Option<u32> {
    if global_y == 0 {
        Some(SURFACE_TILE)
    } else if global_y < 0 {
        Some(UNDERGROUND_TILE)
    } else {
        None
    }
}

/// Foreground texture of a global row: surface and underground rows get their
/// fixed texture, empty rows get no tile.
pub fn foreground_texture(global_y: i32) -> (r: Option<u32>)
    ensures
        r == spec_foreground_texture(global_y as int),
{
    match classify(global_y) {
        TileKind::Surface => Some(SURFACE_TILE),
        TileKind::Underground => Some(UNDERGROUND_TILE),
        TileKind::Empty => None,
    }
}

/// One tile-map layer of a chunk: a `CHUNK_EXTENT` by `CHUNK_EXTENT` grid of
/// optional texture indices, stored column-major (cell `(x, y)` at index
/// `x * 32 + y`).
pub struct TileLayer {
    pub tiles: Vec<Option<u32>>,
}

impl TileLayer {
    /// A layer holds exactly one cell per tile position.
    pub open spec fn wf(self) -> bool {
        self.tiles@.len() == 1024
    }

    /// The texture stored for local cell `(x, y)`.
    pub open spec fn spec_cell(self, x: int, y: int) -> Option<u32> {
        self.tiles@[x * 32 + y]
    }

    /// Reads the texture stored for local cell `(x, y)`.
    pub fn tile_at(&self, x: u32, y: u32) -> (r: Option<u32>)
        requires
            self.wf(),
            x < 32,
            y < 32,
        ensures
            r == self.spec_cell(x as int, y as int),
    {
        self.tiles[(x * 32 + y) as usize]
    }
}

/// All global tile coordinates of the chunk fit in `i32`.
pub open spec fn chunk_in_range(c: Chunk) -> bool {
    &&& i32::MIN <= c.x as int * 32
    &&& c.x as int * 32 + 31 <= i32::MAX
    &&& i32::MIN <= c.y as int * 32
    &&& c.y as int * 32 + 31 <= i32::MAX
}

/// Foreground layer contents of a chunk at vertical coordinate `cy`: cell
/// `(x, y)` holds the foreground texture of global row `cy * 32 + y`.
pub open spec fn spec_foreground_layer(cy: int) -> Seq<Option<u32>> {
    Seq::new(1024, |i: int| spec_foreground_texture(cy * 32 + i % 32))
}

/// Background layer contents: every cell filled with `BACKGROUND_TILE`.
pub open spec fn spec_background_layer() -> Seq<Option<u32>> {
    Seq::new(1024, |i: int| Some(BACKGROUND_TILE))
}

/// Relies on `rand::random`: one draw from the thread-local generator.
/// Nothing is promised of the value.
pub assume_specification<T>[ rand::random::<T> ]() -> (r: T)
    where
        rand::distributions::Standard: rand::distributions::Distribution<T>,
;

/// Generates the two tile layers of a chunk: a foreground classified row by
/// row from the global vertical coordinate, and a uniformly filled
/// background. One random byte is drawn per foreground tile; the draw enters
/// no terrain decision.
pub fn generate_chunk_layers(chunk: &Chunk) -> (r: (TileLayer, TileLayer))
    requires
        chunk_in_range(*chunk),
    ensures
        r.0.tiles@ == spec_foreground_layer(chunk.y as int),
        r.1.tiles@ == spec_background_layer(),
{
    let size = MapSize { x: CHUNK_EXTENT, y: CHUNK_EXTENT };
    let mut fg: Vec<Option<u32>> = Vec::new();
    let mut x: u32 = 0;
    while x < 32
        invariant
            chunk_in_range(*chunk),
            size.x == 32,
            size.y == 32,
            x <= 32,
            fg@.len() == x as int * 32,
            forall|k: int|
                0 <= k < fg@.len() ==> fg@[k] == spec_foreground_texture(
                    chunk.y as int * 32 + k % 32,
                ),
        decreases 32 - x,
    {
        let mut y: u32 = 0;
        while y < 32
            invariant
                chunk_in_range(*chunk),
                size.x == 32,
                size.y == 32,
                x < 32,
                y <= 32,
                fg@.len() == x as int * 32 + y as int,
                forall|k: int|
                    0 <= k < fg@.len() ==> fg@[k] == spec_foreground_texture(
                        chunk.y as int * 32 + k % 32,
                    ),
            decreases 32 - y,
        {
            let tile_pos = TilePos { x, y };
            let _sample: u8 = rand::random();
            let position = get_global_tile_position(chunk, &size, &tile_pos);
            let texture = foreground_texture(position.y);
            proof {
                assert((x as int * 32 + y as int) % 32 == y as int) by (nonlinear_arith)
                    requires
                        0 <= y as int,
                        (y as int) < 32,
                        0 <= x as int,
                {}
            }
            fg.push(texture);
            y += 1;
        }
        x += 1;
    }
    let mut bg: Vec<Option<u32>> = Vec::new();
    let mut i: u32 = 0;
    while i < 1024
        invariant
            i <= 1024,
            bg@.len() == i as int,
            forall|k: int| 0 <= k < bg@.len() ==> bg@[k] == Some(BACKGROUND_TILE),
        decreases 1024 - i,
    {
        bg.push(Some(BACKGROUND_TILE));
        i += 1;
    }
    proof {
        assert(fg@ =~= spec_foreground_layer(chunk.y as int));
        assert(bg@ =~= spec_background_layer());
    }
    (TileLayer { tiles: fg }, TileLayer { tiles: bg })
}

/// Marker attached to a chunk entity once its layers have been generated.
#[derive(Clone, Copy, PartialEq, Eq, Structural, Debug)]
pub struct Loaded;

/// A chunk entity: its coordinate, its load marker, and its child layers.
pub struct ChunkEntry {
    pub chunk: Chunk,
    pub loaded: Option<Loaded>,
    pub layers: Vec<TileLayer>,
}

/// Mathematical view of one chunk entity.
pub ghost struct ChunkModel {
    pub x: int,
    pub y: int,
    pub loaded: bool,
    pub layers: Seq<Seq<Option<u32>>>,
}

impl ChunkEntry {
    /// The view of this entry: its coordinate, whether it is loaded, and the
    /// contents of each of its layers.
    pub open spec fn model(self) -> ChunkModel {
        ChunkModel {
            x: self.chunk.x as int,
            y: self.chunk.y as int,
            loaded: self.loaded is Some,
            layers: self.layers@.map_values(|l: TileLayer| l.tiles@),
        }
    }
}

/// Every chunk entity of the world.
pub struct ChunkStore {
    pub entries: Vec<ChunkEntry>,
}

impl ChunkStore {
    /// The view of the store: the views of its entries, in order.
    pub open spec fn model(self) -> Seq<ChunkModel> {
        self.entries@.map_values(|e: ChunkEntry| e.model())
    }
}

/// One load pass over a single chunk: an already-loaded chunk is left exactly
/// as it is; an unloaded one becomes loaded and gains its two generated
/// layers, foreground first.
pub open spec fn spec_load_chunk(m: ChunkModel) -> ChunkModel {
    if m.loaded {
        m
    } else {
        ChunkModel {
            x: m.x,
            y: m.y,
            loaded: true,
            layers: seq![spec_foreground_layer(m.y), spec_background_layer()],
        }
    }
}

/// One load pass over the whole store.
pub open spec fn spec_load_pass(s: Seq<ChunkModel>) -> Seq<ChunkModel> {
    s.map_values(|m: ChunkModel| spec_load_chunk(m))
}

/// Visits every chunk entity and materializes each one that lacks the
/// `Loaded` marker: generates its two layers, attaches them as children, and
/// marks the chunk loaded. Chunks already loaded are untouched, so no chunk
/// is ever regenerated.
pub fn chunk_spawner(store: &mut ChunkStore)
    requires
        forall|j: int|
            0 <= j < old(store).entries@.len() && old(store).entries@[j].loaded is None
                ==> chunk_in_range(#[trigger] old(store).entries@[j].chunk),
    ensures
        final(store).model() == spec_load_pass(old(store).model()),
{
    let n = store.entries.len();
    let mut i: usize = 0;
    while i < n
        invariant
            n == store.entries@.len(),
            n == old(store).entries@.len(),
            i <= n,
            forall|j: int| i <= j < n ==> store.entries@[j] == old(store).entries@[j],
            forall|j: int|
                0 <= j < i ==> #[trigger] store.entries@[j].model() == spec_load_chunk(
                    old(store).entries@[j].model(),
                ),
            forall|j: int|
                0 <= j < n && old(store).entries@[j].loaded is None ==> chunk_in_range(
                    #[trigger] old(store).entries@[j].chunk,
                ),
        decreases n - i,
    {
        if store.entries[i].loaded.is_none() {
            let chunk = store.entries[i].chunk;
            let (fg, bg) = generate_chunk_layers(&chunk);
            let mut layers: Vec<TileLayer> = Vec::new();
            layers.push(fg);
            layers.push(bg);
            let entry = ChunkEntry { chunk, loaded: Some(Loaded), layers };
            proof {
                assert(entry.layers@.map_values(|l: TileLayer| l.tiles@) =~= seq![
                    spec_foreground_layer(chunk.y as int),
                    spec_background_layer(),
                ]);
            }
            store.entries[i] = entry;
        }
        i += 1;
    }
    proof {
        assert(final(store).model() =~= spec_load_pass(old(store).model()));
    }
}

/// Loading is idempotent: a second load pass over any store leaves exactly
/// what the first pass produced.
pub proof fn lemma_load_pass_idempotent(s: Seq<ChunkModel>)
    ensures
        spec_load_pass(spec_load_pass(s)) == spec_load_pass(s),
{
    assert forall|i: int| 0 <= i < s.len() implies spec_load_pass(spec_load_pass(s))[i]
        == spec_load_pass(s)[i] by {
        assert(spec_load_chunk(spec_load_chunk(s[i])) == spec_load_chunk(s[i]));
    }
    assert(spec_load_pass(spec_load_pass(s)) =~= spec_load_pass(s));
}

} // verus!
