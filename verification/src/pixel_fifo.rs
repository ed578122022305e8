use vstd::prelude::*;

verus! {

/// The states of the pixel fetcher.
#[derive(Debug, Clone, Copy, PartialEq, Eq, Structural)]
pub enum FetchState {
    Tile,
    TileData0,
    TileData1,
    Idle,
    Push,
}

/// One pixel waiting in the FIFO.
#[derive(Debug, Clone, Copy, PartialEq, Eq, Structural)]
pub struct Pixel {
    pub colour: u8,
    pub palette: u8,
    pub priority: u8,
    pub background_priority: u8,
}

/// The pixel FIFO and fetcher of mode 3, which keep at least eight pixels ready for output.
pub struct PixelFifo {
    pub pixel_fifo: Vec<Pixel>,
    pub fetch_state: FetchState,
    pub line_x: u8,
    pub pushed_x: u8,
    pub bgw_fetch_data: [u8; 3],
    pub fetch_entry_data: [u8; 6],
    pub map_x: u8,
    pub map_y: u8,
    pub tile_y: u8,
    pub fifo_x: u8,
}

impl PixelFifo {
    /// An empty FIFO with an idle fetcher.
    pub fn new() -> (r: PixelFifo)
        ensures
            r.pixel_fifo@.len() == 0,
            r.fetch_state == FetchState::Idle,
            r.line_x == 0 && r.pushed_x == 0 && r.map_x == 0 && r.map_y == 0 && r.tile_y == 0 && r.fifo_x == 0,
            r.bgw_fetch_data@ == seq![0u8, 0u8, 0u8],
            r.fetch_entry_data@ == seq![0u8, 0u8, 0u8, 0u8, 0u8, 0u8],
    {
        let bgw_fetch_data = [0u8; 3];
        let fetch_entry_data = [0u8; 6];
        assert(bgw_fetch_data@ =~= seq![0u8, 0u8, 0u8]);
        assert(fetch_entry_data@ =~= seq![0u8, 0u8, 0u8, 0u8, 0u8, 0u8]);
        PixelFifo {
            pixel_fifo: Vec::new(),
            fetch_state: FetchState::Idle,
            line_x: 0,
            pushed_x: 0,
            bgw_fetch_data,
            fetch_entry_data,
            map_x: 0,
            map_y: 0,
            tile_y: 0,
            fifo_x: 0,
        }
    }
}

impl Pixel {
    /// A transparent pixel of palette 0.
    pub fn new() -> (r: Pixel)
        ensures
            r == (Pixel { colour: 0, palette: 0, priority: 0, background_priority: 0 }),
    {
        Pixel { colour: 0, palette: 0, priority: 0, background_priority: 0 }
    }
}

} // verus!
