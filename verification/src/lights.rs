use vstd::prelude::*;

use crate::position::{off_board, Position};

verus! {

/// Number of LEDs along each side of the LED grid: one per board cell.
pub const UBOARD_SIZE: usize = 7;

/// Number of LEDs on the strip that forms the grid.
pub const LED_COUNT: usize = 49;

/// The colour of one LED.
#[derive(Clone, Copy, Debug, PartialEq, Eq, Structural)]
pub struct Rgb {
    pub r: u8,
    pub g: u8,
    pub b: u8,
}

/// The colours of the LED grid, indexed by board column, then board row.
pub type LedGrid = [[Rgb; UBOARD_SIZE]; UBOARD_SIZE];

/// The colours sent down the LED strip, in strip order.
pub type LedBuffer = [Rgb; LED_COUNT];

/// For each LED of the strip, in strip order, the board cell it shows.
pub type GridBufferMap = [(usize, usize); LED_COUNT];

/// How the LED grid is turned relative to the board.
#[derive(Clone, Copy, Debug, PartialEq, Eq, Structural)]
pub enum BoardOrientation {
    Orient0,
    Orient90,
    Orient180,
    Orient270,
}

/// The board cell shown by the LED at column `x`, row `y` of the strip's own
/// layout, when the grid is turned by `orientation`.
pub open spec fn turned(orientation: BoardOrientation, x: int, y: int) -> (int, int) {
    let last = UBOARD_SIZE - 1;
    match orientation {
        BoardOrientation::Orient0 => (y, last - x),
        BoardOrientation::Orient90 => (x, y),
        BoardOrientation::Orient180 => (last - y, x),
        BoardOrientation::Orient270 => (last - x, last - y),
    }
}

/// The strip runs back and forth: LED `i` lies in row `i / 7`, left to right
/// on even rows and right to left on odd ones. Its column and row.
pub open spec fn serpentine(i: int) -> (int, int) {
    let row = i / UBOARD_SIZE as int;
    let along = i % UBOARD_SIZE as int;
    if row % 2 != 0 {
        (UBOARD_SIZE - 1 - along, row)
    } else {
        (along, row)
    }
}

/// The board cell that LED `i` of the strip shows.
pub open spec fn led_cell(orientation: BoardOrientation, i: int) -> (int, int) {
    let (x, y) = serpentine(i);
    turned(orientation, x, y)
}

/// The LED of the strip that shows board cell `(cx, cy)`.
pub open spec fn cell_led(orientation: BoardOrientation, cx: int, cy: int) -> int {
    let last = UBOARD_SIZE - 1;
    let (x, y) = match orientation {
        BoardOrientation::Orient0 => (last - cy, cx),
        BoardOrientation::Orient90 => (cx, cy),
        BoardOrientation::Orient180 => (cy, last - cx),
        BoardOrientation::Orient270 => (last - cx, last - cy),
    };
    if y % 2 != 0 {
        y * UBOARD_SIZE + (UBOARD_SIZE - 1 - x)
    } else {
        y * UBOARD_SIZE + x
    }
}

/// Whether a pair of indices names a cell of the grid.
pub open spec fn on_grid(c: (int, int)) -> bool {
    0 <= c.0 < UBOARD_SIZE && 0 <= c.1 < UBOARD_SIZE
}

impl BoardOrientation {
    /// The board cell shown by the LED at column `x`, row `y` of the strip's
    /// own layout (see `turned`).
    pub fn transform(self, x: usize, y: usize) -> (r: (usize, usize))
        requires
            self == BoardOrientation::Orient0 || self == BoardOrientation::Orient270 ==> x < UBOARD_SIZE,
            self == BoardOrientation::Orient180 || self == BoardOrientation::Orient270 ==> y < UBOARD_SIZE,
        ensures
            (r.0 as int, r.1 as int) == turned(self, x as int, y as int),
    {
        match self {
            BoardOrientation::Orient0 => (y, UBOARD_SIZE - 1 - x),
            BoardOrientation::Orient90 => (x, y),
            BoardOrientation::Orient180 => (UBOARD_SIZE - 1 - y, x),
            BoardOrientation::Orient270 => (UBOARD_SIZE - 1 - x, UBOARD_SIZE - 1 - y),
        }
    }
}

/// Each LED of the strip shows a cell of the grid, and the LED found for a
/// cell shows that cell.
pub proof fn lemma_led_cell_inverse(orientation: BoardOrientation, i: int)
    requires
        0 <= i < LED_COUNT,
    ensures
        on_grid(led_cell(orientation, i)),
        cell_led(orientation, led_cell(orientation, i).0, led_cell(orientation, i).1) == i,
{
    vstd::arithmetic::div_mod::lemma_fundamental_div_mod(i, UBOARD_SIZE as int);
    assert(0 <= i % 7 < 7);
    assert(0 <= i / 7 < 7);
}

/// Each cell of the grid is shown by an LED of the strip.
pub proof fn lemma_cell_led_inverse(orientation: BoardOrientation, cx: int, cy: int)
    requires
        on_grid((cx, cy)),
    ensures
        0 <= cell_led(orientation, cx, cy) < LED_COUNT,
        led_cell(orientation, cell_led(orientation, cx, cy)) == (cx, cy),
{
    let i = cell_led(orientation, cx, cy);
    let last = UBOARD_SIZE - 1;
    let (x, y) = match orientation {
        BoardOrientation::Orient0 => (last - cy, cx),
        BoardOrientation::Orient90 => (cx, cy),
        BoardOrientation::Orient180 => (cy, last - cx),
        BoardOrientation::Orient270 => (last - cx, last - cy),
    };
    let along = if y % 2 != 0 { UBOARD_SIZE - 1 - x } else { x };
    assert(i == y * 7 + along);
    vstd::arithmetic::div_mod::lemma_fundamental_div_mod_converse(i, 7, y, along);
}

/// The map from the LEDs of the strip, in strip order, to the board cells
/// they show: a strip laid back and forth over the grid, turned by
/// `orientation`.
pub fn build_grid_buffer_map(orientation: BoardOrientation) -> (map: GridBufferMap)
    ensures
        forall|i: int| 0 <= i < LED_COUNT ==> (#[trigger] map[i].0 as int, map[i].1 as int) == led_cell(orientation, i),
{
    let mut map: GridBufferMap = [(0usize, 0usize); LED_COUNT];
    let mut i: usize = 0;
    while i < LED_COUNT
        invariant
            i <= LED_COUNT,
            forall|j: int| 0 <= j < i ==> (#[trigger] map[j].0 as int, map[j].1 as int) == led_cell(orientation, j),
        decreases LED_COUNT - i,
    {
        let y_pos = i / UBOARD_SIZE;
        let is_odd_y_pos = y_pos % 2 != 0;
        let x_pos = if is_odd_y_pos {
            UBOARD_SIZE - 1 - i % UBOARD_SIZE
        } else {
            i % UBOARD_SIZE
        };
        assert(y_pos < UBOARD_SIZE);
        let cell = orientation.transform(x_pos, y_pos);
        map[i] = cell;
        i += 1;
    }
    map
}

/// Every board cell is shown by exactly one LED of the map: the map is a
/// one-to-one correspondence between the strip and the grid.
pub proof fn lemma_grid_buffer_map_bijective(orientation: BoardOrientation, map: Seq<(usize, usize)>)
    requires
        map.len() == LED_COUNT,
        forall|i: int| 0 <= i < LED_COUNT ==> (#[trigger] map[i].0 as int, map[i].1 as int) == led_cell(orientation, i),
    ensures
        all_on_grid(map),
        forall|i: int, j: int| 0 <= i < LED_COUNT && 0 <= j < LED_COUNT && i != j ==> #[trigger] map[i] != #[trigger] map[j],
        forall|cx: int, cy: int| #![trigger cell_led(orientation, cx, cy)] on_grid((cx, cy)) ==> {
            let i = cell_led(orientation, cx, cy);
            &&& 0 <= i < LED_COUNT
            &&& map[i].0 == cx
            &&& map[i].1 == cy
        },
{
    assert forall|i: int| 0 <= i < map.len() implies #[trigger] map[i].0 < UBOARD_SIZE && map[i].1 < UBOARD_SIZE by {
        lemma_led_cell_inverse(orientation, i);
        assert((map[i].0 as int, map[i].1 as int) == led_cell(orientation, i));
    }
    assert forall|i: int, j: int| 0 <= i < LED_COUNT && 0 <= j < LED_COUNT && i != j implies #[trigger] map[i] != #[trigger] map[j] by {
        lemma_led_cell_inverse(orientation, i);
        lemma_led_cell_inverse(orientation, j);
        assert((map[i].0 as int, map[i].1 as int) == led_cell(orientation, i));
        assert((map[j].0 as int, map[j].1 as int) == led_cell(orientation, j));
        if map[i] == map[j] {
            assert(led_cell(orientation, i) == led_cell(orientation, j));
        }
    }
    assert forall|cx: int, cy: int| #![trigger cell_led(orientation, cx, cy)] on_grid((cx, cy)) implies {
        let i = cell_led(orientation, cx, cy);
        &&& 0 <= i < LED_COUNT
        &&& map[i].0 == cx
        &&& map[i].1 == cy
    } by {
        lemma_cell_led_inverse(orientation, cx, cy);
        let i = cell_led(orientation, cx, cy);
        assert((map[i].0 as int, map[i].1 as int) == led_cell(orientation, i));
    }
}


/// Whether every entry of a map names a cell of the grid.
pub open spec fn all_on_grid(map: Seq<(usize, usize)>) -> bool {
    forall|i: int| 0 <= i < map.len() ==> #[trigger] map[i].0 < UBOARD_SIZE && map[i].1 < UBOARD_SIZE
}

/// Copies the grid's colours into the strip buffer, LED `i` taking the
/// colour of the cell `map[i]`.
pub fn process_lights(grid: &LedGrid, buffer: &mut LedBuffer, map: &GridBufferMap)
    requires
        all_on_grid(map@),
    ensures
        forall|i: int| 0 <= i < LED_COUNT ==> #[trigger] final(buffer)[i] == grid[map[i].0 as int][map[i].1 as int],
{
    let mut i: usize = 0;
    while i < LED_COUNT
        invariant
            i <= LED_COUNT,
            all_on_grid(map@),
            forall|j: int| 0 <= j < i ==> #[trigger] buffer[j] == grid[map[j].0 as int][map[j].1 as int],
        decreases LED_COUNT - i,
    {
        let (x, y) = map[i];
        buffer[i] = grid[x][y];
        i += 1;
    }
}

/// Once the strip buffer is filled through the map of an orientation, the
/// LED that shows each board cell carries that cell's colour.
pub proof fn lemma_strip_shows_grid(orientation: BoardOrientation, map: Seq<(usize, usize)>, grid: LedGrid, buffer: LedBuffer)
    requires
        map.len() == LED_COUNT,
        forall|i: int| 0 <= i < LED_COUNT ==> (#[trigger] map[i].0 as int, map[i].1 as int) == led_cell(orientation, i),
        forall|i: int| 0 <= i < LED_COUNT ==> #[trigger] buffer[i] == grid[map[i].0 as int][map[i].1 as int],
    ensures
        forall|cx: int, cy: int| #![trigger cell_led(orientation, cx, cy)] on_grid((cx, cy)) ==> buffer[cell_led(orientation, cx, cy)] == grid[cx][cy],
{
    lemma_grid_buffer_map_bijective(orientation, map);
    assert forall|cx: int, cy: int| #![trigger cell_led(orientation, cx, cy)] on_grid((cx, cy)) implies buffer[cell_led(orientation, cx, cy)] == grid[cx][cy] by {
        let i = cell_led(orientation, cx, cy);
        assert(map[i].0 == cx && map[i].1 == cy);
        assert(buffer[i] == grid[map[i].0 as int][map[i].1 as int]);
    }
}

/// The colour of the board where no entity stands: red while the colour of
/// death is shown, dark otherwise.
pub open spec fn base_color(show_death_throes: bool) -> Rgb {
    if show_death_throes {
        Rgb { r: 255, g: 0, b: 0 }
    } else {
        Rgb { r: 0, g: 0, b: 0 }
    }
}

/// The colour of the LED of board cell `(x, y)` once the entities
/// `entities` (each a cell and a colour) are drawn in order over `base`: the
/// colour of the last entity drawn on that cell, entities off the board
/// being skipped.
pub open spec fn lit_cell(entities: Seq<(Position, Rgb)>, base: Rgb, x: int, y: int) -> Rgb
    decreases entities.len(),
{
    if entities.len() == 0 {
        base
    } else {
        let (p, color) = entities.last();
        if !off_board(p) && p.x == x && p.y == y {
            color
        } else {
            lit_cell(entities.drop_last(), base, x, y)
        }
    }
}

/// Draws the board on the LED grid: the base colour everywhere (red while
/// the colour of death is shown, dark otherwise), then each entity on the
/// board in its colour; entities off the board are left out.
pub fn update_render_proxy(led_grid: &mut LedGrid, entities: &Vec<(Position, Rgb)>, show_death_throes: bool)
    ensures
        forall|x: int, y: int| 0 <= x < UBOARD_SIZE && 0 <= y < UBOARD_SIZE ==> #[trigger] final(led_grid)[x][y] == lit_cell(entities@, base_color(show_death_throes), x, y),
{
    let base = if show_death_throes {
        Rgb { r: 255, g: 0, b: 0 }
    } else {
        Rgb { r: 0, g: 0, b: 0 }
    };
    *led_grid = [[base; UBOARD_SIZE]; UBOARD_SIZE];
    let n = entities.len();
    let mut k: usize = 0;
    while k < n
        invariant
            n == entities.len(),
            k <= n,
            base == base_color(show_death_throes),
            forall|x: int, y: int| 0 <= x < UBOARD_SIZE && 0 <= y < UBOARD_SIZE ==> #[trigger] led_grid[x][y] == lit_cell(entities@.take(k as int), base, x, y),
        decreases n - k,
    {
        let (position, color) = entities[k];
        assert(entities@.take(k + 1).drop_last() =~= entities@.take(k as int));
        if !position.out_of_bounds() {
            let px = position.x as usize;
            let py = position.y as usize;
            let mut row = led_grid[px];
            row[py] = color;
            led_grid[px] = row;
        }
        k += 1;
    }
    assert(entities@.take(n as int) =~= entities@);
}

} // verus!
