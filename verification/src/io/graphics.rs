//! The pixel buffer of the 64 by 32 monochrome display.

use vstd::prelude::*;

verus! {

pub type Pixel = bool;

pub type SpriteData = [u8];

pub const WIDTH_PX: usize = 64;

pub const HEIGHT_PX: usize = 32;

pub const BUFFER_SIZE: usize = 2048;

/// Whether a sprite row has a pixel in `column`. Column 0 is the leftmost
/// pixel and the row's most significant bit.
pub open spec fn sprite_bit(line: u8, column: u8) -> bool {
    line & (0x80u8 >> column) != 0
}

/// Where the pixel at (`x`, `y`) lies in the buffer, which is laid out row by
/// row.
pub open spec fn pixel_index(x: int, y: int) -> int {
    x + WIDTH_PX * y
}

/// The pixel that column `column` of row `row` of a sprite lands on when the
/// sprite is drawn from (`x`, `y`). Both coordinates wrap around the screen.
pub open spec fn target(x: u8, y: u8, row: int, column: int) -> int {
    pixel_index((x + column) % (WIDTH_PX as int), (y + row) % (HEIGHT_PX as int))
}

/// Whether row `row` of a sprite drawn from (`x`, `y`) puts a pixel of one of
/// its first `columns` columns on the pixel at `index`.
pub open spec fn row_covers(x: u8, y: u8, row: int, line: u8, columns: int, index: int) -> bool {
    let column = (index % (WIDTH_PX as int) - x) % (WIDTH_PX as int);
    &&& index / (WIDTH_PX as int) == (y + row) % (HEIGHT_PX as int)
    &&& column < columns
    &&& sprite_bit(line, column as u8)
}

/// Whether the first `rows` rows of `sprite`, drawn from (`x`, `y`), flip the
/// pixel at `index`: they do if an odd number of their pixels land on it.
pub open spec fn flips(x: u8, y: u8, sprite: Seq<u8>, rows: int, index: int) -> bool
    decreases rows,
{
    if rows <= 0 {
        false
    } else {
        flips(x, y, sprite, rows - 1, index) != row_covers(
            x,
            y,
            rows - 1,
            sprite[rows - 1],
            8,
            index,
        )
    }
}

/// The buffer after the first `rows` rows of `sprite` were drawn onto it
/// from (`x`, `y`).
pub open spec fn drawn(buffer: Seq<bool>, x: u8, y: u8, sprite: Seq<u8>, rows: int) -> Seq<bool> {
    Seq::new(buffer.len(), |index: int| buffer[index] != flips(x, y, sprite, rows, index))
}

/// Whether one of the first `columns` columns of row `row` lands on a pixel
/// that is lit in `buffer`.
pub open spec fn row_collides(
    buffer: Seq<bool>,
    x: u8,
    y: u8,
    row: int,
    line: u8,
    columns: int,
) -> bool {
    exists|column: int|
        0 <= column < columns && sprite_bit(line, column as u8) && #[trigger] buffer[target(
            x,
            y,
            row,
            column,
        )]
}

/// Whether drawing the first `rows` rows of `sprite` turns a lit pixel off:
/// some row lands on a pixel that is lit when that row's turn comes.
pub open spec fn collides(buffer: Seq<bool>, x: u8, y: u8, sprite: Seq<u8>, rows: int) -> bool
    decreases rows,
{
    if rows <= 0 {
        false
    } else {
        collides(buffer, x, y, sprite, rows - 1) || row_collides(
            drawn(buffer, x, y, sprite, rows - 1),
            x,
            y,
            rows - 1,
            sprite[rows - 1],
            8,
        )
    }
}

/// Whether drawing the first `rows` rows of `sprite` leaves the pixel at
/// `index` dark that was lit before.
pub open spec fn goes_dark(
    buffer: Seq<bool>,
    x: u8,
    y: u8,
    sprite: Seq<u8>,
    rows: int,
    index: int,
) -> bool {
    0 <= index < buffer.len() && buffer[index] && !drawn(buffer, x, y, sprite, rows)[index]
}

pub struct GraphicsBuffer {
    pub buffer: [bool; BUFFER_SIZE],
}

impl View for GraphicsBuffer {
    type V = Seq<bool>;

    open spec fn view(&self) -> Seq<bool> {
        self.buffer@
    }
}

impl GraphicsBuffer {
    /// Where the pixel at (`x`, `y`) lies in the buffer, if it is on the
    /// screen.
    pub open spec fn index_of(x: u8, y: u8) -> Option<usize> {
        if x >= WIDTH_PX || y >= HEIGHT_PX {
            None
        } else {
            Some(pixel_index(x as int, y as int) as usize)
        }
    }

    /// A dark screen.
    pub fn new() -> (graphics: GraphicsBuffer)
        ensures
            graphics@ == Seq::new(BUFFER_SIZE as nat, |index: int| false),
    {
        GraphicsBuffer { buffer: [false;BUFFER_SIZE] }
    }

    pub fn width(&self) -> (width: usize)
        ensures
            width == WIDTH_PX,
    {
        WIDTH_PX
    }

    pub fn height(&self) -> (height: usize)
        ensures
            height == HEIGHT_PX,
    {
        HEIGHT_PX
    }

    /// Turns every pixel off.
    pub fn clear(&mut self)
        ensures
            final(self)@ == Seq::new(BUFFER_SIZE as nat, |index: int| false),
    {
        let mut index: usize = 0;
        while index < BUFFER_SIZE
            invariant
                index <= BUFFER_SIZE,
                self@.len() == BUFFER_SIZE,
                forall|cleared: int| 0 <= cleared < index ==> !self@[cleared],
            decreases BUFFER_SIZE - index,
        {
            self.buffer[index] = false;
            index += 1;
        }
    }

    /// Draws `sprite` from (`canvas_x`, `canvas_y`) by flipping the pixels
    /// that its set bits land on. Each row is eight pixels wide, most
    /// significant bit first, and rows follow each other downwards. A pixel
    /// that would fall off an edge comes back in on the opposite one.
    /// Returns whether any lit pixel was turned off.
    pub fn draw(&mut self, canvas_x: u8, canvas_y: u8, sprite: &[u8]) -> (flipped_pixel: bool)
        ensures
            final(self)@ == drawn(old(self)@, canvas_x, canvas_y, sprite@, sprite@.len() as int),
            flipped_pixel == collides(
                old(self)@,
                canvas_x,
                canvas_y,
                sprite@,
                sprite@.len() as int,
            ),
    {
        let mut flipped_pixel = false;
        let mut sprite_y: usize = 0;
        while sprite_y < sprite.len()
            invariant
                sprite_y <= sprite@.len(),
                self@ == drawn(old(self)@, canvas_x, canvas_y, sprite@, sprite_y as int),
                flipped_pixel == collides(
                    old(self)@,
                    canvas_x,
                    canvas_y,
                    sprite@,
                    sprite_y as int,
                ),
            decreases sprite@.len() - sprite_y,
        {
            let sprite_line = sprite[sprite_y];
            let target_y = (((canvas_y % 32) as usize + sprite_y % HEIGHT_PX) % HEIGHT_PX) as u8;
            let ghost before = self@;
            let ghost flipped_before = flipped_pixel;
            let mut sprite_x: u8 = 0;
            while sprite_x < 8
                invariant
                    sprite_x <= 8,
                    sprite_y < sprite@.len(),
                    sprite_line == sprite@[sprite_y as int],
                    target_y == (canvas_y + sprite_y) % (HEIGHT_PX as int),
                    before.len() == BUFFER_SIZE,
                    self@.len() == BUFFER_SIZE,
                    forall|index: int|
                        0 <= index < BUFFER_SIZE ==> self@[index] == (before[index] != row_covers(
                            canvas_x,
                            canvas_y,
                            sprite_y as int,
                            sprite_line,
                            sprite_x as int,
                            index,
                        )),
                    flipped_pixel == (flipped_before || row_collides(
                        before,
                        canvas_x,
                        canvas_y,
                        sprite_y as int,
                        sprite_line,
                        sprite_x as int,
                    )),
                decreases 8 - sprite_x,
            {
                let pixel = sprite_line & (0x80u8 >> sprite_x) != 0;
                let target_x = ((canvas_x as usize + sprite_x as usize) % WIDTH_PX) as u8;
                proof {
                    lemma_target(canvas_x, canvas_y, sprite_y as int, sprite_x as int);
                    lemma_row_collides_step(
                        before,
                        canvas_x,
                        canvas_y,
                        sprite_y as int,
                        sprite_line,
                        sprite_x as int,
                    );
                }
                if pixel {
                    flipped_pixel = self.flip_pixel(target_x, target_y) || flipped_pixel;
                }
                sprite_x += 1;
            }
            sprite_y += 1;
            assert forall|index: int| 0 <= index < BUFFER_SIZE implies self@[index] == drawn(
                old(self)@,
                canvas_x,
                canvas_y,
                sprite@,
                sprite_y as int,
            )[index] by {
                assert(before[index] == (old(self)@[index] != flips(
                    canvas_x,
                    canvas_y,
                    sprite@,
                    sprite_y - 1,
                    index,
                )));
            }
        }
        flipped_pixel
    }

    /// The pixel at (`x`, `y`), if it is on the screen.
    pub fn get_pixel(&self, x: u8, y: u8) -> (pixel: Option<Pixel>)
        ensures
            pixel == match GraphicsBuffer::index_of(x, y) {
                Some(index) => Some(self@[index as int]),
                None => None,
            },
    {
        match GraphicsBuffer::index_pixel(x, y) {
            Some(index) => Some(self.buffer[index]),
            None => None,
        }
    }

    /// Flips the pixel at (`x`, `y`) and returns what it was. Off the screen
    /// there is nothing to flip, and the answer is `false`.
    pub fn flip_pixel(&mut self, x: u8, y: u8) -> (previous: bool)
        ensures
            match GraphicsBuffer::index_of(x, y) {
                Some(index) => previous == old(self)@[index as int] && final(self)@ == old(
                    self,
                )@.update(index as int, !previous),
                None => !previous && final(self)@ == old(self)@,
            },
    {
        match GraphicsBuffer::index_pixel(x, y) {
            Some(index) => {
                let previous = self.buffer[index];
                self.buffer[index] = !previous;
                previous
            },
            None => false,
        }
    }

    /// Where the pixel at (`x`, `y`) lies in the buffer, if it is on the
    /// screen.
    pub fn index_pixel(x: u8, y: u8) -> (index: Option<usize>)
        ensures
            index == GraphicsBuffer::index_of(x, y),
            index matches Some(index) ==> index < BUFFER_SIZE,
    {
        let x = x as usize;
        let y = y as usize;
        if x >= WIDTH_PX || y >= HEIGHT_PX {
            None
        } else {
            Some(x + WIDTH_PX * y)
        }
    }
}

/// A column's target lies on the screen, in the row that the sprite row
/// wraps to, and the column can be read back from it.
pub proof fn lemma_target(x: u8, y: u8, row: int, column: int)
    requires
        0 <= row,
        0 <= column < 8,
    ensures
        ({
            let index = target(x, y, row, column);
            &&& 0 <= index < BUFFER_SIZE
            &&& index / (WIDTH_PX as int) == (y + row) % (HEIGHT_PX as int)
            &&& index % (WIDTH_PX as int) == (x + column) % (WIDTH_PX as int)
            &&& (index % (WIDTH_PX as int) - x) % (WIDTH_PX as int) == column
        }),
{
}

/// A row with one more column collides if it did before or if the new
/// column has a pixel that lands on a lit one.
proof fn lemma_row_collides_step(
    buffer: Seq<bool>,
    x: u8,
    y: u8,
    row: int,
    line: u8,
    columns: int,
)
    requires
        0 <= columns,
    ensures
        row_collides(buffer, x, y, row, line, columns + 1) == (row_collides(
            buffer,
            x,
            y,
            row,
            line,
            columns,
        ) || (sprite_bit(line, columns as u8) && buffer[target(x, y, row, columns)])),
        !row_collides(buffer, x, y, row, line, 0),
{
}

/// A pixel that a row covers is the target of one of the row's columns.
proof fn lemma_covered_is_target(x: u8, y: u8, row: int, line: u8, index: int)
    requires
        0 <= row,
        0 <= index < BUFFER_SIZE,
        row_covers(x, y, row, line, 8, index),
    ensures
        ({
            let column = (index % (WIDTH_PX as int) - x) % (WIDTH_PX as int);
            &&& 0 <= column < 8
            &&& sprite_bit(line, column as u8)
            &&& target(x, y, row, column) == index
        }),
{
}

/// Once the first rows of a sprite collide, more rows of it do too.
proof fn lemma_collides_is_monotonic(
    buffer: Seq<bool>,
    x: u8,
    y: u8,
    sprite: Seq<u8>,
    fewer: int,
    rows: int,
)
    requires
        fewer <= rows,
        collides(buffer, x, y, sprite, fewer),
    ensures
        collides(buffer, x, y, sprite, rows),
    decreases rows,
{
    if fewer < rows {
        lemma_collides_is_monotonic(buffer, x, y, sprite, fewer, rows - 1);
    }
}

/// A pixel that the first `rows` rows flip is covered by one of them, and
/// the rows before the first such row leave it alone.
proof fn lemma_first_covering_row(x: u8, y: u8, sprite: Seq<u8>, rows: int, index: int) -> (row:
    int)
    requires
        flips(x, y, sprite, rows, index),
    ensures
        0 <= row < rows,
        row_covers(x, y, row, sprite[row], 8, index),
        !flips(x, y, sprite, row, index),
    decreases rows,
{
    if flips(x, y, sprite, rows - 1, index) {
        lemma_first_covering_row(x, y, sprite, rows - 1, index)
    } else {
        rows - 1
    }
}

/// Drawing a sprite twice from the same place gives back the buffer as it
/// was before the first draw.
pub proof fn lemma_draw_twice_restores(buffer: Seq<bool>, x: u8, y: u8, sprite: Seq<u8>)
    ensures
        drawn(drawn(buffer, x, y, sprite, sprite.len() as int), x, y, sprite, sprite.len() as int)
            == buffer,
{
}

/// If a draw lights a pixel that was dark, drawing the same sprite again
/// from the same place reports a collision.
pub proof fn lemma_second_draw_collides(
    buffer: Seq<bool>,
    x: u8,
    y: u8,
    sprite: Seq<u8>,
    index: int,
)
    requires
        buffer.len() == BUFFER_SIZE,
        0 <= index < BUFFER_SIZE,
        !buffer[index],
        drawn(buffer, x, y, sprite, sprite.len() as int)[index],
    ensures
        collides(
            drawn(buffer, x, y, sprite, sprite.len() as int),
            x,
            y,
            sprite,
            sprite.len() as int,
        ),
{
    let rows = sprite.len() as int;
    let once = drawn(buffer, x, y, sprite, rows);
    let row = lemma_first_covering_row(x, y, sprite, rows, index);
    let during = drawn(once, x, y, sprite, row);
    assert(during[index]);
    lemma_covered_is_target(x, y, row, sprite[row], index);
    let column = (index % (WIDTH_PX as int) - x) % (WIDTH_PX as int);
    assert(during[target(x, y, row, column)]);
    assert(row_collides(during, x, y, row, sprite[row], 8));
    assert(collides(once, x, y, sprite, row + 1));
    lemma_collides_is_monotonic(once, x, y, sprite, row + 1, rows);
}

/// Rows of a sprite that is no taller than the screen land on different rows
/// of the screen, so no two of them cover the same pixel.
proof fn lemma_rows_do_not_meet(y: u8, first: int, second: int)
    requires
        0 <= first < second < HEIGHT_PX,
    ensures
        (y + first) % (HEIGHT_PX as int) != (y + second) % (HEIGHT_PX as int),
{
}

/// Of a sprite that is no taller than the screen, the first `rows` rows flip
/// exactly the pixels that one of them covers.
pub proof fn lemma_flips_where_a_row_covers(
    x: u8,
    y: u8,
    sprite: Seq<u8>,
    rows: int,
    index: int,
)
    requires
        0 <= rows <= HEIGHT_PX,
    ensures
        flips(x, y, sprite, rows, index) <==> exists|row: int|
            0 <= row < rows && #[trigger] row_covers(x, y, row, sprite[row], 8, index),
    decreases rows,
{
    if rows > 0 {
        lemma_flips_where_a_row_covers(x, y, sprite, rows - 1, index);
        let last = rows - 1;
        if row_covers(x, y, last, sprite[last], 8, index) {
            assert forall|row: int| 0 <= row < last implies !row_covers(
                x,
                y,
                row,
                sprite[row],
                8,
                index,
            ) by {
                lemma_rows_do_not_meet(y, row, last);
            }
        } else if flips(x, y, sprite, rows, index) {
            let row = choose|row: int|
                0 <= row < last && #[trigger] row_covers(x, y, row, sprite[row], 8, index);
            assert(0 <= row < rows && row_covers(x, y, row, sprite[row], 8, index));
        }
    }
}

/// When its turn comes, a row of a sprite that is no taller than the screen
/// finds the pixels it lands on as they were before the draw: it collides
/// exactly if it covers a pixel that was lit then.
proof fn lemma_row_collides_with_the_buffer(
    buffer: Seq<bool>,
    x: u8,
    y: u8,
    sprite: Seq<u8>,
    row: int,
)
    requires
        buffer.len() == BUFFER_SIZE,
        0 <= row < HEIGHT_PX,
    ensures
        row_collides(drawn(buffer, x, y, sprite, row), x, y, row, sprite[row], 8) <==> exists|
            index: int,
        |
            0 <= index < BUFFER_SIZE && buffer[index] && #[trigger] row_covers(
                x,
                y,
                row,
                sprite[row],
                8,
                index,
            ),
{
    let during = drawn(buffer, x, y, sprite, row);
    let line = sprite[row];
    assert forall|index: int|
        0 <= index < BUFFER_SIZE && row_covers(
            x,
            y,
            row,
            line,
            8,
            index,
        ) implies during[index] == buffer[index] by {
        lemma_flips_where_a_row_covers(x, y, sprite, row, index);
        if flips(x, y, sprite, row, index) {
            let above = choose|above: int|
                0 <= above < row && #[trigger] row_covers(x, y, above, sprite[above], 8, index);
            lemma_rows_do_not_meet(y, above, row);
        }
    }
    if row_collides(during, x, y, row, line, 8) {
        let column = choose|column: int|
            0 <= column < 8 && sprite_bit(line, column as u8) && #[trigger] during[target(
                x,
                y,
                row,
                column,
            )];
        let index = target(x, y, row, column);
        lemma_target(x, y, row, column);
        assert(row_covers(x, y, row, line, 8, index));
        assert(buffer[index]);
    }
    if exists|index: int|
        0 <= index < BUFFER_SIZE && buffer[index] && #[trigger] row_covers(
            x,
            y,
            row,
            line,
            8,
            index,
        ) {
        let index = choose|index: int|
            0 <= index < BUFFER_SIZE && buffer[index] && #[trigger] row_covers(
                x,
                y,
                row,
                line,
                8,
                index,
            );
        lemma_covered_is_target(x, y, row, line, index);
        let column = (index % (WIDTH_PX as int) - x) % (WIDTH_PX as int);
        assert(during[target(x, y, row, column)]);
    }
}

/// Drawing a sprite that is no taller than the screen reports a collision
/// exactly if it leaves a pixel dark that was lit before.
pub proof fn lemma_collision_is_a_pixel_going_dark(
    buffer: Seq<bool>,
    x: u8,
    y: u8,
    sprite: Seq<u8>,
    rows: int,
)
    requires
        buffer.len() == BUFFER_SIZE,
        0 <= rows <= HEIGHT_PX,
    ensures
        collides(buffer, x, y, sprite, rows) <==> exists|index: int| #[trigger]
            goes_dark(buffer, x, y, sprite, rows, index),
    decreases rows,
{
    if rows > 0 {
        let last = rows - 1;
        let line = sprite[last];
        lemma_collision_is_a_pixel_going_dark(buffer, x, y, sprite, last);
        lemma_row_collides_with_the_buffer(buffer, x, y, sprite, last);
        if collides(buffer, x, y, sprite, last) {
            let index = choose|index: int| #[trigger] goes_dark(buffer, x, y, sprite, last, index);
            lemma_flips_where_a_row_covers(x, y, sprite, last, index);
            let above = choose|above: int|
                0 <= above < last && #[trigger] row_covers(x, y, above, sprite[above], 8, index);
            lemma_rows_do_not_meet(y, above, last);
            assert(goes_dark(buffer, x, y, sprite, rows, index));
        } else if row_collides(drawn(buffer, x, y, sprite, last), x, y, last, line, 8) {
            let index = choose|index: int|
                0 <= index < BUFFER_SIZE && buffer[index] && #[trigger] row_covers(
                    x,
                    y,
                    last,
                    line,
                    8,
                    index,
                );
            lemma_flips_where_a_row_covers(x, y, sprite, last, index);
            if flips(x, y, sprite, last, index) {
                let above = choose|above: int|
                    0 <= above < last && #[trigger] row_covers(
                        x,
                        y,
                        above,
                        sprite[above],
                        8,
                        index,
                    );
                lemma_rows_do_not_meet(y, above, last);
            }
            assert(goes_dark(buffer, x, y, sprite, rows, index));
        }
        if exists|index: int| #[trigger] goes_dark(buffer, x, y, sprite, rows, index) {
            let index = choose|index: int| #[trigger] goes_dark(buffer, x, y, sprite, rows, index);
            if row_covers(x, y, last, line, 8, index) {
                assert(0 <= index < BUFFER_SIZE && buffer[index] && row_covers(
                    x,
                    y,
                    last,
                    line,
                    8,
                    index,
                ));
            } else {
                assert(goes_dark(buffer, x, y, sprite, last, index));
            }
        }
    } else {
        assert forall|index: int| !goes_dark(buffer, x, y, sprite, rows, index) by {}
    }
}

} // verus!
