use vstd::prelude::*;

verus! {

/// The colours series are drawn with, in the order they are handed out.
pub open spec fn palette_colors() -> Seq<(u8, u8, u8)> {
    seq![
        (230, 25, 75),
        (60, 180, 75),
        (255, 225, 25),
        (0, 130, 200),
        (245, 130, 48),
        (145, 30, 180),
        (70, 240, 240),
        (240, 50, 230),
        (210, 245, 60),
        (250, 190, 190),
        (0, 128, 128),
        (230, 190, 255),
        (170, 110, 40),
        (255, 250, 200),
        (128, 0, 0),
        (170, 255, 195),
        (128, 128, 0),
        (255, 215, 180),
        (0, 0, 128),
        (128, 128, 128),
        (0, 0, 0),
    ]
}

/// A palette of 21 well-separated colours, reused cyclically.
pub struct CustomPalette;

impl CustomPalette {
    /// All colours, as (red, green, blue).
    pub fn colors() -> (r: Vec<(u8, u8, u8)>)
        ensures
            r@ == palette_colors(),
    {
        let r = vec![
            (230, 25, 75),
            (60, 180, 75),
            (255, 225, 25),
            (0, 130, 200),
            (245, 130, 48),
            (145, 30, 180),
            (70, 240, 240),
            (240, 50, 230),
            (210, 245, 60),
            (250, 190, 190),
            (0, 128, 128),
            (230, 190, 255),
            (170, 110, 40),
            (255, 250, 200),
            (128, 0, 0),
            (170, 255, 195),
            (128, 128, 0),
            (255, 215, 180),
            (0, 0, 128),
            (128, 128, 128),
            (0, 0, 0),
        ];
        assert(r@ =~= palette_colors());
        r
    }

    /// The colour of the series numbered `idx`, the palette starting over when exhausted.
    pub fn pick(idx: usize) -> (r: (u8, u8, u8))
        ensures
            r == palette_colors()[idx as int % 21],
    {
        let colors = CustomPalette::colors();
        colors[idx % 21]
    }
}

} // verus!
