use vstd::prelude::*;

verus! {

/// Configuration of the color wheel, fixed for the lifetime of a spin.
///
/// Colors are 24-bit RGB values; the application formats them for its
/// drawing surface.  The palette length is independent of the sector count:
/// sector `i` is filled with `palette[i % palette.len()]`.
pub struct Wheel {
    pub sector_count: u32,
    pub palette: Vec<u32>,
    pub center_x: u32,
    pub center_y: u32,
    pub radius: u32,
}

/// The color that sector `i` is filled with: the palette repeats when the
/// wheel has more sectors than the palette has entries.
pub open spec fn sector_color(w: Wheel, i: int) -> u32 {
    w.palette@[i % w.palette@.len() as int]
}

/// The palette of the reference wheel: twelve 24-bit RGB values.
pub open spec fn default_palette_spec() -> Seq<u32> {
    seq![
        0xB8D430, 0x3AB745, 0x029990, 0x3501CB,
        0x2E2C75, 0x673A7E, 0xCC0071, 0xF80120,
        0xF35B20, 0xFB9A00, 0xFFCC00, 0xFEF200,
    ]
}

impl Wheel {
    /// A usable wheel has at least one sector, at least one palette entry,
    /// a positive radius, and only 24-bit color values.
    pub open spec fn wf(self) -> bool {
        &&& self.sector_count >= 1
        &&& self.palette@.len() >= 1
        &&& self.radius >= 1
        &&& forall|i: int| 0 <= i < self.palette@.len() ==> self.palette@[i] <= 0xFFFFFF
    }

    pub fn new(sector_count: u32, palette: Vec<u32>, center_x: u32, center_y: u32, radius: u32) -> (r: Wheel)
        requires
            sector_count >= 1,
            palette@.len() >= 1,
            radius >= 1,
            forall|i: int| 0 <= i < palette@.len() ==> palette@[i] <= 0xFFFFFF,
        ensures
            r.sector_count == sector_count,
            r.palette == palette,
            r.center_x == center_x,
            r.center_y == center_y,
            r.radius == radius,
            r.wf(),
    {
        Wheel { sector_count, palette, center_x, center_y, radius }
    }

    /// The fill color of sector `i`, chosen by wrapping around the palette.
    pub fn color_of(&self, i: u32) -> (c: u32)
        requires
            self.wf(),
        ensures
            c == sector_color(*self, i as int),
    {
        self.palette[(i as usize) % self.palette.len()]
    }
}

/// Builds the reference palette as an owned vector.
pub fn default_palette() -> (r: Vec<u32>)
    ensures
        r@ == default_palette_spec(),
{
    let mut r: Vec<u32> = Vec::new();
    r.push(0xB8D430);
    r.push(0x3AB745);
    r.push(0x029990);
    r.push(0x3501CB);
    r.push(0x2E2C75);
    r.push(0x673A7E);
    r.push(0xCC0071);
    r.push(0xF80120);
    r.push(0xF35B20);
    r.push(0xFB9A00);
    r.push(0xFFCC00);
    r.push(0xFEF200);
    proof {
        assert(r@ =~= default_palette_spec());
    }
    r
}

impl Default for Wheel {
    /// The reference wheel: twelve sectors of radius 32 around (32, 32),
    /// colored from the reference palette.
    fn default() -> (r: Wheel)
        ensures
            r.sector_count == 12,
            r.palette@ == default_palette_spec(),
            r.center_x == 32,
            r.center_y == 32,
            r.radius == 32,
            r.wf(),
    {
        Wheel {
            sector_count: 12,
            palette: default_palette(),
            center_x: 32,
            center_y: 32,
            radius: 32,
        }
    }
}

} // verus!
