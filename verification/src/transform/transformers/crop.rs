//! Crop an image to a region anchored at a compass direction.

use vstd::prelude::*;

use crate::strutil::{spec_trim, str_eq, trimmed_range};
use crate::transform::imgio::{SizedImage, crop_image};
use crate::transform::pixeldim::{PixelDim, find_comma};
use crate::transform::transformers::ImageTransformer;

verus! {

/// Where the kept region of a crop floats: eight compass points or the
/// center.
#[derive(Debug, Clone, Copy, PartialEq, Eq, Structural)]
pub enum Direction {
    /// Top edge, centered horizontally
    North,
    /// Right edge, centered vertically
    East,
    /// Bottom edge, centered horizontally
    South,
    /// Left edge, centered vertically
    West,
    /// Centered both ways
    Center,
    /// Top right corner
    NorthEast,
    /// Bottom right corner
    SouthEast,
    /// Top left corner
    NorthWest,
    /// Bottom left corner
    SouthWest,
}

impl Direction {
    /// Which direction a token names: a compass abbreviation or its full
    /// word, or `c`/`center`.
    pub open spec fn spec_parse(s: Seq<char>) -> Option<Direction> {
        if s == "n"@ || s == "north"@ {
            Some(Direction::North)
        } else if s == "e"@ || s == "east"@ {
            Some(Direction::East)
        } else if s == "s"@ || s == "south"@ {
            Some(Direction::South)
        } else if s == "w"@ || s == "west"@ {
            Some(Direction::West)
        } else if s == "c"@ || s == "center"@ {
            Some(Direction::Center)
        } else if s == "ne"@ || s == "northeast"@ {
            Some(Direction::NorthEast)
        } else if s == "se"@ || s == "southeast"@ {
            Some(Direction::SouthEast)
        } else if s == "nw"@ || s == "northwest"@ {
            Some(Direction::NorthWest)
        } else if s == "sw"@ || s == "southwest"@ {
            Some(Direction::SouthWest)
        } else {
            None
        }
    }

    /// Parse a direction token.
    pub fn from_str(s: &str) -> (r: Option<Direction>)
        ensures
            r == Self::spec_parse(s@),
    {
        if str_eq(s, "n") || str_eq(s, "north") {
            Some(Direction::North)
        } else if str_eq(s, "e") || str_eq(s, "east") {
            Some(Direction::East)
        } else if str_eq(s, "s") || str_eq(s, "south") {
            Some(Direction::South)
        } else if str_eq(s, "w") || str_eq(s, "west") {
            Some(Direction::West)
        } else if str_eq(s, "c") || str_eq(s, "center") {
            Some(Direction::Center)
        } else if str_eq(s, "ne") || str_eq(s, "northeast") {
            Some(Direction::NorthEast)
        } else if str_eq(s, "se") || str_eq(s, "southeast") {
            Some(Direction::SouthEast)
        } else if str_eq(s, "nw") || str_eq(s, "northwest") {
            Some(Direction::NorthWest)
        } else if str_eq(s, "sw") || str_eq(s, "southwest") {
            Some(Direction::SouthWest)
        } else {
            None
        }
    }

    /// The canonical token for this direction: the short compass form.
    pub open spec fn spec_to_string(&self) -> Seq<char> {
        match *self {
            Direction::North => "n"@,
            Direction::East => "e"@,
            Direction::South => "s"@,
            Direction::West => "w"@,
            Direction::Center => "c"@,
            Direction::NorthEast => "ne"@,
            Direction::SouthEast => "se"@,
            Direction::NorthWest => "nw"@,
            Direction::SouthWest => "sw"@,
        }
    }

    /// Render this direction as its short compass token.
    pub fn to_string(&self) -> (r: String)
        ensures
            r@ == self.spec_to_string(),
    {
        match *self {
            Direction::North => String::from_str("n"),
            Direction::East => String::from_str("e"),
            Direction::South => String::from_str("s"),
            Direction::West => String::from_str("w"),
            Direction::Center => String::from_str("c"),
            Direction::NorthEast => String::from_str("ne"),
            Direction::SouthEast => String::from_str("se"),
            Direction::NorthWest => String::from_str("nw"),
            Direction::SouthWest => String::from_str("sw"),
        }
    }
}

/// Crop an image to (at most) the given size. See [`CropTransformer::new`]
/// for details.
#[derive(Debug, Clone, Copy, PartialEq, Eq, Structural)]
pub struct CropTransformer {
    /// Width of the kept region
    pub w: PixelDim,
    /// Height of the kept region
    pub h: PixelDim,
    /// Where the kept region floats
    pub float: Direction,
}

impl CropTransformer {
    /// Create a new [`CropTransformer`] with the given parameters.
    ///
    /// A [`CropTransformer`] creates an image of size `w` x `h`, but...
    /// - does not reduce width if `w` is greater than image width
    /// - does not reduce height if `h` is greater than image height
    /// - does nothing if `w` or `h` resolves to zero.
    pub fn new(w: PixelDim, h: PixelDim, float: Direction) -> (r: Self)
        ensures
            r == (CropTransformer { w, h, float }),
    {
        Self { w, h, float }
    }

    /// The requested crop size against an image of the given dimensions,
    /// before clipping to the image.
    pub open spec fn spec_crop_dim(&self, img_w: u32, img_h: u32) -> (u32, u32) {
        (self.w.spec_resolve(img_w, img_h), self.h.spec_resolve(img_w, img_h))
    }

    /// The requested crop size against an image of the given dimensions.
    pub fn crop_dim(&self, img_w: u32, img_h: u32) -> (r: (u32, u32))
        ensures
            r == self.spec_crop_dim(img_w, img_h),
    {
        (self.w.resolve(img_w, img_h), self.h.resolve(img_w, img_h))
    }

    /// The top-left corner of the kept region: the anchoring table for each
    /// direction, with truncating division for centering.
    pub open spec fn spec_crop_pos(&self, img_w: u32, img_h: u32, crop_w: u32, crop_h: u32) -> (
        u32,
        u32,
    ) {
        let cx = (((img_w - crop_w) as int) / 2) as u32;
        let cy = (((img_h - crop_h) as int) / 2) as u32;
        let ex = (img_w - crop_w) as u32;
        let ey = (img_h - crop_h) as u32;
        match self.float {
            Direction::North => (cx, 0),
            Direction::East => (ex, cy),
            Direction::South => (cx, ey),
            Direction::West => (0, cy),
            Direction::Center => (cx, cy),
            Direction::NorthEast => (ex, 0),
            Direction::SouthEast => (ex, ey),
            Direction::NorthWest => (0, 0),
            Direction::SouthWest => (0, ey),
        }
    }

    /// The top-left corner of the kept region.
    pub fn crop_pos(&self, img_w: u32, img_h: u32, crop_w: u32, crop_h: u32) -> (r: (u32, u32))
        requires
            crop_w <= img_w,
            crop_h <= img_h,
        ensures
            r == self.spec_crop_pos(img_w, img_h, crop_w, crop_h),
    {
        let cx = (img_w - crop_w) / 2;
        let cy = (img_h - crop_h) / 2;
        let ex = img_w - crop_w;
        let ey = img_h - crop_h;
        match self.float {
            Direction::North => (cx, 0),
            Direction::East => (ex, cy),
            Direction::South => (cx, ey),
            Direction::West => (0, cy),
            Direction::Center => (cx, cy),
            Direction::NorthEast => (ex, 0),
            Direction::SouthEast => (ex, ey),
            Direction::NorthWest => (0, 0),
            Direction::SouthWest => (0, ey),
        }
    }

    /// What a `crop` argument list parses to: two dimension tokens and a
    /// direction, comma separated, each trimmed.
    pub open spec fn spec_parse_args(s: Seq<char>) -> Option<CropTransformer> {
        let c1 = crate::transform::pixeldim::spec_scan_comma(s);
        if c1 == s.len() {
            None
        } else {
            let rest = s.skip(c1 + 1);
            let c2 = crate::transform::pixeldim::spec_scan_comma(rest);
            if c2 == rest.len() {
                None
            } else {
                let tail = rest.skip(c2 + 1);
                if crate::transform::pixeldim::spec_scan_comma(tail) != tail.len() {
                    None
                } else {
                    let p0 = spec_trim(s.take(c1));
                    let p1 = spec_trim(rest.take(c2));
                    let p2 = spec_trim(tail);
                    match (
                        PixelDim::spec_parse(p0),
                        PixelDim::spec_parse(p1),
                        Direction::spec_parse(p2),
                    ) {
                        (Some(w), Some(h), Some(float)) => Some(CropTransformer { w, h, float }),
                        _ => None,
                    }
                }
            }
        }
    }

    /// The dimensions cropping leaves: the requested size clipped to the
    /// image, or the image untouched when the request covers it or resolves
    /// to a zero dimension.
    pub open spec fn spec_apply_dims(&self, from: (u32, u32)) -> (u32, u32) {
        let (cw, ch) = self.spec_crop_dim(from.0, from.1);
        if (cw < from.0 || ch < from.1) && cw > 0 && ch > 0 {
            (
                if cw < from.0 {
                    cw
                } else {
                    from.0
                },
                if ch < from.1 {
                    ch
                } else {
                    from.1
                },
            )
        } else {
            from
        }
    }

    /// Parse a `crop` argument list, such as `50,50,c` or `100vw, 50, ne`.
    pub fn parse_args_checked(args: &str) -> (r: Result<CropTransformer, String>)
        ensures
            r matches Ok(t) ==> Self::spec_parse_args(args@) == Some(t),
            r is Err ==> Self::spec_parse_args(args@) is None,
    {
        let n = args.unicode_len();
        let c1 = find_comma(args, 0, n);
        proof {
            assert(args@.skip(0) =~= args@);
        }
        if c1 == n {
            return Err(String::from_str("expected 3 args"));
        }
        let c2 = find_comma(args, c1 + 1, n);
        proof {
            assert(args@.skip(c1 + 1).skip(c2 - c1 - 1) =~= args@.skip(c2 as int));
        }
        if c2 == n {
            return Err(String::from_str("expected 3 args"));
        }
        proof {
            assert(args@.skip(c1 + 1)[c2 - c1 - 1] == args@[c2 as int]);
        }
        let c3 = find_comma(args, c2 + 1, n);
        proof {
            assert(args@.skip(c1 + 1).skip(c2 - c1 - 1 + 1) =~= args@.skip(c2 + 1));
        }
        if c3 < n {
            return Err(String::from_str("expected 3 args"));
        }
        let (a0, b0) = trimmed_range(args, 0, c1);
        let (a1, b1) = trimmed_range(args, c1 + 1, c2);
        let (a2, b2) = trimmed_range(args, c2 + 1, n);
        proof {
            assert(args@.subrange(0, c1 as int) =~= args@.take(c1 as int));
            assert(args@.subrange(c1 + 1, c2 as int) =~= args@.skip(c1 + 1).take(c2 - c1 - 1));
            assert(args@.subrange(c2 + 1, n as int) =~= args@.skip(c1 + 1).skip(c2 - c1 - 1).skip(
                1,
            ));
        }
        let p0 = args.substring_char(a0, b0);
        let p1 = args.substring_char(a1, b1);
        let p2 = args.substring_char(a2, b2);
        let w = match PixelDim::from_str(p0) {
            Ok(w) => w,
            Err(e) => {
                return Err(e);
            },
        };
        let h = match PixelDim::from_str(p1) {
            Ok(h) => h,
            Err(e) => {
                return Err(e);
            },
        };
        match Direction::from_str(p2) {
            Some(float) => Ok(CropTransformer { w, h, float }),
            None => Err(String::from_str("invalid direction")),
        }
    }
}

impl ImageTransformer for CropTransformer {
    /// Cropping leaves exactly the clipped region's dimensions.
    open spec fn transform_dims_ok(&self, from: (u32, u32), to: (u32, u32)) -> bool {
        to == self.spec_apply_dims(from)
    }

    fn transform(&self, input: &mut SizedImage) {
        let img_w = input.width();
        let img_h = input.height();
        let (crop_w, crop_h) = self.crop_dim(img_w, img_h);
        if (crop_w < img_w || crop_h < img_h) && crop_w > 0 && crop_h > 0 {
            let cw = if crop_w < img_w {
                crop_w
            } else {
                img_w
            };
            let ch = if crop_h < img_h {
                crop_h
            } else {
                img_h
            };
            let (x, y) = self.crop_pos(img_w, img_h, cw, ch);
            proof {
                assert(x <= img_w - cw);
                assert(y <= img_h - ch);
            }
            *input = crop_image(&*input, x, y, cw, ch);
        }
    }

    fn parse_args(args: &str) -> Result<Self, String> {
        CropTransformer::parse_args_checked(args)
    }
}

} // verus!
