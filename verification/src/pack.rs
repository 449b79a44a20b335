//! Planar-to-interleaved packing of decoded component planes.
//!
//! The packing table is a closed set keyed by component count and sample
//! precision: pure 8- or 16-bit grayscale, 8-bit RGB, and 8-bit RGBA.
//! Every other combination is rejected, never silently truncated. Samples
//! are emitted low-order byte first: one byte per sample at precision 8,
//! two at precision 16.

use vstd::prelude::*;
use crate::err::Error;
use crate::image::Component;
use crate::image::ImageBuffer;

verus! {

/// The packing strategies the table defines.
#[derive(Debug, Clone, Copy, PartialEq, Eq, Structural)]
pub enum Layout {
    /// One component, 8 bits per sample: one byte per pixel.
    Gray8,
    /// One component, 16 bits per sample: two bytes per pixel.
    Gray16,
    /// Three components, all 8 bits: R, G, B interleaved per pixel.
    Rgb8,
    /// Four components, all 8 bits: R, G, B, A interleaved per pixel.
    Rgba8,
}

/// The low-order 8 bits of a sample.
pub open spec fn low_byte(v: i32) -> u8 {
    (v & 0xff) as u8
}

/// Bits 8 to 15 of a sample.
pub open spec fn high_byte(v: i32) -> u8 {
    ((v >> 8) & 0xff) as u8
}

fn low_byte_ex(v: i32) -> (r: u8)
    ensures
        r == low_byte(v),
{
    proof {
        assert(0 <= (v & 0xff) < 256) by (bit_vector);
    }
    (v & 0xff) as u8
}

fn high_byte_ex(v: i32) -> (r: u8)
    ensures
        r == high_byte(v),
{
    proof {
        assert(0 <= ((v >> 8) & 0xff) < 256) by (bit_vector);
    }
    ((v >> 8) & 0xff) as u8
}

/// Which packing strategy the table assigns to a component list, or the
/// rejection it earns: a component count outside one, three or four (the
/// count and the first precision, if any, are recorded), mixed precisions
/// in the RGB/RGBA cases (the first precision is recorded), a grayscale
/// precision outside 8 and 16, or a uniform RGB/RGBA precision other
/// than 8.
pub open spec fn layout_of(comps: Seq<Component>) -> Result<Layout, Error> {
    if comps.len() == 1 {
        if comps[0].prec == 8 {
            Result::Ok(Layout::Gray8)
        } else if comps[0].prec == 16 {
            Result::Ok(Layout::Gray16)
        } else {
            Result::Err(Error::UnsupportedComponentLayout { components: 1, precision: comps[0].prec })
        }
    } else if comps.len() == 3 {
        if comps[0].prec == comps[1].prec && comps[1].prec == comps[2].prec {
            if comps[0].prec == 8 {
                Result::Ok(Layout::Rgb8)
            } else {
                Result::Err(Error::UnsupportedPrecision { precision: comps[0].prec })
            }
        } else {
            Result::Err(Error::UnsupportedComponentLayout { components: 3, precision: comps[0].prec })
        }
    } else if comps.len() == 4 {
        if comps[0].prec == comps[1].prec && comps[1].prec == comps[2].prec
            && comps[2].prec == comps[3].prec {
            if comps[0].prec == 8 {
                Result::Ok(Layout::Rgba8)
            } else {
                Result::Err(Error::UnsupportedPrecision { precision: comps[0].prec })
            }
        } else {
            Result::Err(Error::UnsupportedComponentLayout { components: 4, precision: comps[0].prec })
        }
    } else {
        Result::Err(Error::UnsupportedComponentLayout {
            components: comps.len() as u32,
            precision: if comps.len() > 0 { comps[0].prec } else { 0 },
        })
    }
}

/// Output bands of a strategy: 1 for grayscale, 3 for RGB, 4 for RGBA.
pub open spec fn band_count(layout: Layout) -> int {
    match layout {
        Layout::Gray8 => 1,
        Layout::Gray16 => 1,
        Layout::Rgb8 => 3,
        Layout::Rgba8 => 4,
    }
}

/// Bits per output sample of a strategy.
pub open spec fn precision_of(layout: Layout) -> int {
    match layout {
        Layout::Gray16 => 16,
        _ => 8,
    }
}

/// Grayscale 8-bit packing: sample `i`, truncated to its low byte.
pub open spec fn gray8_bytes(d: Seq<i32>, n: int) -> Seq<u8> {
    Seq::new(n as nat, |i: int| low_byte(d[i]))
}

/// Byte `i` of the 16-bit grayscale packing: each sample becomes two
/// bytes, low byte first.
pub open spec fn gray16_byte(d: Seq<i32>, i: int) -> u8 {
    if i % 2 == 0 {
        low_byte(d[i / 2])
    } else {
        high_byte(d[i / 2])
    }
}

/// Grayscale 16-bit packing: two bytes per sample, low byte first.
pub open spec fn gray16_bytes(d: Seq<i32>, n: int) -> Seq<u8> {
    Seq::new((2 * n) as nat, |i: int| gray16_byte(d, i))
}

/// Byte `i` of the RGB packing: pixel `i / 3`, channel `i % 3`, truncated
/// to its low byte.
pub open spec fn rgb8_byte(r: Seq<i32>, g: Seq<i32>, b: Seq<i32>, i: int) -> u8 {
    if i % 3 == 0 {
        low_byte(r[i / 3])
    } else if i % 3 == 1 {
        low_byte(g[i / 3])
    } else {
        low_byte(b[i / 3])
    }
}

/// RGB packing: R, G, B interleaved per pixel, each truncated to 8 bits.
pub open spec fn rgb8_bytes(r: Seq<i32>, g: Seq<i32>, b: Seq<i32>, n: int) -> Seq<u8> {
    Seq::new((3 * n) as nat, |i: int| rgb8_byte(r, g, b, i))
}

/// Byte `i` of the RGBA packing: pixel `i / 4`, channel `i % 4`, truncated
/// to its low byte.
pub open spec fn rgba8_byte(r: Seq<i32>, g: Seq<i32>, b: Seq<i32>, a: Seq<i32>, i: int) -> u8 {
    if i % 4 == 0 {
        low_byte(r[i / 4])
    } else if i % 4 == 1 {
        low_byte(g[i / 4])
    } else if i % 4 == 2 {
        low_byte(b[i / 4])
    } else {
        low_byte(a[i / 4])
    }
}

/// RGBA packing: R, G, B, A interleaved per pixel, each truncated to 8
/// bits.
pub open spec fn rgba8_bytes(
    r: Seq<i32>,
    g: Seq<i32>,
    b: Seq<i32>,
    a: Seq<i32>,
    n: int,
) -> Seq<u8> {
    Seq::new((4 * n) as nat, |i: int| rgba8_byte(r, g, b, a, i))
}

/// The interleaved bytes a component list packs to over `n` pixels, for
/// the strategy the table assigns to it.
pub open spec fn packed_bytes_for(layout: Layout, comps: Seq<Component>, n: int) -> Seq<u8> {
    match layout {
        Layout::Gray8 => gray8_bytes(comps[0].data@, n),
        Layout::Gray16 => gray16_bytes(comps[0].data@, n),
        Layout::Rgb8 => rgb8_bytes(comps[0].data@, comps[1].data@, comps[2].data@, n),
        Layout::Rgba8 => rgba8_bytes(
            comps[0].data@,
            comps[1].data@,
            comps[2].data@,
            comps[3].data@,
            n,
        ),
    }
}

/// Pick the packing strategy for a component list, exactly as the table
/// defines it.
pub fn select_layout(comps: &Vec<Component>) -> (r: Result<Layout, Error>)
    requires
        comps@.len() <= u32::MAX,
    ensures
        r == layout_of(comps@),
{
    let len = comps.len();
    if len == 1 {
        let p = comps[0].prec;
        if p == 8 {
            Ok(Layout::Gray8)
        } else if p == 16 {
            Ok(Layout::Gray16)
        } else {
            Err(Error::UnsupportedComponentLayout { components: 1, precision: p })
        }
    } else if len == 3 {
        let p0 = comps[0].prec;
        let p1 = comps[1].prec;
        let p2 = comps[2].prec;
        if p0 == p1 && p1 == p2 {
            if p0 == 8 {
                Ok(Layout::Rgb8)
            } else {
                Err(Error::UnsupportedPrecision { precision: p0 })
            }
        } else {
            Err(Error::UnsupportedComponentLayout { components: 3, precision: p0 })
        }
    } else if len == 4 {
        let p0 = comps[0].prec;
        let p1 = comps[1].prec;
        let p2 = comps[2].prec;
        let p3 = comps[3].prec;
        if p0 == p1 && p1 == p2 && p2 == p3 {
            if p0 == 8 {
                Ok(Layout::Rgba8)
            } else {
                Err(Error::UnsupportedPrecision { precision: p0 })
            }
        } else {
            Err(Error::UnsupportedComponentLayout { components: 4, precision: p0 })
        }
    } else {
        let p = if len > 0 {
            comps[0].prec
        } else {
            0
        };
        Err(Error::UnsupportedComponentLayout { components: len as u32, precision: p })
    }
}

/// Pack the component planes of one decode into a single interleaved
/// buffer over `width * height` pixels, or reject the component layout.
/// On success the buffer holds exactly
/// `width * height * num_bands * precision / 8` bytes.
pub fn pack(comps: &Vec<Component>, width: u32, height: u32) -> (r: Result<ImageBuffer, Error>)
    requires
        comps@.len() <= u32::MAX,
        width * height * 4 <= usize::MAX,
        forall|i: int|
            0 <= i < comps@.len() ==> (#[trigger] comps@[i]).data@.len() >= width * height,
    ensures
        ({
            let n = width as int * height as int;
            match layout_of(comps@) {
                Result::Err(e) => r == Result::<ImageBuffer, Error>::Err(e),
                Result::Ok(layout) => {
                    &&& r is Ok
                    &&& (r->Ok_0).width == width
                    &&& (r->Ok_0).height == height
                    &&& (r->Ok_0).num_bands == band_count(layout)
                    &&& (r->Ok_0).precision == precision_of(layout)
                    &&& (r->Ok_0).buffer@ == packed_bytes_for(layout, comps@, n)
                },
            }
        }),
        r is Ok ==> (r->Ok_0).buffer@.len() == (r->Ok_0).width * (r->Ok_0).height
            * (r->Ok_0).num_bands * ((r->Ok_0).precision as int / 8),
{
    let layout = match select_layout(comps) {
        Ok(l) => l,
        Err(e) => {
            return Err(e);
        },
    };
    let n: usize = (width as usize) * (height as usize);
    let ghost npix: int = width as int * height as int;
    match layout {
        Layout::Gray8 => {
            let plane: &Vec<i32> = &comps[0].data;
            let mut buffer: Vec<u8> = Vec::new();
            let mut i: usize = 0;
            while i < n
                invariant
                    i <= n,
                    n == npix,
                    plane@.len() >= n,
                    buffer@.len() == i,
                    forall|k: int| 0 <= k < i ==> buffer@[k] == low_byte(plane@[k]),
                decreases n - i,
            {
                let v = plane[i];
                let bb = low_byte_ex(v);
                buffer.push(bb);
                i = i + 1;
            }
            let out = ImageBuffer { buffer, width, height, num_bands: 1, precision: 8 };
            proof {
                assert(out.buffer@ =~= gray8_bytes(plane@, npix));
                assert(out.buffer@.len() == out.width * out.height * out.num_bands * (
                out.precision as int / 8));
            }
            Ok(out)
        },
        Layout::Gray16 => {
            let plane: &Vec<i32> = &comps[0].data;
            let mut buffer: Vec<u8> = Vec::new();
            let mut i: usize = 0;
            while i < n
                invariant
                    i <= n,
                    n == npix,
                    n * 2 <= usize::MAX,
                    plane@.len() >= n,
                    buffer@.len() == 2 * i,
                    forall|k: int| 0 <= k < 2 * i ==> buffer@[k] == gray16_byte(plane@, k),
                decreases n - i,
            {
                let v = plane[i];
                let lo = low_byte_ex(v);
                let hi = high_byte_ex(v);
                buffer.push(lo);
                buffer.push(hi);
                proof {
                    assert((2 * i as int) % 2 == 0 && (2 * i as int) / 2 == i as int);
                    assert((2 * i as int + 1) % 2 == 1 && (2 * i as int + 1) / 2 == i as int);
                }
                i = i + 1;
            }
            let out = ImageBuffer { buffer, width, height, num_bands: 1, precision: 16 };
            proof {
                assert(out.buffer@ =~= gray16_bytes(plane@, npix));
                assert(out.buffer@.len() == 2 * npix);
                assert(out.precision as int / 8 == 2);
                assert(out.num_bands == 1);
                assert(out.width * out.height == npix);
                assert(out.buffer@.len() == out.width * out.height * out.num_bands * (
                out.precision as int / 8));
            }
            Ok(out)
        },
        Layout::Rgb8 => {
            let rp: &Vec<i32> = &comps[0].data;
            let gp: &Vec<i32> = &comps[1].data;
            let bp: &Vec<i32> = &comps[2].data;
            let mut buffer: Vec<u8> = Vec::new();
            let mut i: usize = 0;
            while i < n
                invariant
                    i <= n,
                    n == npix,
                    n * 3 <= usize::MAX,
                    rp@.len() >= n,
                    gp@.len() >= n,
                    bp@.len() >= n,
                    buffer@.len() == 3 * i,
                    forall|k: int| 0 <= k < 3 * i ==> buffer@[k] == rgb8_byte(rp@, gp@, bp@, k),
                decreases n - i,
            {
                let rv = low_byte_ex(rp[i]);
                let gv = low_byte_ex(gp[i]);
                let bv = low_byte_ex(bp[i]);
                buffer.push(rv);
                buffer.push(gv);
                buffer.push(bv);
                proof {
                    assert((3 * i as int) % 3 == 0 && (3 * i as int) / 3 == i as int);
                    assert((3 * i as int + 1) % 3 == 1 && (3 * i as int + 1) / 3 == i as int);
                    assert((3 * i as int + 2) % 3 == 2 && (3 * i as int + 2) / 3 == i as int);
                }
                i = i + 1;
            }
            let out = ImageBuffer { buffer, width, height, num_bands: 3, precision: 8 };
            proof {
                assert(out.buffer@ =~= rgb8_bytes(rp@, gp@, bp@, npix));
                assert(out.buffer@.len() == out.width * out.height * out.num_bands * (
                out.precision as int / 8));
            }
            Ok(out)
        },
        Layout::Rgba8 => {
            let rp: &Vec<i32> = &comps[0].data;
            let gp: &Vec<i32> = &comps[1].data;
            let bp: &Vec<i32> = &comps[2].data;
            let ap: &Vec<i32> = &comps[3].data;
            let mut buffer: Vec<u8> = Vec::new();
            let mut i: usize = 0;
            while i < n
                invariant
                    i <= n,
                    n == npix,
                    n * 4 <= usize::MAX,
                    rp@.len() >= n,
                    gp@.len() >= n,
                    bp@.len() >= n,
                    ap@.len() >= n,
                    buffer@.len() == 4 * i,
                    forall|k: int|
                        0 <= k < 4 * i ==> buffer@[k] == rgba8_byte(rp@, gp@, bp@, ap@, k),
                decreases n - i,
            {
                let rv = low_byte_ex(rp[i]);
                let gv = low_byte_ex(gp[i]);
                let bv = low_byte_ex(bp[i]);
                let av = low_byte_ex(ap[i]);
                buffer.push(rv);
                buffer.push(gv);
                buffer.push(bv);
                buffer.push(av);
                proof {
                    assert((4 * i as int) % 4 == 0 && (4 * i as int) / 4 == i as int);
                    assert((4 * i as int + 1) % 4 == 1 && (4 * i as int + 1) / 4 == i as int);
                    assert((4 * i as int + 2) % 4 == 2 && (4 * i as int + 2) / 4 == i as int);
                    assert((4 * i as int + 3) % 4 == 3 && (4 * i as int + 3) / 4 == i as int);
                }
                i = i + 1;
            }
            let out = ImageBuffer { buffer, width, height, num_bands: 4, precision: 8 };
            proof {
                assert(out.buffer@ =~= rgba8_bytes(rp@, gp@, bp@, ap@, npix));
                assert(out.buffer@.len() == out.width * out.height * out.num_bands * (
                out.precision as int / 8));
            }
            Ok(out)
        },
    }
}

} // verus!
