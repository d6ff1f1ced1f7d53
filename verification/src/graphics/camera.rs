use vstd::prelude::*;

use vstd::arithmetic::div_mod::lemma_fundamental_div_mod_converse;

verus! {

/// The pixel traced as ray number `k` of an image `width` pixels wide: rays go
/// row by row from the top, and from left to right within a row.
pub open spec fn pixel_of_ray(k: int, width: int) -> (int, int) {
    (k % width, k / width)
}

/// The coordinates (column, row) of every pixel of a `width` x `height` image, in
/// the order in which the camera traces their rays.
pub fn pixel_coordinates(width: u32, height: u32) -> (pixels: Vec<(u32, u32)>)
    requires
        width as int * height as int <= u32::MAX as int,
    ensures
        pixels@.len() == width as int * height as int,
        forall|k: int|
            0 <= k < pixels@.len() ==> {
                &&& (#[trigger] pixels@[k]).0 as int == pixel_of_ray(k, width as int).0
                &&& pixels@[k].1 as int == pixel_of_ray(k, width as int).1
            },
        forall|k: int|
            0 <= k < pixels@.len() ==> {
                &&& (#[trigger] pixels@[k]).0 < width
                &&& pixels@[k].1 < height
                &&& pixels@[k].1 as int * width as int + pixels@[k].0 as int == k
            },
{
    let mut pixels: Vec<(u32, u32)> = Vec::new();
    let mut j: u32 = 0;
    while j < height
        invariant
            j <= height,
            width as int * height as int <= u32::MAX as int,
            pixels@.len() == j as int * width as int,
            forall|k: int|
                0 <= k < pixels@.len() ==> {
                    &&& (#[trigger] pixels@[k]).0 < width
                    &&& pixels@[k].1 < j
                    &&& pixels@[k].1 as int * width as int + pixels@[k].0 as int == k
                },
            forall|k: int|
                0 <= k < pixels@.len() ==> {
                    &&& (#[trigger] pixels@[k]).0 as int == pixel_of_ray(k, width as int).0
                    &&& pixels@[k].1 as int == pixel_of_ray(k, width as int).1
                },
        decreases height - j,
    {
        let mut i: u32 = 0;
        while i < width
            invariant
                i <= width,
                j < height,
                pixels@.len() == j as int * width as int + i as int,
                forall|k: int|
                    0 <= k < pixels@.len() ==> {
                        &&& (#[trigger] pixels@[k]).0 < width
                        &&& pixels@[k].1 <= j
                        &&& pixels@[k].1 as int * width as int + pixels@[k].0 as int == k
                    },
                forall|k: int|
                    0 <= k < pixels@.len() ==> {
                        &&& (#[trigger] pixels@[k]).0 as int == pixel_of_ray(k, width as int).0
                        &&& pixels@[k].1 as int == pixel_of_ray(k, width as int).1
                    },
            decreases width - i,
        {
            proof {
                lemma_fundamental_div_mod_converse(
                    j as int * width as int + i as int,
                    width as int,
                    j as int,
                    i as int,
                );
            }
            pixels.push((i, j));
            i = i + 1;
        }
        proof {
            assert((j as int + 1) * width as int == j as int * width as int + width as int)
                by (nonlinear_arith);
            assert((j as int + 1) * width as int <= height as int * width as int)
                by (nonlinear_arith)
                requires
                    j < height,
            ;
        }
        j = j + 1;
    }
    proof {
        assert(height as int * width as int == width as int * height as int) by (nonlinear_arith);
    }
    pixels
}

/// Number of pixels that `encode_frame` writes: as many as both the frame (four
/// bytes per pixel) and the colors allow.
pub open spec fn encoded_pixel_count(frame_len: int, n_colors: int) -> int {
    if frame_len / 4 <= n_colors {
        frame_len / 4
    } else {
        n_colors
    }
}

/// Writes the final colors into an RGBA frame, four bytes per pixel: the three
/// color channels, then a fully opaque alpha. Pixels beyond the shorter of the
/// frame and the color list are left as they were.
pub fn encode_frame(frame: &mut [u8], colors: &[[u8; 3]])
    ensures
        final(frame)@.len() == old(frame)@.len(),
        forall|k: int|
            0 <= k < encoded_pixel_count(old(frame)@.len() as int, colors@.len() as int) ==> {
                &&& #[trigger] final(frame)@[4 * k] == colors@[k][0]
                &&& final(frame)@[4 * k + 1] == colors@[k][1]
                &&& final(frame)@[4 * k + 2] == colors@[k][2]
                &&& final(frame)@[4 * k + 3] == 255u8
            },
        forall|b: int|
            4 * encoded_pixel_count(old(frame)@.len() as int, colors@.len() as int) <= b < old(
                frame,
            )@.len() ==> #[trigger] final(frame)@[b] == old(frame)@[b],
        forall|k: int|
            0 <= k < old(frame)@.len() / 4 && k < colors@.len() ==> {
                &&& #[trigger] final(frame)@[4 * k] == colors@[k][0]
                &&& final(frame)@[4 * k + 1] == colors@[k][1]
                &&& final(frame)@[4 * k + 2] == colors@[k][2]
                &&& final(frame)@[4 * k + 3] == 255u8
            },
        forall|b: int|
            0 <= b < old(frame)@.len() && (4 * colors@.len() <= b || 4 * (old(frame)@.len() / 4) <= b)
                ==> #[trigger] final(frame)@[b] == old(frame)@[b],
{
    let n: usize = if frame.len() / 4 <= colors.len() {
        frame.len() / 4
    } else {
        colors.len()
    };
    let ghost original = frame@;
    let mut k: usize = 0;
    while k < n
        invariant
            n == encoded_pixel_count(original.len() as int, colors@.len() as int),
            n == original.len() / 4 || n == colors@.len(),
            n <= original.len() / 4,
            n <= colors@.len(),
            k <= n,
            4 * n <= original.len(),
            original.len() <= usize::MAX,
            frame@.len() == original.len(),
            forall|p: int|
                0 <= p < k ==> {
                    &&& #[trigger] frame@[4 * p] == colors@[p][0]
                    &&& frame@[4 * p + 1] == colors@[p][1]
                    &&& frame@[4 * p + 2] == colors@[p][2]
                    &&& frame@[4 * p + 3] == 255u8
                },
            forall|b: int| 4 * k <= b < original.len() ==> #[trigger] frame@[b] == original[b],
        decreases n - k,
    {
        let color = colors[k];
        frame[4 * k] = color[0];
        frame[4 * k + 1] = color[1];
        frame[4 * k + 2] = color[2];
        frame[4 * k + 3] = 255;
        k = k + 1;
    }
    proof {
        lemma_encoded_pixel_count(original.len() as int, colors@.len() as int);
        assert forall|p: int| 0 <= p < original.len() / 4 && p < colors@.len() implies {
            &&& #[trigger] frame@[4 * p] == colors@[p][0]
            &&& frame@[4 * p + 1] == colors@[p][1]
            &&& frame@[4 * p + 2] == colors@[p][2]
            &&& frame@[4 * p + 3] == 255u8
        } by {
            assert(p < n);
        }
        assert(original == old(frame)@);
        assert(forall|p: int| 0 <= p < old(frame)@.len() / 4 && p < colors@.len() ==> {
            &&& #[trigger] frame@[4 * p] == colors@[p][0]
            &&& frame@[4 * p + 1] == colors@[p][1]
            &&& frame@[4 * p + 2] == colors@[p][2]
            &&& frame@[4 * p + 3] == 255u8
        });
    }
}

/// The number of pixels written is the smaller of the number of whole pixels the
/// frame holds and the number of colors: it fits both, and reaches one of them.
pub proof fn lemma_encoded_pixel_count(frame_len: int, n_colors: int)
    requires
        frame_len >= 0,
        n_colors >= 0,
    ensures
        0 <= encoded_pixel_count(frame_len, n_colors),
        4 * encoded_pixel_count(frame_len, n_colors) <= frame_len,
        encoded_pixel_count(frame_len, n_colors) <= frame_len / 4,
        encoded_pixel_count(frame_len, n_colors) <= n_colors,
        encoded_pixel_count(frame_len, n_colors) == frame_len / 4 || encoded_pixel_count(
            frame_len,
            n_colors,
        ) == n_colors,
{
}

} // verus!
