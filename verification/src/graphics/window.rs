use vstd::prelude::*;

use vstd::arithmetic::div_mod::lemma_fundamental_div_mod_converse;

use crate::graphics::camera::pixel_of_ray;

verus! {

/// The number of the pixel under the cursor at pixel position (`pixel_x`,
/// `pixel_y`) of an `image_width` x `image_height` window, counted row by row
/// from the top left; `None` when the cursor lies outside the image.
pub fn hovered_pixel_number(pixel_x: u32, pixel_y: u32, image_width: u32, image_height: u32) -> (number: Option<u32>)
    requires
        image_width as int * image_height as int <= u32::MAX as int,
    ensures
        number == if pixel_x < image_width && pixel_y < image_height {
            Some((pixel_y as int * image_width as int + pixel_x as int) as u32)
        } else {
            None::<u32>
        },
        number matches Some(n) ==> n as int == pixel_y as int * image_width as int + pixel_x as int,
{
    if pixel_x < image_width && pixel_y < image_height {
        proof {
            assert((pixel_y as int * image_width as int + pixel_x as int) < (image_height as int * image_width as int))
                by (nonlinear_arith)
                requires
                    pixel_x < image_width,
                    pixel_y < image_height,
            ;
        }
        Some(pixel_y * image_width + pixel_x)
    } else {
        None
    }
}

/// The number that the window reports for a pixel of the image is the number of
/// that pixel's ray in the camera's tracing order, and every ray number of the
/// image is the reported number of exactly the pixel it is traced through.
pub proof fn lemma_hovered_pixel_is_traced_ray(x: int, y: int, k: int, width: int, height: int)
    requires
        0 <= x < width,
        0 <= y < height,
        0 <= k < width * height,
    ensures
        pixel_of_ray(y * width + x, width) == (x, y),
        0 <= pixel_of_ray(k, width).0 < width,
        0 <= pixel_of_ray(k, width).1 < height,
        pixel_of_ray(k, width).1 * width + pixel_of_ray(k, width).0 == k,
{
    lemma_fundamental_div_mod_converse(y * width + x, width, y, x);
    let q = k / width;
    let r = k % width;
    assert(k == width * q + r && 0 <= r < width) by (nonlinear_arith)
        requires
            width > 0,
            q == k / width,
            r == k % width,
    ;
    assert(0 <= q < height) by (nonlinear_arith)
        requires
            k == width * q + r,
            0 <= r < width,
            0 <= k < width * height,
    ;
    assert(q * width + r == k) by (nonlinear_arith)
        requires
            k == width * q + r,
    ;
}

} // verus!
