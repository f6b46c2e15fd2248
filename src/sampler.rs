use vstd::prelude::*;

use crate::error::PigmentsError;

verus! {

/// A decoded RGB image: `width` × `height` pixels, three bytes each, row by row.
#[derive(Debug)]
pub struct PixelGrid {
    pub width: u32,
    pub height: u32,
    pub data: Vec<u8>,
}

impl PixelGrid {
    /// The buffer holds exactly one RGB triple per pixel.
    pub open spec fn wf(&self) -> bool {
        self.data@.len() == 3 * self.width * self.height
    }

    /// The number of pixels, which is also the number of observations the grid yields.
    pub open spec fn pixel_count(&self) -> nat {
        self.width as nat * self.height as nat
    }

    /// Builds a grid from a raw RGB buffer, refusing a buffer of the wrong length.
    pub fn from_raw(width: u32, height: u32, data: Vec<u8>) -> (r: Result<PixelGrid, PigmentsError>)
        ensures
            r is Ok <==> data@.len() == 3 * width * height,
            r matches Ok(g) ==> g.width == width && g.height == height && g.data@ == data@,
            r matches Err(e) ==> e is ImageProcessError,
    {
        let n = data.len() as u128;
        proof {
            vstd::arithmetic::mul::lemma_mul_upper_bound(
                width as int, 0xffff_ffff, height as int, 0xffff_ffff);
        }
        let wh: u128 = (width as u128) * (height as u128);
        let need: u128 = 3 * wh;
        assert(need == 3 * width * height) by (nonlinear_arith)
            requires
                need == 3 * wh,
                wh == width * height,
        ;
        if n == need {
            Ok(PixelGrid { width, height, data })
        } else {
            Err(PigmentsError::ImageProcessError(
                String::from_str("pixel buffer does not match the image dimensions"),
            ))
        }
    }

    /// The number of pixels in the grid.
    pub fn num_pixels(&self) -> (r: u64)
        ensures
            r == self.pixel_count(),
    {
        proof {
            vstd::arithmetic::mul::lemma_mul_upper_bound(
                self.width as int, 0xffff_ffff, self.height as int, 0xffff_ffff);
        }
        (self.width as u64) * (self.height as u64)
    }
}

/// Whether an image of this size is larger than the bound in some dimension.
pub open spec fn needs_resize(width: u32, height: u32, max_dimension: u32) -> bool {
    width > max_dimension || height > max_dimension
}

/// The size an image is sampled at: unchanged when it fits the bound, otherwise scaled
/// so that its larger side equals the bound, each side rounded down.
pub open spec fn target_size(width: u32, height: u32, max_dimension: u32) -> (nat, nat) {
    if needs_resize(width, height, max_dimension) {
        let larger = if width >= height { width as nat } else { height as nat };
        (
            (width as nat * max_dimension as nat) / larger,
            (height as nat * max_dimension as nat) / larger,
        )
    } else {
        (width as nat, height as nat)
    }
}

/// The dimensions an image is sampled at (see `target_size`).
pub fn target_dimensions(width: u32, height: u32, max_dimension: u32) -> (r: (u32, u32))
    ensures
        (r.0 as nat, r.1 as nat) == target_size(width, height, max_dimension),
        r.0 <= width && r.1 <= height,
        needs_resize(width, height, max_dimension) ==> r.0 <= max_dimension && r.1
            <= max_dimension,
{
    if width > max_dimension || height > max_dimension {
        let larger: u64 = if width >= height { width as u64 } else { height as u64 };
        let m = max_dimension as u64;
        proof {
            vstd::arithmetic::mul::lemma_mul_upper_bound(
                width as int, 0xffff_ffff, m as int, 0xffff_ffff);
            vstd::arithmetic::mul::lemma_mul_upper_bound(
                height as int, 0xffff_ffff, m as int, 0xffff_ffff);
            lemma_scaled_le(width as int, larger as int, m as int);
            lemma_scaled_le(height as int, larger as int, m as int);
        }
        let w = (width as u64) * m / larger;
        let h = (height as u64) * m / larger;
        (w as u32, h as u32)
    } else {
        (width, height)
    }
}

proof fn lemma_scaled_le(x: int, larger: int, m: int)
    requires
        0 <= x <= larger,
        0 < larger,
        0 <= m < larger,
    ensures
        x * m / larger <= m,
        x * m / larger <= x,
{
    assert(x * m <= larger * m) by (nonlinear_arith)
        requires
            0 <= x <= larger,
            0 <= m,
    ;
    assert(x * m <= x * larger) by (nonlinear_arith)
        requires
            0 <= x,
            0 <= m < larger,
    ;
    vstd::arithmetic::div_mod::lemma_div_is_ordered(x * m, larger * m, larger);
    vstd::arithmetic::div_mod::lemma_div_is_ordered(x * m, x * larger, larger);
    vstd::arithmetic::div_mod::lemma_div_by_multiple(m, larger);
    vstd::arithmetic::div_mod::lemma_div_by_multiple(x, larger);
    assert(m * larger == larger * m) by (nonlinear_arith);
}

/// Whether the working buffers of a resampling fit in memory: the intermediate image
/// holds four 32-bit channels per pixel.
pub open spec fn resample_fits(width: u32, height: u32) -> bool {
    16 * (width as nat) * (height as nat) <= isize::MAX
}

/// The number of observations sampled from an image under this bound.
pub open spec fn sampled_count(width: u32, height: u32, max_dimension: u32) -> nat {
    target_size(width, height, max_dimension).0 * target_size(width, height, max_dimension).1
}

/// Whether sampling an image under this bound succeeds: some pixel is left, and a
/// resampling, where one is needed, fits in memory.
pub open spec fn sample_succeeds(width: u32, height: u32, max_dimension: u32) -> bool {
    &&& sampled_count(width, height, max_dimension) > 0
    &&& needs_resize(width, height, max_dimension) ==> resample_fits(width, height)
}

/// Relies on `image::imageops::resize` with the `Lanczos3` filter, which returns an
/// image of exactly the requested size; the RGB buffer is taken out of it. A size of
/// zero, or working buffers beyond `isize::MAX` bytes, would make it panic.
#[verifier::external_body]
fn resize_lanczos3(data: &Vec<u8>, width: u32, height: u32, new_width: u32, new_height: u32) -> (r:
    Vec<u8>)
    requires
        data@.len() == 3 * width * height,
        1 <= new_width <= width,
        1 <= new_height <= height,
        resample_fits(width, height),
    ensures
        r@.len() == 3 * new_width * new_height,
{
    let source = image::RgbImage::from_raw(width, height, data.clone()).unwrap();
    image::imageops::resize(&source, new_width, new_height, image::imageops::FilterType::Lanczos3)
        .into_raw()
}

/// Turns an image into the grid of observations that is clustered: the image itself
/// when it fits `max_dimension`, else a Lanczos3 resampling of it at `target_size`.
/// An empty result fails with `EmptyInput`; a resampling too large for memory fails
/// with `ImageProcessError`.
pub fn sample(image: &PixelGrid, max_dimension: u32) -> (r: Result<PixelGrid, PigmentsError>)
    requires
        image.wf(),
    ensures
        r is Ok <==> sample_succeeds(image.width, image.height, max_dimension),
        r matches Err(e) ==> (e is EmptyInput <==> sampled_count(
            image.width,
            image.height,
            max_dimension,
        ) == 0),
        r matches Err(e) ==> (e is EmptyInput || e is ImageProcessError),
        r matches Ok(g) ==> {
            &&& g.wf()
            &&& (g.width as nat, g.height as nat) == target_size(
                image.width,
                image.height,
                max_dimension,
            )
            &&& g.pixel_count() == sampled_count(image.width, image.height, max_dimension)
            &&& !needs_resize(image.width, image.height, max_dimension) ==> g.data@
                == image.data@
        },
{
    let (w, h) = target_dimensions(image.width, image.height, max_dimension);
    if w == 0 || h == 0 {
        assert(w as nat * h as nat == 0) by (nonlinear_arith)
            requires
                w == 0 || h == 0,
        ;
        return Err(PigmentsError::EmptyInput(String::from_str("the image has no pixels to sample")));
    }
    assert(w as nat * h as nat > 0) by (nonlinear_arith)
        requires
            w > 0 && h > 0,
    ;
    if image.width > max_dimension || image.height > max_dimension {
        proof {
            vstd::arithmetic::mul::lemma_mul_upper_bound(
                image.width as int, 0xffff_ffff, image.height as int, 0xffff_ffff);
        }
        let wh: u128 = (image.width as u128) * (image.height as u128);
        proof {
            assert(16 * wh == 16 * (image.width as nat) * (image.height as nat)) by (nonlinear_arith)
                requires
                    wh == image.width * image.height,
            ;
        }
        if 16 * wh > isize::MAX as u128 {
            return Err(
                PigmentsError::ImageProcessError(
                    String::from_str("the image is too large to resample"),
                ),
            );
        }
        let data = resize_lanczos3(&image.data, image.width, image.height, w, h);
        Ok(PixelGrid { width: w, height: h, data })
    } else {
        let data = image.data.clone();
        Ok(PixelGrid { width: w, height: h, data })
    }
}

} // verus!
