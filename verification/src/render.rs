//! One render worker's pixel loop, gamma encoding, and the pairwise
//! averaging that folds workers' partial images together.

use crate::camera::{admissible_ray, Camera};
use crate::fx::{clip, fdiv, fx_add, fx_div, fx_min, fx_mul, fx_sqrt, Fx, SCALE};
use crate::hitable::HitableList;
use crate::ray::color_outcome;
use crate::rng::random_unit;
use crate::vec3::{v3add, v3div_s, Vec3};
use vstd::prelude::*;

verus! {

/// `floor(255.99 * SCALE)`.
pub const GAMMA_GAIN: i64 = 16776560;

/// One linear channel to an 8-bit value: clamp to one, gamma-encode by
/// square root, scale by 255.99 and truncate (saturating at the byte
/// range, as the floating-point cast does).
pub open spec fn gamma_channel(c: int) -> int {
    let clamped = fx_min(c, SCALE as int);
    let root = fx_sqrt(clamped);
    let scaled = fdiv(fx_mul(GAMMA_GAIN as int, root), SCALE as int);
    if scaled < 0 {
        0
    } else if scaled > 255 {
        255
    } else {
        scaled
    }
}

fn gamma_channel_exec(c: Fx) -> (b: u8)
    ensures
        b as int == gamma_channel(c.raw as int),
{
    let clamped = c.min(Fx { raw: SCALE });
    let root = clamped.sqrt();
    let scaled = Fx { raw: GAMMA_GAIN }.mul(root).floor();
    if scaled < 0 {
        0
    } else if scaled > 255 {
        255
    } else {
        scaled as u8
    }
}

/// The sum of the first `k` sample colors, in saturating vector
/// arithmetic, starting from black.
pub open spec fn sample_sum(samples: Seq<Vec3>, k: int) -> (int, int, int)
    decreases k,
{
    if k <= 0 {
        (0int, 0int, 0int)
    } else {
        v3add(sample_sum(samples, k - 1), samples[k - 1].v())
    }
}

/// The sum over a prefix ignores entries appended later.
proof fn lemma_sample_sum_push(samples: Seq<Vec3>, c: Vec3, k: int)
    requires
        0 <= k <= samples.len(),
    ensures
        sample_sum(samples.push(c), k) == sample_sum(samples, k),
    decreases k,
{
    if k > 0 {
        lemma_sample_sum_push(samples, c, k - 1);
    }
}

/// One admissible integrator sample for pixel `(j, i)`: the estimate of a
/// camera ray through that pixel, jittered inside the pixel, on the lens
/// disk and in time.
pub open spec fn pixel_sample(
    cam: Camera,
    world: HitableList,
    nx: int,
    ny: int,
    j: int,
    i: int,
    c: Vec3,
) -> bool {
    exists|q1: int, q2: int, r: crate::ray::Ray|
        #![trigger admissible_ray(
            cam,
            fx_div(fx_add(clip(i * SCALE as int), q1), clip(nx * SCALE as int)),
            fx_div(fx_add(clip((ny - j) * SCALE as int), q2), clip(ny * SCALE as int)),
            r,
        )]
        {
            &&& 0 <= q1 < SCALE as int
            &&& 0 <= q2 < SCALE as int
            &&& admissible_ray(
                cam,
                fx_div(fx_add(clip(i * SCALE as int), q1), clip(nx * SCALE as int)),
                fx_div(fx_add(clip((ny - j) * SCALE as int), q2), clip(ny * SCALE as int)),
                r,
            )
            &&& color_outcome(r, world.list@, 0, c)
        }
}

/// What every output pixel satisfies: it is the gamma encoding of the
/// average of `ns` admissible integrator samples for its own image-plane
/// position.
pub open spec fn rendered_pixel(
    cam: Camera,
    world: HitableList,
    nx: int,
    ny: int,
    ns: int,
    j: int,
    i: int,
    p: (u8, u8, u8),
) -> bool {
    exists|samples: Seq<Vec3>|
        #![trigger sample_sum(samples, ns)]
        {
            let avg = v3div_s(sample_sum(samples, ns), clip(ns * SCALE as int));
            &&& samples.len() == ns
            &&& (forall|k: int|
                0 <= k < ns ==> pixel_sample(cam, world, nx, ny, j, i, #[trigger] samples[k]))
            &&& p.0 as int == gamma_channel(avg.0)
            &&& p.1 as int == gamma_channel(avg.1)
            &&& p.2 as int == gamma_channel(avg.2)
        }
}

/// Gamma-encode a linear color into an 8-bit pixel.
pub fn to_pixel(col: Vec3) -> (p: (u8, u8, u8))
    ensures
        p.0 as int == gamma_channel(col.x.raw as int),
        p.1 as int == gamma_channel(col.y.raw as int),
        p.2 as int == gamma_channel(col.z.raw as int),
{
    (gamma_channel_exec(col.x), gamma_channel_exec(col.y), gamma_channel_exec(col.z))
}

/// Render one worker's complete image: `ns` jittered samples per pixel,
/// averaged, then gamma-encoded.  Rows run top to bottom, `ny` rows of
/// `nx` pixels.
pub fn render(camera: &Camera, world: &HitableList, nx: u32, ny: u32, ns: u32) -> (img: Vec<
    Vec<(u8, u8, u8)>,
>)
    ensures
        img@.len() == ny,
        forall|j: int| 0 <= j < img@.len() ==> #[trigger] img@[j]@.len() == nx,
        forall|j: int, i: int|
            0 <= j < img@.len() && 0 <= i < img@[j]@.len() ==> rendered_pixel(
                *camera,
                *world,
                nx as int,
                ny as int,
                ns as int,
                j,
                i,
                #[trigger] img@[j]@[i],
            ),
{
    let mut result: Vec<Vec<(u8, u8, u8)>> = Vec::new();
    let mut j: u32 = 0;
    while j < ny
        invariant
            j <= ny,
            result@.len() == j,
            forall|k: int| 0 <= k < result@.len() ==> #[trigger] result@[k]@.len() == nx,
            forall|k: int, i: int|
                0 <= k < result@.len() && 0 <= i < result@[k]@.len() ==> rendered_pixel(
                    *camera,
                    *world,
                    nx as int,
                    ny as int,
                    ns as int,
                    k,
                    i,
                    #[trigger] result@[k]@[i],
                ),
        decreases ny - j,
    {
        let mut column: Vec<(u8, u8, u8)> = Vec::new();
        let mut i: u32 = 0;
        while i < nx
            invariant
                i <= nx,
                j < ny,
                column@.len() == i,
                forall|k: int|
                    0 <= k < column@.len() ==> rendered_pixel(
                        *camera,
                        *world,
                        nx as int,
                        ny as int,
                        ns as int,
                        j as int,
                        k,
                        #[trigger] column@[k],
                    ),
            decreases nx - i,
        {
            let mut col = Vec3::new();
            let ghost mut samples: Seq<Vec3> = Seq::empty();
            let mut s: u32 = 0;
            while s < ns
                invariant
                    s <= ns,
                    j < ny,
                    i < nx,
                    samples.len() == s,
                    col.v() == sample_sum(samples, s as int),
                    forall|k: int|
                        0 <= k < samples.len() ==> pixel_sample(
                            *camera,
                            *world,
                            nx as int,
                            ny as int,
                            j as int,
                            i as int,
                            #[trigger] samples[k],
                        ),
                decreases ns - s,
            {
                let ru = random_unit();
                let rv = random_unit();
                let u = Fx::from_int(i as i64).add(ru).div(Fx::from_int(nx as i64));
                let v = Fx::from_int(ny as i64 - j as i64).add(rv).div(Fx::from_int(ny as i64));
                let ray = camera.get_ray(u, v);
                let sample = ray.color(world, 0);
                col = col.add(sample);
                proof {
                    let ghost prev = samples;
                    samples = samples.push(sample);
                    lemma_sample_sum_push(prev, sample, s as int);
                    assert(admissible_ray(
                        *camera,
                        fx_div(
                            fx_add(clip(i as int * SCALE as int), ru.raw as int),
                            clip(nx as int * SCALE as int),
                        ),
                        fx_div(
                            fx_add(clip((ny as int - j as int) * SCALE as int), rv.raw as int),
                            clip(ny as int * SCALE as int),
                        ),
                        ray,
                    ));
                    assert(pixel_sample(
                        *camera,
                        *world,
                        nx as int,
                        ny as int,
                        j as int,
                        i as int,
                        sample,
                    ));
                }
                s = s + 1;
            }
            col = col.div_s(Fx::from_int(ns as i64));
            let px = to_pixel(col);
            proof {
                assert(rendered_pixel(
                    *camera,
                    *world,
                    nx as int,
                    ny as int,
                    ns as int,
                    j as int,
                    i as int,
                    px,
                ));
            }
            column.push(px);
            i = i + 1;
        }
        result.push(column);
        j = j + 1;
    }
    result
}

/// Average two partial images pixel by pixel with truncating division, the
/// worker-fold step.  Rows and pixels beyond the shorter image are
/// dropped.
pub fn average_images(a: &Vec<Vec<(u8, u8, u8)>>, b: &Vec<Vec<(u8, u8, u8)>>) -> (r: Vec<
    Vec<(u8, u8, u8)>,
>)
    ensures
        r@.len() == if a@.len() <= b@.len() {
            a@.len()
        } else {
            b@.len()
        },
        forall|j: int|
            0 <= j < r@.len() ==> #[trigger] r@[j]@.len() == (if a@[j]@.len() <= b@[j]@.len() {
                a@[j]@.len()
            } else {
                b@[j]@.len()
            }),
        forall|j: int, i: int|
            0 <= j < r@.len() && 0 <= i < r@[j]@.len() ==> #[trigger] r@[j]@[i] == (
            ((a@[j]@[i].0 + b@[j]@[i].0) / 2) as u8,
            ((a@[j]@[i].1 + b@[j]@[i].1) / 2) as u8,
            ((a@[j]@[i].2 + b@[j]@[i].2) / 2) as u8,
            ),
{
    let rows = if a.len() <= b.len() {
        a.len()
    } else {
        b.len()
    };
    let mut result: Vec<Vec<(u8, u8, u8)>> = Vec::new();
    let mut j: usize = 0;
    while j < rows
        invariant
            j <= rows,
            rows == if a@.len() <= b@.len() {
                a@.len()
            } else {
                b@.len()
            },
            result@.len() == j,
            forall|k: int|
                0 <= k < result@.len() ==> #[trigger] result@[k]@.len() == (if a@[k]@.len()
                    <= b@[k]@.len() {
                    a@[k]@.len()
                } else {
                    b@[k]@.len()
                }),
            forall|k: int, i: int|
                0 <= k < result@.len() && 0 <= i < result@[k]@.len() ==> #[trigger] result@[k]@[i]
                    == (
                ((a@[k]@[i].0 + b@[k]@[i].0) / 2) as u8,
                ((a@[k]@[i].1 + b@[k]@[i].1) / 2) as u8,
                ((a@[k]@[i].2 + b@[k]@[i].2) / 2) as u8,
                ),
        decreases rows - j,
    {
        let arow = &a[j];
        let brow = &b[j];
        let cols = if arow.len() <= brow.len() {
            arow.len()
        } else {
            brow.len()
        };
        let mut row: Vec<(u8, u8, u8)> = Vec::new();
        let mut i: usize = 0;
        while i < cols
            invariant
                i <= cols,
                j < a@.len(),
                j < b@.len(),
                arow@ == a@[j as int]@,
                brow@ == b@[j as int]@,
                cols == if arow@.len() <= brow@.len() {
                    arow@.len()
                } else {
                    brow@.len()
                },
                row@.len() == i,
                forall|k: int|
                    0 <= k < row@.len() ==> #[trigger] row@[k] == (
                    ((a@[j as int]@[k].0 + b@[j as int]@[k].0) / 2) as u8,
                    ((a@[j as int]@[k].1 + b@[j as int]@[k].1) / 2) as u8,
                    ((a@[j as int]@[k].2 + b@[j as int]@[k].2) / 2) as u8,
                    ),
            decreases cols - i,
        {
            let pa = arow[i];
            let pb = brow[i];
            let sum0 = pa.0 as u16 + pb.0 as u16;
            let sum1 = pa.1 as u16 + pb.1 as u16;
            let sum2 = pa.2 as u16 + pb.2 as u16;
            row.push(((sum0 / 2) as u8, (sum1 / 2) as u8, (sum2 / 2) as u8));
            i = i + 1;
        }
        result.push(row);
        j = j + 1;
    }
    result
}

/// Averaging preserves an all-black image exactly, and maps a black and a
/// pure-white partial image to mid-gray, up to the truncating division.
pub proof fn lemma_average_levels(x: int, y: int)
    requires
        0 <= x <= 255,
        0 <= y <= 255,
    ensures
        x == 0 && y == 0 ==> (x + y) / 2 == 0,
        x == 0 && y == 255 ==> (x + y) / 2 == 127,
        x == 255 && y == 255 ==> (x + y) / 2 == 255,
{
}

} // verus!
