//! Arithmetic of the blur filters: GPU work groups, row padding of GPU
//! buffers, and the choice between the GPU and the CPU.
use vstd::prelude::*;

verus! {

/// Where a blur runs.
#[derive(Clone, Copy, Debug, PartialEq, Eq, Structural)]
pub enum FilterBackend {
    Gpu,
    Cpu,
}

/// Number of work groups of the given size needed to cover a texture of the
/// given size: each dimension divided by the group's, rounded up.
pub fn compute_work_group_count(size: (u32, u32), workgroup: (u32, u32)) -> (r: (u32, u32))
    requires
        workgroup.0 > 0,
        workgroup.1 > 0,
        size.0 + workgroup.0 <= u32::MAX,
        size.1 + workgroup.1 <= u32::MAX,
    ensures
        r.0 == (size.0 + workgroup.0 - 1) / (workgroup.0 as int),
        r.1 == (size.1 + workgroup.1 - 1) / (workgroup.1 as int),
        r.0 * workgroup.0 >= size.0,
        r.1 * workgroup.1 >= size.1,
        r.0 * workgroup.0 < size.0 + workgroup.0,
        r.1 * workgroup.1 < size.1 + workgroup.1,
{
    let (width, height) = size;
    let (workgroup_width, workgroup_height) = workgroup;
    let width = (width + workgroup_width - 1) / workgroup_width;
    let height = (height + workgroup_height - 1) / workgroup_height;
    proof {
        lemma_div_round_up(size.0 as int, workgroup.0 as int);
        lemma_div_round_up(size.1 as int, workgroup.1 as int);
    }
    (width, height)
}

/// `(n + d - 1) / d` is the least multiple count of `d` that covers `n`.
proof fn lemma_div_round_up(n: int, d: int)
    requires
        n >= 0,
        d > 0,
    ensures
        ((n + d - 1) / d) * d >= n,
        ((n + d - 1) / d) * d < n + d,
{
    vstd::arithmetic::div_mod::lemma_fundamental_div_mod(n + d - 1, d);
    vstd::arithmetic::div_mod::lemma_mod_bound(n + d - 1, d);
    vstd::arithmetic::mul::lemma_mul_is_commutative((n + d - 1) / d, d);
}

/// Bytes in a row of a GPU buffer holding `width` pixels of 4 bytes: the
/// row's bytes rounded up to a multiple of 256.
pub fn padded_bytes_per_row(width: u32) -> (r: usize)
    requires
        width * 4 + 255 <= usize::MAX,
    ensures
        r % 256 == 0,
        width * 4 <= r < width * 4 + 256,
{
    let bytes_per_row = width as usize * 4;
    let padding = (256 - bytes_per_row % 256) % 256;
    bytes_per_row + padding
}

/// The backend for a blur of a `width` by `height` surface: the GPU above
/// `limit` pixels, the CPU up to it.
pub fn backend_for_size(width: i32, height: i32, limit: i32) -> (b: FilterBackend)
    requires
        i32::MIN <= width * height <= i32::MAX,
    ensures
        b == if width * height > limit { FilterBackend::Gpu } else { FilterBackend::Cpu },
{
    let pixels = width * height;
    if pixels > limit {
        FilterBackend::Gpu
    } else {
        FilterBackend::Cpu
    }
}

/// One benchmark step: a surface's pixel count and how long a blur of it
/// took on the CPU and on the GPU.
#[derive(Clone, Copy, Debug, PartialEq, Eq, Structural)]
pub struct BenchmarkSample {
    pub pixels: i32,
    pub cpu_micros: u128,
    pub gpu_micros: u128,
}

/// The pixel count of the first sample, from smallest to largest surface,
/// on which the GPU beat the CPU; `None` when it never did.
pub open spec fn spec_benchmark_limit(samples: Seq<BenchmarkSample>) -> Option<i32>
    decreases samples.len(),
{
    if samples.len() == 0 {
        None
    } else if samples[0].gpu_micros < samples[0].cpu_micros {
        Some(samples[0].pixels)
    } else {
        spec_benchmark_limit(samples.drop_first())
    }
}

/// The benchmark's limit is the pixel count of the first sample on which
/// the GPU was faster than the CPU: every sample before it had the CPU at
/// least as fast; and there is no limit exactly when the CPU was at least as
/// fast on every sample.
pub proof fn lemma_benchmark_limit_first_gpu_win(samples: Seq<BenchmarkSample>)
    ensures
        spec_benchmark_limit(samples) is None <==> (forall|i: int|
            0 <= i < samples.len() ==> #[trigger] samples[i].gpu_micros >= samples[i].cpu_micros),
        spec_benchmark_limit(samples) is Some ==> exists|j: int|
            0 <= j < samples.len() && #[trigger] samples[j].gpu_micros < samples[j].cpu_micros
                && spec_benchmark_limit(samples) == Some(samples[j].pixels) && (forall|i: int|
                0 <= i < j ==> samples[i].gpu_micros >= samples[i].cpu_micros),
    decreases samples.len(),
{
    if samples.len() > 0 {
        let rest = samples.drop_first();
        lemma_benchmark_limit_first_gpu_win(rest);
        if samples[0].gpu_micros >= samples[0].cpu_micros {
            assert forall|i: int| 0 < i < samples.len() implies samples[i] == rest[i - 1] by {}
            if spec_benchmark_limit(rest) is Some {
                let j = choose|j: int|
                    0 <= j < rest.len() && #[trigger] rest[j].gpu_micros < rest[j].cpu_micros
                        && spec_benchmark_limit(rest) == Some(rest[j].pixels) && (forall|i: int|
                        0 <= i < j ==> rest[i].gpu_micros >= rest[i].cpu_micros);
                assert(samples[j + 1] == rest[j]);
                assert forall|i: int| 0 <= i < j + 1 implies samples[i].gpu_micros
                    >= samples[i].cpu_micros by {
                    if i > 0 {
                        assert(samples[i] == rest[i - 1]);
                    }
                }
            } else {
                assert forall|i: int| 0 <= i < samples.len() implies #[trigger] samples[i].gpu_micros
                    >= samples[i].cpu_micros by {
                    if i > 0 {
                        assert(samples[i] == rest[i - 1]);
                    }
                }
            }
        } else {
            assert(samples[0].gpu_micros < samples[0].cpu_micros);
        }
    }
}

/// The pixels above which blurs go to the GPU; see `spec_benchmark_limit`.
pub fn benchmark_limit(samples: &Vec<BenchmarkSample>) -> (r: Option<i32>)
    ensures
        r == spec_benchmark_limit(samples@),
{
    let mut i: usize = 0;
    assert(samples@.skip(0) =~= samples@);
    while i < samples.len()
        invariant
            0 <= i <= samples.len(),
            spec_benchmark_limit(samples@) == spec_benchmark_limit(samples@.skip(i as int)),
        decreases samples.len() - i,
    {
        let sample = samples[i];
        assert(samples@.skip(i as int)[0] == sample);
        if sample.gpu_micros < sample.cpu_micros {
            return Some(sample.pixels);
        }
        assert(samples@.skip(i as int).drop_first() =~= samples@.skip(i + 1));
        i += 1;
    }
    assert(samples@.skip(i as int).len() == 0);
    None
}

} // verus!
