use vstd::prelude::*;

verus! {

/// Sample layouts an audio buffer can hold.
#[derive(PartialEq, Eq, Structural, Debug, Clone, Copy)]
pub enum SampleKind {
    F32,
    I16,
    I32,
}

/// The encoder's name for a sample layout.
pub fn sample_format_name(kind: SampleKind) -> (name: &'static str)
    ensures
        kind == SampleKind::F32 ==> name@ == "flt"@,
        kind == SampleKind::I16 ==> name@ == "s16"@,
        kind == SampleKind::I32 ==> name@ == "s32"@,
{
    match kind {
        SampleKind::F32 => "flt",
        SampleKind::I16 => "s16",
        SampleKind::I32 => "s32",
    }
}

/// Samples of an audio buffer in frame order, all channels of a frame
/// together. When samples are already interleaved (`stride > 1`) or there is
/// one channel, the first plane holds them in order; otherwise each plane
/// holds one channel and frame `j` is built from sample `j` of each plane.
pub open spec fn interleaved<T>(
    planes: Seq<Seq<T>>,
    stride: int,
    channels: int,
    sample_size: int,
) -> Seq<T> {
    if stride > 1 || channels == 1 {
        planes[0].subrange(0, sample_size * channels)
    } else {
        Seq::new((sample_size * channels) as nat, |k: int| planes[k % channels][k / channels])
    }
}

/// The contents of each plane.
pub open spec fn planes_view<T>(planes: Seq<Vec<T>>) -> Seq<Seq<T>> {
    planes.map_values(|p: Vec<T>| p@)
}

proof fn lemma_frame_index(j: int, channels: int, i: int)
    requires
        channels > 0,
        j >= 0,
        0 <= i < channels,
    ensures
        (j * channels + i) / channels == j,
        (j * channels + i) % channels == i,
        (j + 1) * channels == j * channels + channels,
{
    vstd::arithmetic::div_mod::lemma_fundamental_div_mod_converse(j * channels + i, channels, j, i);
    assert((j + 1) * channels == j * channels + channels) by (nonlinear_arith);
}

/// Gathers the samples of an audio buffer, `sample_size` frames of `channels`
/// channels, into one vector in frame order (see `interleaved`).
pub fn read_buffer_data<T: Copy>(
    planes: &Vec<Vec<T>>,
    stride: usize,
    channels: usize,
    sample_size: usize,
) -> (ret: Vec<T>)
    requires
        sample_size * channels <= usize::MAX,
        (stride > 1 || channels == 1) ==> planes@.len() >= 1 && planes@[0]@.len() >= sample_size
            * channels,
        !(stride > 1 || channels == 1) ==> planes@.len() >= channels && forall|i: int|
            0 <= i < channels ==> #[trigger] planes@[i]@.len() >= sample_size,
    ensures
        ret@ == interleaved(planes_view(planes@), stride as int, channels as int, sample_size as int),
{
    let n = sample_size * channels;
    let mut ret: Vec<T> = Vec::new();
    if stride > 1 || channels == 1 {
        let mut k: usize = 0;
        while k < n
            invariant
                n == sample_size * channels,
                planes@.len() >= 1,
                planes@[0]@.len() >= n,
                k <= n,
                ret@ == planes@[0]@.subrange(0, k as int),
            decreases n - k,
        {
            ret.push(planes[0][k]);
            k += 1;
            assert(ret@ =~= planes@[0]@.subrange(0, k as int));
        }
        assert(planes_view(planes@)[0] == planes@[0]@);
        return ret;
    }
    let ghost pv = planes_view(planes@);
    let mut j: usize = 0;
    while j < sample_size
        invariant
            n == sample_size * channels,
            channels > 0 || n == 0,
            planes@.len() >= channels,
            pv == planes_view(planes@),
            forall|i: int| 0 <= i < channels ==> #[trigger] planes@[i]@.len() >= sample_size,
            j <= sample_size,
            ret@.len() == j * channels,
            forall|k: int| 0 <= k < ret@.len() ==> #[trigger] ret@[k] == pv[k % channels as int][k
                / channels as int],
        decreases sample_size - j,
    {
        let mut i: usize = 0;
        while i < channels
            invariant
                n == sample_size * channels,
                planes@.len() >= channels,
                pv == planes_view(planes@),
                forall|i2: int| 0 <= i2 < channels ==> #[trigger] planes@[i2]@.len() >= sample_size,
                j < sample_size,
                i <= channels,
                ret@.len() == j * channels + i,
                forall|k: int| 0 <= k < ret@.len() ==> #[trigger] ret@[k] == pv[k % channels as int][k
                    / channels as int],
            decreases channels - i,
        {
            proof {
                lemma_frame_index(j as int, channels as int, i as int);
                assert((j as int) * (channels as int) + (i as int) < n) by (nonlinear_arith)
                    requires
                        j < sample_size,
                        i < channels,
                        n == sample_size * channels,
                ;
            }
            ret.push(planes[i][j]);
            i += 1;
        }
        proof {
            if channels > 0 {
                lemma_frame_index(j as int, channels as int, 0);
            }
        }
        j += 1;
    }
    proof {
        assert(ret@.len() == n) by (nonlinear_arith)
            requires
                ret@.len() == j * channels,
                j == sample_size,
                n == sample_size * channels,
        ;
        assert(ret@ =~= interleaved(pv, stride as int, channels as int, sample_size as int));
    }
    ret
}

/// Writes `samples` over the start of an encoder frame's first plane, the
/// rest of the plane keeping its (silent) samples.
pub fn write_samples<T: Copy>(plane: &mut Vec<T>, samples: &[T])
    requires
        samples@.len() <= old(plane)@.len(),
    ensures
        final(plane)@ == samples@ + old(plane)@.skip(samples@.len() as int),
{
    let n = samples.len();
    let mut k: usize = 0;
    while k < n
        invariant
            n == samples@.len(),
            n <= old(plane)@.len(),
            plane@.len() == old(plane)@.len(),
            k <= n,
            forall|j: int| 0 <= j < k ==> #[trigger] plane@[j] == samples@[j],
            forall|j: int| k <= j < plane@.len() ==> #[trigger] plane@[j] == old(plane)@[j],
        decreases n - k,
    {
        plane.set(k, samples[k]);
        k += 1;
    }
    assert(plane@ =~= samples@ + old(plane)@.skip(n as int));
}

} // verus!
