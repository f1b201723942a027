use vstd::prelude::*;

verus! {

/// How many frames an upstream buffer may hold: one second of audio.
pub const MAX_AUDIO_BUFFER: usize = 50;

/// Samples in one frame: 480 left/right pairs.
pub const RAW_AUDIO_SIZE: usize = 960;

/// 20 ms of 16-bit PCM, interleaved stereo.
pub type RawAudio = [i16; RAW_AUDIO_SIZE];

/// `x` saturated to the range of `i16`.
pub open spec fn clamp_i16(x: int) -> int {
    if x > i16::MAX {
        i16::MAX as int
    } else if x < i16::MIN {
        i16::MIN as int
    } else {
        x
    }
}

/// Saturates a wide sample value to the 16-bit range.
pub fn saturate_sample(x: i128) -> (r: i16)
    ensures
        r == clamp_i16(x as int),
{
    if x > i16::MAX as i128 {
        i16::MAX
    } else if x < i16::MIN as i128 {
        i16::MIN
    } else {
        x as i16
    }
}

/// The sum of the samples at index `i` over all `parts`.
pub open spec fn column_sum(parts: Seq<RawAudio>, i: int) -> int
    decreases parts.len(),
{
    if parts.len() == 0 {
        0
    } else {
        column_sum(parts.drop_last(), i) + parts.last()[i]
    }
}

/// The frame that mixing `parts` yields: at each index the saturated sum of
/// the sources' samples there.
pub open spec fn mixed(parts: Seq<RawAudio>) -> Seq<i16> {
    Seq::new(RAW_AUDIO_SIZE as nat, |i: int| clamp_i16(column_sum(parts, i)) as i16)
}

/// Mixes any number of source frames into one.
///
/// Each output sample is the sum of the sources' samples at that index,
/// saturated to the 16-bit range; with no sources the result is silence.
pub fn combine_audio_parts(parts: Vec<RawAudio>) -> (mix: RawAudio)
    ensures
        mix@ == mixed(parts@),
        parts@.len() == 0 ==> forall|i: int| 0 <= i < RAW_AUDIO_SIZE ==> mix[i] == 0,
{
    let mut mix: RawAudio = [0; RAW_AUDIO_SIZE];
    for i in 0..RAW_AUDIO_SIZE
        invariant
            forall|k: int| 0 <= k < i ==> mix[k] == mixed(parts@)[k],
    {
        // Wide enough that no count of sources a `Vec` can hold overflows it.
        let mut sample: i128 = 0;
        for j in 0..parts.len()
            invariant
                i < RAW_AUDIO_SIZE,
                sample == column_sum(parts@.take(j as int), i as int),
                -32768 * j <= sample <= 32767 * j,
        {
            proof {
                assert(parts@.take(j + 1).drop_last() =~= parts@.take(j as int));
            }
            sample = sample + parts[j][i] as i128;
        }
        proof {
            assert(parts@.take(parts@.len() as int) =~= parts@);
        }
        mix[i] = saturate_sample(sample);
    }
    proof {
        assert(mix@ =~= mixed(parts@));
    }
    mix
}

/// Mixing a single frame gives that frame back unchanged.
pub proof fn lemma_mix_single(frame: RawAudio)
    ensures
        mixed(seq![frame]) == frame@,
{
    assert forall|i: int| 0 <= i < RAW_AUDIO_SIZE implies #[trigger] mixed(seq![frame])[i]
        == frame@[i] by {
        assert(seq![frame].drop_last() =~= Seq::<RawAudio>::empty());
        assert(column_sum(Seq::<RawAudio>::empty(), i) == 0);
        assert(column_sum(seq![frame], i) == frame[i]);
    }
    assert(mixed(seq![frame]) =~= frame@);
}

/// Two frames that each hold one value throughout, `a` and `b`, mix into a
/// frame that holds the saturated `a + b` throughout.
pub proof fn lemma_mix_constant_pair(first: RawAudio, second: RawAudio, a: i16, b: i16)
    requires
        forall|i: int| 0 <= i < RAW_AUDIO_SIZE ==> first[i] == a,
        forall|i: int| 0 <= i < RAW_AUDIO_SIZE ==> second[i] == b,
    ensures
        mixed(seq![first, second]) == Seq::new(
            RAW_AUDIO_SIZE as nat,
            |i: int| clamp_i16(a + b) as i16,
        ),
{
    let pair = seq![first, second];
    assert forall|i: int| 0 <= i < RAW_AUDIO_SIZE implies #[trigger] mixed(pair)[i] == clamp_i16(
        a + b,
    ) by {
        assert(pair.drop_last() =~= seq![first]);
        assert(seq![first].drop_last() =~= Seq::<RawAudio>::empty());
        assert(column_sum(Seq::<RawAudio>::empty(), i) == 0);
        assert(column_sum(seq![first], i) == a);
        assert(column_sum(pair, i) == a + b);
    }
    assert(mixed(pair) =~= Seq::new(RAW_AUDIO_SIZE as nat, |i: int| clamp_i16(a + b) as i16));
}

} // verus!
