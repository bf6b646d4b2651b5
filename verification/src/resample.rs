//! Reframing of decoded voice audio for the transcription backend.
//!
//! A decoded frame is interleaved 16-bit PCM. Every run of six consecutive
//! samples yields one output sample: the mean of the samples at offsets 0, 2
//! and 4 of the run, rounded toward zero and written as two little-endian
//! bytes. A trailing run of fewer than six samples yields nothing.

use vstd::prelude::*;

verus! {

/// A third of `sum`, rounded toward zero.
pub open spec fn third_toward_zero(sum: int) -> int {
    if sum >= 0 {
        sum / 3
    } else {
        -((-sum) / 3)
    }
}

/// The output sample of the `k`-th complete group of `samples`.
pub open spec fn group_mean(samples: Seq<i16>, k: int) -> int
    recommends
        0 <= k,
        6 * k + 5 < samples.len(),
{
    third_toward_zero(samples[6 * k] + samples[6 * k + 2] + samples[6 * k + 4])
}

/// Low byte of the 16-bit two's complement form of `v`.
pub open spec fn low_byte(v: int) -> u8 {
    (v % 256) as u8
}

/// High byte of the 16-bit two's complement form of `v`.
pub open spec fn high_byte(v: int) -> u8 {
    ((v / 256) % 256) as u8
}

/// Number of complete groups in a frame of `len` samples.
pub open spec fn group_count(len: nat) -> nat {
    len / 6
}

/// The byte frame produced from `samples`.
pub open spec fn resampled(samples: Seq<i16>) -> Seq<u8> {
    Seq::new(
        2 * group_count(samples.len()),
        |j: int|
            if j % 2 == 0 {
                low_byte(group_mean(samples, j / 2))
            } else {
                high_byte(group_mean(samples, j / 2))
            },
    )
}

/// The mean of three samples, rounded toward zero; it is again a 16-bit value.
fn mean_of_three(a: i16, b: i16, c: i16) -> (m: i16)
    ensures
        m == third_toward_zero(a + b + c),
{
    let sum: i64 = a as i64 + b as i64 + c as i64;
    if sum >= 0 {
        (sum / 3) as i16
    } else {
        let up: i64 = -sum;
        let q: i64 = up / 3;
        (-q) as i16
    }
}

/// The two little-endian bytes of a 16-bit sample.
fn sample_bytes(v: i16) -> (b: (u8, u8))
    ensures
        b.0 == low_byte(v as int),
        b.1 == high_byte(v as int),
{
    let wide: i32 = v as i32;
    let unsigned: i32 = if wide < 0 {
        wide + 65536
    } else {
        wide
    };
    ((unsigned % 256) as u8, (unsigned / 256) as u8)
}

/// Resamples one decoded frame into the byte frame sent to the backend.
///
/// The result holds two bytes for every complete group of six input samples
/// and nothing for an incomplete trailing group.
pub fn resample_discord_to_bytes(sound_data: Vec<i16>) -> (bytes: Vec<u8>)
    ensures
        bytes@ == resampled(sound_data@),
        bytes@.len() == 2 * (sound_data@.len() / 6),
{
    let groups: usize = sound_data.len() / 6;
    let mut bytes: Vec<u8> = Vec::new();
    let mut k: usize = 0;
    while k < groups
        invariant
            groups == sound_data.len() / 6,
            k <= groups,
            bytes@.len() == 2 * k,
            forall|j: int| 0 <= j < 2 * k ==> bytes@[j] == #[trigger] resampled(sound_data@)[j],
        decreases groups - k,
    {
        assert(6 * k + 5 < sound_data.len());
        let base: usize = 6 * k;
        let m: i16 = mean_of_three(sound_data[base], sound_data[base + 2], sound_data[base + 4]);
        let pair: (u8, u8) = sample_bytes(m);
        bytes.push(pair.0);
        bytes.push(pair.1);
        proof {
            assert(m == group_mean(sound_data@, k as int));
            assert((2 * k) / 2 == k && (2 * k) % 2 == 0);
            assert((2 * k + 1) / 2 == k && (2 * k + 1) % 2 == 1);
        }
        k = k + 1;
    }
    bytes
}

} // verus!
