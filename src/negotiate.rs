use vstd::prelude::*;
use crate::error::AudioError;

verus! {

/// The sample rate the recorder asks the hardware for, in Hz.
pub const TARGET_SAMPLE_RATE: u32 = 16000;

/// The channel count the recorder needs (mono).
pub const TARGET_CHANNELS: u16 = 1;

/// How the hardware encodes one sample.
#[derive(Debug, Clone, Copy, PartialEq, Eq)]
pub enum SampleEncoding {
    F32,
    I16,
    Other,
}

/// One configuration range that an input device reports as supported.
#[derive(Debug, Clone, Copy, PartialEq, Eq)]
pub struct SupportedConfigRange {
    pub channels: u16,
    pub min_sample_rate: u32,
    pub max_sample_rate: u32,
    pub encoding: SampleEncoding,
}

/// The concrete input format chosen for the session.
#[derive(Debug, Clone, Copy, PartialEq, Eq)]
pub struct InputFormat {
    pub sample_rate: u32,
    pub channels: u16,
    pub encoding: SampleEncoding,
}

pub open spec fn usable_mono(c: SupportedConfigRange) -> bool {
    (c.encoding == SampleEncoding::F32 || c.encoding == SampleEncoding::I16) && c.channels == TARGET_CHANNELS
}

/// A range that can deliver mono audio at the target rate.
pub open spec fn fits_target(c: SupportedConfigRange) -> bool {
    usable_mono(c) && c.min_sample_rate <= TARGET_SAMPLE_RATE && TARGET_SAMPLE_RATE <= c.max_sample_rate
}

/// `i` is the first index of `cs` whose range fits the target.
pub open spec fn first_target(cs: Seq<SupportedConfigRange>, i: int) -> bool {
    0 <= i < cs.len() && fits_target(cs[i]) && forall|j: int| 0 <= j < i ==> !fits_target(#[trigger] cs[j])
}

/// `i` is the first index of `cs` whose range is usable mono.
pub open spec fn first_mono(cs: Seq<SupportedConfigRange>, i: int) -> bool {
    0 <= i < cs.len() && usable_mono(cs[i]) && forall|j: int| 0 <= j < i ==> !usable_mono(#[trigger] cs[j])
}

pub open spec fn at_rate(c: SupportedConfigRange, rate: u32) -> InputFormat {
    InputFormat { sample_rate: rate, channels: c.channels, encoding: c.encoding }
}

/// The format the negotiator picks from a device's supported ranges: the first
/// range that fits the target, at the target rate; else the first usable mono
/// range, at its maximum rate; else none.
pub open spec fn selected_format(cs: Seq<SupportedConfigRange>) -> Result<InputFormat, AudioError> {
    if exists|i: int| #[trigger] first_target(cs, i) {
        let i = choose|i: int| first_target(cs, i);
        Ok(at_rate(cs[i], TARGET_SAMPLE_RATE))
    } else if exists|i: int| #[trigger] first_mono(cs, i) {
        let i = choose|i: int| first_mono(cs, i);
        Ok(at_rate(cs[i], cs[i].max_sample_rate))
    } else {
        Err(AudioError::NoSupportedConfig)
    }
}

proof fn lemma_first_target_unique(cs: Seq<SupportedConfigRange>, i: int, k: int)
    requires
        first_target(cs, i),
        first_target(cs, k),
    ensures
        i == k,
{
    if i < k {
        assert(!fits_target(cs[i]));
    } else if k < i {
        assert(!fits_target(cs[k]));
    }
}

proof fn lemma_first_mono_unique(cs: Seq<SupportedConfigRange>, i: int, k: int)
    requires
        first_mono(cs, i),
        first_mono(cs, k),
    ensures
        i == k,
{
    if i < k {
        assert(!usable_mono(cs[i]));
    } else if k < i {
        assert(!usable_mono(cs[k]));
    }
}

fn is_usable_mono(c: &SupportedConfigRange) -> (r: bool)
    ensures
        r == usable_mono(*c),
{
    (match c.encoding {
        SampleEncoding::F32 => true,
        SampleEncoding::I16 => true,
        SampleEncoding::Other => false,
    }) && c.channels == TARGET_CHANNELS
}

/// Index of the first range that fits the target, if any.
fn find_target(configs: &Vec<SupportedConfigRange>) -> (r: Option<usize>)
    ensures
        match r {
            Some(i) => first_target(configs@, i as int),
            None => forall|j: int| 0 <= j < configs@.len() ==> !fits_target(#[trigger] configs@[j]),
        },
{
    let mut i: usize = 0;
    while i < configs.len()
        invariant
            i <= configs@.len(),
            forall|j: int| 0 <= j < i ==> !fits_target(#[trigger] configs@[j]),
        decreases configs@.len() - i,
    {
        let c = &configs[i];
        if is_usable_mono(c) && c.min_sample_rate <= TARGET_SAMPLE_RATE && TARGET_SAMPLE_RATE <= c.max_sample_rate {
            return Some(i);
        }
        i = i + 1;
    }
    None
}

/// Index of the first usable mono range, if any.
fn find_mono(configs: &Vec<SupportedConfigRange>) -> (r: Option<usize>)
    ensures
        match r {
            Some(i) => first_mono(configs@, i as int),
            None => forall|j: int| 0 <= j < configs@.len() ==> !usable_mono(#[trigger] configs@[j]),
        },
{
    let mut i: usize = 0;
    while i < configs.len()
        invariant
            i <= configs@.len(),
            forall|j: int| 0 <= j < i ==> !usable_mono(#[trigger] configs@[j]),
        decreases configs@.len() - i,
    {
        if is_usable_mono(&configs[i]) {
            return Some(i);
        }
        i = i + 1;
    }
    None
}

/// Chooses the session's input format from the ranges a device supports, in
/// the order the device lists them.
pub fn select_input_format(configs: &Vec<SupportedConfigRange>) -> (r: Result<InputFormat, AudioError>)
    ensures
        r == selected_format(configs@),
{
    let ghost cs = configs@;
    match find_target(configs) {
        Some(i) => {
            proof {
                let k = choose|k: int| first_target(cs, k);
                lemma_first_target_unique(cs, i as int, k);
            }
            let c = &configs[i];
            Ok(InputFormat { sample_rate: TARGET_SAMPLE_RATE, channels: c.channels, encoding: c.encoding })
        },
        None => {
            assert(!exists|i: int| #[trigger] first_target(cs, i));
            match find_mono(configs) {
                Some(i) => {
                    proof {
                        let k = choose|k: int| first_mono(cs, k);
                        lemma_first_mono_unique(cs, i as int, k);
                    }
                    let c = &configs[i];
                    Ok(InputFormat { sample_rate: c.max_sample_rate, channels: c.channels, encoding: c.encoding })
                },
                None => {
                    assert(!exists|i: int| #[trigger] first_mono(cs, i));
                    Err(AudioError::NoSupportedConfig)
                },
            }
        },
    }
}

} // verus!
