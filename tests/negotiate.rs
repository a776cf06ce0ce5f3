use dictator::error::AudioError;
use dictator::negotiate::{select_input_format, InputFormat, SampleEncoding, SupportedConfigRange};

fn range(channels: u16, min: u32, max: u32, encoding: SampleEncoding) -> SupportedConfigRange {
    SupportedConfigRange { channels, min_sample_rate: min, max_sample_rate: max, encoding }
}

#[test]
fn picks_first_mono_range_covering_target_rate() {
    let cs = vec![
        range(2, 8000, 48000, SampleEncoding::F32),
        range(1, 44100, 48000, SampleEncoding::I16),
        range(1, 8000, 16000, SampleEncoding::I16),
        range(1, 8000, 96000, SampleEncoding::F32),
    ];
    assert_eq!(
        select_input_format(&cs),
        Ok(InputFormat { sample_rate: 16000, channels: 1, encoding: SampleEncoding::I16 })
    );
}

#[test]
fn falls_back_to_first_mono_range_at_its_maximum() {
    let cs = vec![
        range(1, 44100, 44100, SampleEncoding::Other),
        range(2, 8000, 48000, SampleEncoding::F32),
        range(1, 22050, 44100, SampleEncoding::F32),
        range(1, 48000, 96000, SampleEncoding::I16),
    ];
    assert_eq!(
        select_input_format(&cs),
        Ok(InputFormat { sample_rate: 44100, channels: 1, encoding: SampleEncoding::F32 })
    );
}

#[test]
fn fails_without_usable_mono_range() {
    let cs = vec![
        range(2, 8000, 48000, SampleEncoding::F32),
        range(1, 8000, 48000, SampleEncoding::Other),
    ];
    assert_eq!(select_input_format(&cs), Err(AudioError::NoSupportedConfig));
    assert_eq!(select_input_format(&vec![]), Err(AudioError::NoSupportedConfig));
}

#[test]
fn target_rate_at_range_edges() {
    let cs = vec![range(1, 16000, 16000, SampleEncoding::F32)];
    assert_eq!(
        select_input_format(&cs),
        Ok(InputFormat { sample_rate: 16000, channels: 1, encoding: SampleEncoding::F32 })
    );
}
