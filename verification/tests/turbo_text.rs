use ollama_turbo::text::{is_white_space, split_nonempty_lines, split_words};
use ollama_turbo::turbo::{printable_char, show_levels, QuantizerError, TurboProcessor};

fn cause(r: Result<TurboProcessor, ollama_turbo::turbo::ProcessorError>) -> Option<QuantizerError> {
    r.err().map(|e| {
        assert_eq!(e.context, "Failed to create TurboQuantizer");
        e.cause
    })
}

#[test]
fn white_space_matches_std() {
    for u in 0u32..=0x10FFFF {
        if let Some(c) = char::from_u32(u) {
            assert_eq!(is_white_space(c), c.is_whitespace(), "code point {:#x}", u);
        }
    }
}

#[test]
fn split_words_matches_std() {
    let s = "  Hello,\tthis is\u{3000}a  test\nresponse. ";
    let expected: Vec<String> = s.split_whitespace().map(|w| w.to_string()).collect();
    assert_eq!(split_words(s), expected);
    assert!(split_words("   ").is_empty());
}

#[test]
fn split_lines_skips_empty() {
    assert_eq!(split_nonempty_lines("a\n\nb\n"), vec!["a".to_string(), "b".to_string()]);
    assert_eq!(split_nonempty_lines("a b"), vec!["a b".to_string()]);
}

#[test]
fn processor_rejects_bad_dimensions() {
    assert_eq!(cause(TurboProcessor::new(0, 42)), Some(QuantizerError::ZeroDimension));
    assert_eq!(cause(TurboProcessor::new(7, 42)), Some(QuantizerError::OddDimension { got: 7 }));
    assert_eq!(cause(TurboProcessor::new(2, 42)), Some(QuantizerError::ZeroProjectionCount));
    assert!(TurboProcessor::new(4, 1).is_ok());
    assert!(TurboProcessor::new(6, 1).is_ok());
}

#[test]
fn default_processor() {
    let p = TurboProcessor::default();
    assert_eq!(p.dimension(), 256);
    assert_eq!(p.seed(), 42);
    let codec = p.polar_quantizer().unwrap();
    assert_eq!(codec.dimension(), 256);
    assert_eq!(codec.bits(), 8);
    assert_eq!(codec.seed(), 42);
    assert_eq!(codec.quantizer().dim(), 256);
    assert_eq!(codec.quantizer().bits(), 8);
    assert_eq!(p.quantizer().dim(), 256);
    assert_eq!(p.quantizer().bits(), 8);
    assert_eq!(p.quantizer().projections(), 64);
    assert_eq!(p.quantizer().seed(), 42);
}

#[test]
fn printable_levels() {
    assert_eq!(printable_char(0), ' ');
    assert_eq!(printable_char(31), ' ');
    assert_eq!(printable_char(65), 'A');
    assert_eq!(printable_char(126), '~');
    assert_eq!(printable_char(255), '~');
    assert_eq!(show_levels(&[72, 105, 0, 200], 3), "Hi ");
    assert_eq!(show_levels(&[72, 105], 10), "Hi");
}

#[test]
fn word_slots_cycle_through_upper_half() {
    let p = TurboProcessor::new(8, 3).unwrap();
    let slots: Vec<usize> = (0..6).map(|i| p.word_slot(i)).collect();
    assert_eq!(slots, vec![4, 5, 6, 7, 4, 5]);
}

#[test]
fn vector_layout_of_text() {
    let p = TurboProcessor::new(8, 3).unwrap();
    let layout = p.vector_layout("Hi there you all x");
    assert_eq!(layout.char_codes, vec![72, 105, 32, 116, 104, 101, 114, 101]);
    assert_eq!(layout.words, vec!["Hi", "there", "you", "all", "x"]);
    assert_eq!(layout.word_slots, vec![4, 5, 6, 7, 4]);
    let short = p.vector_layout("é");
    assert_eq!(short.char_codes, vec![0xE9]);
}

#[test]
fn finish_turbo_enhance_counts_bytes_and_ratio() {
    let p = TurboProcessor::new(8, 3).unwrap();
    // "héllo" is 6 bytes long, so six levels are shown.
    let r = p.finish_turbo_enhance("héllo", &[72, 0, 255, 108, 108, 111, 10, 10], 20);
    assert_eq!(r.original, "héllo");
    assert_eq!(r.enhanced, "H ~llo");
    assert_eq!(r.original_length, 6);
    assert_eq!(r.enhanced_length, 6);
    assert_eq!(r.compression_ratio.numerator, 32);
    assert_eq!(r.compression_ratio.denominator, 20);
    assert_eq!(r.encoded_bytes, 20);
}

#[test]
fn finish_polar_enhance_inverts_ratio() {
    let p = TurboProcessor::new(8, 3).unwrap();
    let r = p.finish_polar_enhance("Hello, this is a test response.", &[72, 101, 108], 12);
    assert_eq!(r.enhanced, "Hel");
    assert_eq!(r.enhanced_length, 3);
    assert_eq!(r.original_length, 31);
    assert_eq!(r.compression_ratio.numerator, 12);
    assert_eq!(r.compression_ratio.denominator, 32);
}

#[test]
fn processor_quantizer_configuration() {
    let p = TurboProcessor::new(12, 7).unwrap();
    assert_eq!(p.quantizer().dim(), 12);
    assert_eq!(p.quantizer().bits(), 8);
    assert_eq!(p.quantizer().projections(), 3);
    assert_eq!(p.quantizer().seed(), 7);
    let codec = p.polar_quantizer().unwrap();
    assert_eq!((codec.dimension(), codec.bits(), codec.seed()), (12, 8, 7));
    assert_eq!(codec.quantizer().dim(), 12);
}
