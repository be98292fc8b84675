use base64::Engine;
use xor_errors::{Base64DecodeError, HexError, Lz4Error, XorError, XorResult, Z85DecodeError};

#[test]
fn base64_invalid_byte_keeps_offset_and_byte() {
    let converted = XorError::from(base64::DecodeError::InvalidByte(4, 0x2C));
    assert_eq!(converted, XorError::Base64(Base64DecodeError::InvalidByte(4, 0x2C)));
    match converted {
        XorError::Base64(Base64DecodeError::InvalidByte(offset, byte)) => {
            assert_eq!(offset, 4);
            assert_eq!(byte, 0x2C);
        }
        other => panic!("unexpected {:?}", other),
    }
}

#[test]
fn base64_invalid_length_converts() {
    assert_eq!(
        XorError::from(base64::DecodeError::InvalidLength),
        XorError::Base64(Base64DecodeError::InvalidLength)
    );
}

#[test]
fn base64_invalid_last_symbol_keeps_offset_and_byte() {
    assert_eq!(
        XorError::from(base64::DecodeError::InvalidLastSymbol(7, b'9')),
        XorError::Base64(Base64DecodeError::InvalidLastSymbol(7, b'9'))
    );
    assert_ne!(
        XorError::from(base64::DecodeError::InvalidLastSymbol(7, b'9')),
        XorError::Base64(Base64DecodeError::InvalidByte(7, b'9'))
    );
}

#[test]
fn base64_invalid_padding_converts() {
    assert_eq!(
        XorError::from(base64::DecodeError::InvalidPadding),
        XorError::Base64(Base64DecodeError::InvalidPadding)
    );
}

#[test]
fn base64_extreme_payload_is_kept() {
    assert_eq!(
        XorError::from(base64::DecodeError::InvalidByte(usize::MAX, u8::MAX)),
        XorError::Base64(Base64DecodeError::InvalidByte(usize::MAX, u8::MAX))
    );
    assert_eq!(
        XorError::from(base64::DecodeError::InvalidByte(0, 0)),
        XorError::Base64(Base64DecodeError::InvalidByte(0, 0))
    );
}

#[test]
fn base64_decoder_failure_converts() {
    let failure = base64::engine::general_purpose::STANDARD
        .decode("aGVs,G8=")
        .unwrap_err();
    assert_eq!(failure, base64::DecodeError::InvalidByte(4, 0x2C));
    assert_eq!(
        XorError::from(failure),
        XorError::Base64(Base64DecodeError::InvalidByte(4, 0x2C))
    );
}

#[test]
fn hex_invalid_character_keeps_character_and_index() {
    let converted = XorError::from(hex::FromHexError::InvalidHexCharacter { c: 'g', index: 3 });
    assert_eq!(
        converted,
        XorError::Hex(HexError::InvalidHexCharacter { c: 'g', index: 3 })
    );
    assert_ne!(
        converted,
        XorError::Hex(HexError::InvalidHexCharacter { c: 'g', index: 4 })
    );
    assert_ne!(
        converted,
        XorError::Hex(HexError::InvalidHexCharacter { c: 'h', index: 3 })
    );
}

#[test]
fn hex_character_beyond_ascii_is_kept() {
    let source = hex::FromHexError::InvalidHexCharacter { c: '\u{10FFFF}', index: usize::MAX };
    assert_eq!(
        XorError::from(source),
        XorError::Hex(HexError::InvalidHexCharacter { c: '\u{10FFFF}', index: usize::MAX })
    );
}

#[test]
fn hex_odd_length_converts() {
    assert_eq!(
        XorError::from(hex::FromHexError::OddLength),
        XorError::Hex(HexError::OddLength)
    );
}

#[test]
fn hex_invalid_string_length_converts() {
    assert_eq!(
        XorError::from(hex::FromHexError::InvalidStringLength),
        XorError::Hex(HexError::InvalidStringLength)
    );
}

#[test]
fn hex_decoder_failures_convert() {
    let odd = hex::decode("abc").unwrap_err();
    assert_eq!(XorError::from(odd), XorError::Hex(HexError::OddLength));
    let bad = hex::decode("0z").unwrap_err();
    assert_eq!(
        XorError::from(bad),
        XorError::Hex(HexError::InvalidHexCharacter { c: 'z', index: 1 })
    );
    let mut one = [0u8; 1];
    let short = hex::decode_to_slice("abcd", &mut one).unwrap_err();
    assert_eq!(XorError::from(short), XorError::Hex(HexError::InvalidStringLength));
}

#[test]
fn z85_invalid_byte_keeps_offset_and_byte() {
    assert_eq!(
        XorError::from(z85::DecodeError::InvalidByte(12, 0x20)),
        XorError::Z85(Z85DecodeError::InvalidByte(12, 0x20))
    );
}

#[test]
fn z85_invalid_chunk_keeps_index() {
    assert_eq!(
        XorError::from(z85::DecodeError::InvalidChunk(10)),
        XorError::Z85(Z85DecodeError::InvalidChunk(10))
    );
    assert_ne!(
        XorError::from(z85::DecodeError::InvalidChunk(10)),
        XorError::Z85(Z85DecodeError::InvalidLength(10))
    );
}

#[test]
fn z85_invalid_length_keeps_length() {
    assert_eq!(
        XorError::from(z85::DecodeError::InvalidLength(7)),
        XorError::Z85(Z85DecodeError::InvalidLength(7))
    );
}

#[test]
fn z85_invalid_tail_converts() {
    assert_eq!(
        XorError::from(z85::DecodeError::InvalidTail),
        XorError::Z85(Z85DecodeError::InvalidTail)
    );
}

#[test]
fn z85_decoder_failure_converts() {
    let failure = z85::decode("abc").unwrap_err();
    assert_eq!(XorError::from(failure), XorError::Z85(Z85DecodeError::InvalidLength(3)));
}

#[test]
fn lz4_output_too_small_keeps_sizes() {
    let source = lz4_flex::block::DecompressError::OutputTooSmall { expected: 64, actual: 16 };
    assert_eq!(
        XorError::from(source),
        XorError::Lz4(Lz4Error::OutputTooSmall { expected: 64, actual: 16 })
    );
}

#[test]
fn lz4_uncompressed_size_differs_keeps_sizes() {
    let source =
        lz4_flex::block::DecompressError::UncompressedSizeDiffers { expected: 10, actual: 9 };
    let converted = XorError::from(source);
    assert_eq!(
        converted,
        XorError::Lz4(Lz4Error::UncompressedSizeDiffers { expected: 10, actual: 9 })
    );
    assert_ne!(
        converted,
        XorError::Lz4(Lz4Error::OutputTooSmall { expected: 10, actual: 9 })
    );
    assert_ne!(
        converted,
        XorError::Lz4(Lz4Error::UncompressedSizeDiffers { expected: 9, actual: 10 })
    );
}

#[test]
fn lz4_literal_out_of_bounds_converts() {
    assert_eq!(
        XorError::from(lz4_flex::block::DecompressError::LiteralOutOfBounds),
        XorError::Lz4(Lz4Error::LiteralOutOfBounds)
    );
}

#[test]
fn lz4_expected_another_byte_converts() {
    assert_eq!(
        XorError::from(lz4_flex::block::DecompressError::ExpectedAnotherByte),
        XorError::Lz4(Lz4Error::ExpectedAnotherByte)
    );
}

#[test]
fn lz4_offset_out_of_bounds_converts() {
    assert_eq!(
        XorError::from(lz4_flex::block::DecompressError::OffsetOutOfBounds),
        XorError::Lz4(Lz4Error::OffsetOutOfBounds)
    );
}

#[test]
fn lz4_known_failures_never_become_unsupported() {
    let known = vec![
        lz4_flex::block::DecompressError::OutputTooSmall { expected: 1, actual: 0 },
        lz4_flex::block::DecompressError::UncompressedSizeDiffers { expected: 1, actual: 0 },
        lz4_flex::block::DecompressError::LiteralOutOfBounds,
        lz4_flex::block::DecompressError::ExpectedAnotherByte,
        lz4_flex::block::DecompressError::OffsetOutOfBounds,
    ];
    for source in known {
        assert_ne!(XorError::from(source), XorError::Lz4(Lz4Error::UnsupportedError));
    }
}

#[test]
fn lz4_failure_without_known_cause_becomes_unsupported() {
    assert_eq!(Lz4Error::from_known(None), Lz4Error::UnsupportedError);
    assert_eq!(
        XorError::Lz4(Lz4Error::from_known(None)),
        XorError::Lz4(Lz4Error::UnsupportedError)
    );
}

#[test]
fn lz4_known_cause_stays_as_it_is() {
    assert_eq!(
        Lz4Error::from_known(Some(Lz4Error::OutputTooSmall { expected: 3, actual: 1 })),
        Lz4Error::OutputTooSmall { expected: 3, actual: 1 }
    );
    assert_eq!(
        Lz4Error::from_known(Some(Lz4Error::OffsetOutOfBounds)),
        Lz4Error::OffsetOutOfBounds
    );
    assert_eq!(
        Lz4Error::from_known(Some(Lz4Error::UnsupportedError)),
        Lz4Error::UnsupportedError
    );
}

#[test]
fn lz4_decompressor_failure_converts() {
    let block = lz4_flex::block::compress(b"an error is a value, an error is a value");
    let failure = lz4_flex::block::decompress(&block, 50).unwrap_err();
    assert_eq!(
        XorError::from(failure),
        XorError::Lz4(Lz4Error::UncompressedSizeDiffers { expected: 50, actual: 40 })
    );
}

fn decode_hex_byte(text: &str) -> XorResult<'static, u8> {
    let bytes = hex::decode(text)?;
    match bytes.first() {
        Some(byte) => Ok(*byte),
        None => Err(XorError::UnsupportedFormat("empty")),
    }
}

#[test]
fn question_mark_converts_a_codec_error() {
    assert_eq!(decode_hex_byte("2c"), Ok(0x2C));
    assert_eq!(decode_hex_byte("2"), Err(XorError::Hex(HexError::OddLength)));
    assert_eq!(decode_hex_byte(""), Err(XorError::UnsupportedFormat("empty")));
}
