use xorcrypt::codec::compress;
use xorcrypt::codec::decompress;
use xorcrypt::errors::CipherError;
use xorcrypt::text::text_decode;
use xorcrypt::text::text_encode;
use xorcrypt::xor::mask;
use xorcrypt::xor::unmask;

#[test]
fn mask_unmask_roundtrip() {
    let cases: Vec<Vec<u8>> = vec![
        vec![],
        vec![0],
        vec![255],
        vec![0, 1, 2, 3, 254, 255],
        (0..=255u8).collect(),
    ];
    for plain in cases {
        let (cipher, key) = mask(&plain);
        assert_eq!(cipher.len(), plain.len());
        assert_eq!(key.len(), plain.len());
        let back = unmask(&cipher, &key).unwrap();
        assert_eq!(back, plain);
    }
}

#[test]
fn unmask_rejects_length_mismatch() {
    let cipher = vec![1u8, 2, 3];
    let key = vec![9u8, 8];
    assert_eq!(unmask(&cipher, &key), Err(CipherError::LengthMismatch));
    assert_eq!(unmask(&key, &cipher), Err(CipherError::LengthMismatch));
    assert_eq!(unmask(&vec![], &vec![1u8]), Err(CipherError::LengthMismatch));
}

#[test]
fn codec_roundtrip() {
    let cases: Vec<Vec<u8>> = vec![
        vec![],
        vec![42],
        b"hello world hello world hello world".to_vec(),
        (0..10_000u32).map(|i| (i % 251) as u8).collect(),
    ];
    for plain in cases {
        let packed = compress(&plain).unwrap();
        let back = decompress(&packed).unwrap();
        assert_eq!(back, plain);
    }
}

#[test]
fn compress_changes_framing() {
    // The compressor really frames its output: even the empty payload
    // becomes a non-empty stream, and raw payload bytes are not a valid
    // stream themselves.
    let packed_empty = compress(&vec![]).unwrap();
    assert!(!packed_empty.is_empty());
    let raw = b"definitely not a compressed stream".to_vec();
    assert_eq!(decompress(&raw), Err(CipherError::Decompression));
}

#[test]
fn corrupted_stream_is_rejected() {
    let plain = b"a payload that compression will frame".to_vec();
    let mut packed = compress(&plain).unwrap();
    // Flip a single byte in the frame header: the stream is no longer
    // validly framed and decompression must fail rather than return
    // silently wrong bytes.
    packed[0] ^= 0x01;
    assert_eq!(decompress(&packed), Err(CipherError::Decompression));
}

#[test]
fn text_encode_exact_value() {
    assert_eq!(text_encode("hello"), b"aGVsbG8=".to_vec());
    assert_eq!(text_encode(""), Vec::<u8>::new());
}

#[test]
fn text_roundtrip() {
    let cases = ["", "hello", "two words", "ünïcode → 😀", "trailing\n"];
    for s in cases {
        let encoded = text_encode(s);
        let back = text_decode(&encoded).unwrap();
        assert_eq!(back, s);
    }
}

#[test]
fn text_decode_rejects_invalid() {
    // Not a valid text-safe encoding at all.
    assert_eq!(text_decode(&vec![0xFF, 0xFE]), Err(CipherError::Decode));
    // A valid encoding, but of bytes that are not valid UTF-8:
    // "/w==" decodes to the single byte 0xFF.
    assert_eq!(text_decode(&b"/w==".to_vec()), Err(CipherError::Decode));
}
