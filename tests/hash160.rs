use hash160::{Error, Hash160Hash};

struct Test {
    input: Vec<u8>,
    output: Vec<u8>,
    output_str: &'static str,
}

#[test]
fn test() {
    let tests = vec![
        // Uncompressed pubkey obtained from Bitcoin key; data from validateaddress
        Test {
            input: vec![
                0x04, 0xa1, 0x49, 0xd7, 0x6c, 0x5d, 0xe2, 0x7a, 0x2d,
                0xdb, 0xfa, 0xa1, 0x24, 0x6c, 0x4a, 0xdc, 0xd2, 0xb6,
                0xf7, 0xaa, 0x29, 0x54, 0xc2, 0xe2, 0x53, 0x03, 0xf5,
                0x51, 0x54, 0xca, 0xad, 0x91, 0x52, 0xe4, 0xf7, 0xe4,
                0xb8, 0x5d, 0xf1, 0x69, 0xc1, 0x8a, 0x3c, 0x69, 0x7f,
                0xbb, 0x2d, 0xc4, 0xec, 0xef, 0x94, 0xac, 0x55, 0xfe,
                0x81, 0x64, 0xcc, 0xf9, 0x82, 0xa1, 0x38, 0x69, 0x1a,
                0x55, 0x19,
            ],
            output: vec![
                0xda, 0x0b, 0x34, 0x52, 0xb0, 0x6f, 0xe3, 0x41,
                0x62, 0x6a, 0xd0, 0x94, 0x9c, 0x18, 0x3f, 0xbd,
                0xa5, 0x67, 0x68, 0x26,
            ],
            output_str: "da0b3452b06fe341626ad0949c183fbda5676826",
        },
    ];

    for test in tests {
        // Hash through high-level API, check hex encoding/decoding
        let hash = Hash160Hash::hash(&test.input[..]);
        assert_eq!(hash, Hash160Hash::from_hex(test.output_str).expect("parse hex"));
        assert_eq!(hash.as_bytes(), &test.output[..]);
        assert_eq!(&hash.to_hex(), &test.output_str);

        // Hash through engine, checking that we can input byte by byte
        let mut engine = Hash160Hash::engine();
        for ch in test.input {
            engine.input(&[ch]);
        }
        let manual_hash = Hash160Hash::from_engine(engine);
        assert_eq!(hash, manual_hash);
    }
}

fn pubkey_input() -> Vec<u8> {
    let h = "04a149d76c5de27a2ddbfaa1246c4adcd2b6f7aa2954c2e25303f55154caad9152e4f7e4b85df169c18a3c697fbb2dc4ecef94ac55fe8164ccf982a138691a5519";
    let mut v = Vec::new();
    let b = h.as_bytes();
    let mut i = 0;
    while i < b.len() {
        let s = std::str::from_utf8(&b[i..i + 2]).unwrap();
        v.push(u8::from_str_radix(s, 16).unwrap());
        i += 2;
    }
    v
}

#[test]
fn pubkey_scenario_bytes() {
    let input = pubkey_input();
    assert_eq!(input.len(), 65);
    let hash = Hash160Hash::hash(&input);
    assert_eq!(
        hash.0,
        [
            0xda, 0x0b, 0x34, 0x52, 0xb0, 0x6f, 0xe3, 0x41, 0x62, 0x6a, 0xd0, 0x94, 0x9c, 0x18,
            0x3f, 0xbd, 0xa5, 0x67, 0x68, 0x26,
        ]
    );
    assert_eq!(hash.to_hex(), "da0b3452b06fe341626ad0949c183fbda5676826");
    assert_eq!(hash.to_hex().len(), 40);
}

#[test]
fn empty_input_is_reproducible() {
    let a = Hash160Hash::hash(&[]);
    let b = Hash160Hash::hash(&[]);
    let c = Hash160Hash::from_engine(Hash160Hash::engine());
    assert_eq!(a, b);
    assert_eq!(a, c);
    // RIPEMD-160(SHA-256("")), the well-known HASH160 of the empty string
    assert_eq!(a.to_hex(), "b472a266d0bd89c13706a4132ccfb16f7c3b9fcb");
}

#[test]
fn hashing_is_deterministic() {
    let input = pubkey_input();
    assert_eq!(Hash160Hash::hash(&input), Hash160Hash::hash(&input.clone()));
    assert_ne!(Hash160Hash::hash(&input), Hash160Hash::hash(&input[1..]));
}

#[test]
fn chunking_does_not_matter() {
    let input = pubkey_input();
    let whole = Hash160Hash::hash(&input);
    for split in [0usize, 1, 7, 32, 64, 65] {
        let mut e = Hash160Hash::engine();
        e.input(&input[..split]);
        e.input(&input[split..]);
        assert_eq!(Hash160Hash::from_engine(e), whole);
    }
    let mut e = Hash160Hash::engine();
    for chunk in input.chunks(3) {
        e.input(chunk);
    }
    e.input(&[]);
    assert_eq!(Hash160Hash::from_engine(e), whole);
}

#[test]
fn from_slice_accepts_exactly_twenty_bytes() {
    let bytes: Vec<u8> = (0u8..20).collect();
    let h = Hash160Hash::from_slice(&bytes).unwrap();
    assert_eq!(h.as_bytes(), &bytes[..]);
    assert_eq!(h.0[19], 19);
}

#[test]
fn from_slice_rejects_other_lengths() {
    for n in [0usize, 1, 19, 21, 32, 64] {
        let bytes = vec![0xabu8; n];
        assert_eq!(Hash160Hash::from_slice(&bytes), Err(Error::InvalidLength(20, n)));
    }
}

#[test]
fn hex_round_trip() {
    let bytes: Vec<u8> = vec![
        0x00, 0x01, 0x0f, 0x10, 0x7f, 0x80, 0xab, 0xcd, 0xef, 0xff, 0x12, 0x34, 0x56, 0x78, 0x9a,
        0xbc, 0xde, 0xf0, 0x09, 0x90,
    ];
    let o = Hash160Hash::from_slice(&bytes).unwrap();
    let text = o.to_hex();
    assert_eq!(text, "00010f107f80abcdefff123456789abcdef00990");
    assert_eq!(Hash160Hash::from_hex(&text), Ok(o));
    assert_eq!(Hash160Hash::from_hex(&text.to_uppercase()), Ok(o));
}

#[test]
fn from_hex_errors() {
    assert_eq!(Hash160Hash::from_hex("abc"), Err(Error::InvalidHex));
    assert_eq!(Hash160Hash::from_hex("zz"), Err(Error::InvalidHex));
    assert_eq!(Hash160Hash::from_hex("abcd"), Err(Error::InvalidLength(20, 2)));
    assert_eq!(Hash160Hash::from_hex(""), Err(Error::InvalidLength(20, 0)));
}

#[test]
fn len_and_block_size() {
    assert_eq!(Hash160Hash::len(), 20);
    assert_eq!(Hash160Hash::block_size(), 64);
}

#[test]
fn output_bytes_differ_from_input() {
    // the digest wrappers must not hand their input back
    let input = [0u8; 20];
    let h = Hash160Hash::hash(&input);
    assert_ne!(h.0, input);
    assert_eq!(h.to_hex().len(), 40);
}
