use ql_label::compress::pack_bits;

#[test]
fn test_pack_bits_compression() {
    let all_zeros = vec![0u8; 90];
    let compressed = pack_bits(&all_zeros);
    println!(
        "All zeros: {} -> {} bytes",
        all_zeros.len(),
        compressed.len()
    );
    assert!(compressed.len() < all_zeros.len(), "圧縮が効果的でない");

    let random_data: Vec<u8> = (0..90).map(|i| (i * 37 + 17) as u8).collect();
    let compressed_random = pack_bits(&random_data);
    println!(
        "Random data: {} -> {} bytes",
        random_data.len(),
        compressed_random.len()
    );

    if compressed_random.len() > 90 {
        println!("91バイト制限により非圧縮データが返される");
        assert_eq!(compressed_random.len(), 91);
        assert_eq!(compressed_random[0], 89);
    }

    let mut mixed_data = vec![0u8; 30];
    mixed_data.extend(vec![255u8; 30]);
    mixed_data.extend((0..30).map(|i| i as u8));
    let compressed_mixed = pack_bits(&mixed_data);
    println!(
        "Mixed data: {} -> {} bytes",
        mixed_data.len(),
        compressed_mixed.len()
    );
}

#[test]
fn test_pack_bits_edge_cases() {
    let empty_data = vec![];
    let compressed_empty = pack_bits(&empty_data);
    assert_eq!(compressed_empty, empty_data);

    let wrong_size = vec![42u8; 50];
    let compressed_wrong = pack_bits(&wrong_size);
    assert_eq!(compressed_wrong, wrong_size);

    let single_byte = vec![42u8; 90];
    let compressed_single = pack_bits(&single_byte);
    assert_eq!(compressed_single.len(), 2);
    assert_eq!(compressed_single[0], (-(90i8 - 1)) as u8);
    assert_eq!(compressed_single[1], 42);
}

/// The decoder the round-trip law speaks of: a header below 128 announces
/// a literal of header+1 bytes, one above 128 announces 257-header copies
/// of the following byte.
fn unpack_reference(data: &[u8]) -> Vec<u8> {
    let mut out = Vec::new();
    let mut i = 0;
    while i < data.len() {
        let h = data[i];
        if h < 128 {
            let cnt = h as usize + 1;
            out.extend_from_slice(&data[i + 1..i + 1 + cnt]);
            i += cnt + 1;
        } else if h > 128 {
            let cnt = 257 - h as usize;
            let v = data[i + 1];
            for _ in 0..cnt {
                out.push(v);
            }
            i += 2;
        } else {
            i += 1;
        }
    }
    out
}

#[test]
fn test_pack_bits_round_trip() {
    let rows: Vec<Vec<u8>> = vec![
        vec![0u8; 90],
        vec![255u8; 90],
        (0..90).map(|i| (i * 37 + 17) as u8).collect(),
        (0..90).map(|i| (i / 7) as u8).collect(),
        {
            let mut v = vec![7u8; 45];
            v.extend((0..45).map(|i| i as u8));
            v
        },
        (0..90).map(|i| if i % 2 == 0 { 1 } else { 2 }).collect(),
    ];
    for row in rows {
        let packed = pack_bits(&row);
        assert!(packed.len() <= 91);
        assert_eq!(unpack_reference(&packed), row);
    }
}

#[test]
fn test_pack_bits_no_run_stays_within_bound() {
    // strictly alternating bytes: no run of two equal bytes anywhere
    let no_runs: Vec<u8> = (0..90).map(|i| if i % 2 == 0 { 0xAA } else { 0x55 }).collect();
    let packed = pack_bits(&no_runs);
    assert!(packed.len() <= 91);
    assert_eq!(unpack_reference(&packed), no_runs);
}
