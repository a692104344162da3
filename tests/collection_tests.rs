use tibs::{
    bit_count, combine, same_bits, BitCollection, BitOp, BitsError, BoolIterator, ChunksIterator,
    FindAllIterator, Mutibs, Tibs,
};

fn bits_of(it: &mut BoolIterator) -> Vec<bool> {
    let mut out = Vec::new();
    while let Some(b) = it.next() {
        out.push(b);
    }
    out
}

#[test]
fn zeros_and_ones_have_the_requested_length() {
    for n in [0usize, 1, 7, 8, 9, 33] {
        let z = Tibs::from_zeros(n);
        let o = Mutibs::from_ones(n);
        assert_eq!(z.length(), n);
        assert_eq!(o.length(), n);
        for i in 0..n {
            assert_eq!(z._getindex(i), Ok(false));
            assert_eq!(o._getindex(i), Ok(true));
        }
        assert_eq!(z.to_binary(), "0".repeat(n));
        assert_eq!(o.to_binary(), "1".repeat(n));
    }
}

#[test]
fn empty_collection() {
    let e = Tibs::from_binary("").unwrap();
    assert_eq!(e.length(), 0);
    assert_eq!(e.to_binary(), "");
    assert_eq!(e.to_hexadecimal().unwrap(), "");
    assert_eq!(e._getindex(0), Err(BitsError::IndexOutOfRange));
}

#[test]
fn binary_round_trip_text() {
    for t in ["0", "1", "10110", "0000000011111111", "101100111000111100001"] {
        assert_eq!(Tibs::from_binary(t).unwrap().to_binary(), t);
    }
}

#[test]
fn hex_round_trip_text() {
    assert_eq!(Tibs::from_hexadecimal("ab12").unwrap().to_hexadecimal().unwrap(), "ab12");
    assert_eq!(Tibs::from_hexadecimal("0XABCDEF").unwrap().to_hexadecimal().unwrap(), "abcdef");
    assert_eq!(Tibs::from_hexadecimal("0x0f").unwrap().to_binary(), "00001111");
    assert_eq!(Tibs::from_hexadecimal("9").unwrap().to_binary(), "1001");
}

#[test]
fn hex_length_is_four_per_digit() {
    assert_eq!(Tibs::from_hexadecimal("0x12345678").unwrap().length(), 32);
    assert_eq!(Tibs::from_hexadecimal("abc").unwrap().length(), 12);
}

#[test]
fn invalid_characters_are_refused() {
    assert_eq!(Tibs::from_binary("0120").err(), Some(BitsError::InvalidCharacter));
    assert_eq!(Tibs::from_binary("01 0").err(), Some(BitsError::InvalidCharacter));
    assert_eq!(Mutibs::from_hexadecimal("12g4").err(), Some(BitsError::InvalidCharacter));
    assert_eq!(Mutibs::from_hexadecimal("x12").err(), Some(BitsError::InvalidCharacter));
}

#[test]
fn unaligned_hex_output_is_refused() {
    let b = Tibs::from_binary("101").unwrap();
    assert_eq!(b.to_hexadecimal(), Err(BitsError::UnalignedLength));
}

#[test]
fn index_out_of_range() {
    let mut m = Mutibs::from_zeros(5);
    assert_eq!(m._getindex(5), Err(BitsError::IndexOutOfRange));
    assert_eq!(m._set_index(true, 5), Err(BitsError::IndexOutOfRange));
    assert_eq!(m.to_binary(), "00000");
}

#[test]
fn set_index_changes_one_bit() {
    let mut m = Mutibs::from_binary("1010011").unwrap();
    m._set_index(true, 1).unwrap();
    assert_eq!(m.to_binary(), "1110011");
    m._set_index(false, 6).unwrap();
    assert_eq!(m.to_binary(), "1110010");
    assert_eq!(m._getindex(6), Ok(false));
}

#[test]
fn get_slice_and_its_errors() {
    let t = Tibs::from_binary("1101001110").unwrap();
    assert_eq!(t._getslice(2, 7).unwrap().to_binary(), "01001");
    assert_eq!(t._getslice(4, 4).unwrap().length(), 0);
    assert_eq!(t._getslice(0, 10).unwrap().to_binary(), "1101001110");
    assert_eq!(t._getslice(5, 3).err(), Some(BitsError::InvalidRange));
    assert_eq!(t._getslice(3, 11).err(), Some(BitsError::InvalidRange));
}

#[test]
fn combine_bitwise() {
    let a = Tibs::from_binary("1100").unwrap();
    let b = Mutibs::from_binary("1010").unwrap();
    assert_eq!(combine(&a, BitOp::And, &b).unwrap().to_binary(), "1000");
    assert_eq!(combine(&a, BitOp::Or, &b).unwrap().to_binary(), "1110");
    assert_eq!(combine(&a, BitOp::Xor, &b).unwrap().to_binary(), "0110");
    assert_eq!(combine(&a, BitOp::Xor, &a).unwrap().to_binary(), "0000");
    assert_eq!(combine(&a, BitOp::And, &a).unwrap().to_binary(), "1100");
    assert_eq!(a.to_binary(), "1100");
}

#[test]
fn combine_mismatched_lengths_fails() {
    let a = Tibs::from_binary("1100").unwrap();
    let b = Tibs::from_binary("11001").unwrap();
    for op in [BitOp::And, BitOp::Or, BitOp::Xor] {
        assert!(matches!(combine(&a, op, &b), Err(BitsError::LengthMismatch)));
    }
    let mut m = Mutibs::from_binary("111").unwrap();
    assert_eq!(m._iand(&a), Err(BitsError::LengthMismatch));
    assert_eq!(m._ior(&a), Err(BitsError::LengthMismatch));
    assert_eq!(m._ixor(&a), Err(BitsError::LengthMismatch));
    assert_eq!(m.to_binary(), "111");
}

#[test]
fn set_slice_same_length_keeps_other_bits() {
    let mut m = Mutibs::from_binary("11111111").unwrap();
    let z = Tibs::from_zeros(2);
    m._set_slice(2, 4, &z).unwrap();
    assert_eq!(m.to_binary(), "11001111");
}

#[test]
fn set_slice_grows_and_shrinks() {
    let mut m = Mutibs::from_binary("110011").unwrap();
    m._set_slice(2, 4, &Tibs::from_binary("0101").unwrap()).unwrap();
    assert_eq!(m.to_binary(), "11010111");
    m._set_slice(1, 7, &Tibs::from_binary("").unwrap()).unwrap();
    assert_eq!(m.to_binary(), "11");
    m._set_slice(2, 2, &Mutibs::from_ones(9)).unwrap();
    assert_eq!(m.to_binary(), "11111111111");
}

#[test]
fn set_slice_errors() {
    let mut m = Mutibs::from_zeros(4);
    let s = Tibs::from_ones(1);
    assert_eq!(m._set_slice(3, 2, &s), Err(BitsError::InvalidRange));
    assert_eq!(m._set_slice(5, 6, &s), Err(BitsError::InvalidRange));
    assert_eq!(m._set_slice(2, 5, &s), Err(BitsError::IndexOutOfRange));
    assert_eq!(m.to_binary(), "0000");
}

#[test]
fn conversions_do_not_alias() {
    let t = Tibs::from_binary("1010").unwrap();
    let mut m = t.to_mutable();
    m._set_index(false, 0).unwrap();
    assert_eq!(t.to_binary(), "1010");
    let frozen = m.to_immutable();
    m._set_index(true, 3).unwrap();
    assert_eq!(frozen.to_binary(), "0010");
    assert_eq!(m.to_binary(), "0011");
    let shared = t.share();
    assert!(same_bits(&shared, &t));
}

#[test]
fn equality_is_bitwise() {
    let a = Tibs::from_binary("1011").unwrap();
    let b = Tibs::from_hexadecimal("b").unwrap();
    let c = Tibs::from_binary("10110").unwrap();
    let d = Tibs::from_binary("1001").unwrap();
    assert!(same_bits(&a, &b));
    assert!(!same_bits(&a, &c));
    assert!(!same_bits(&a, &d));
}

#[test]
fn bool_iterator_yields_every_bit() {
    let t = Tibs::from_binary("10011").unwrap();
    let mut it = BoolIterator::new(&t);
    assert_eq!(bits_of(&mut it), vec![true, false, false, true, true]);
    assert_eq!(it.next(), None);
    it.restart();
    assert_eq!(bits_of(&mut it), vec![true, false, false, true, true]);
}

#[test]
fn chunks_of_ten_bits_by_four() {
    let t = Tibs::from_binary("1100101011").unwrap();
    let mut it = ChunksIterator::new(&t, 4).unwrap();
    let mut lens = Vec::new();
    let mut texts = Vec::new();
    while let Some(c) = it.next() {
        lens.push(c.length());
        texts.push(c.to_binary());
    }
    assert_eq!(lens, vec![4, 4, 2]);
    assert_eq!(texts, vec!["1100", "1010", "11"]);
}

#[test]
fn chunks_of_zero_width_fail() {
    let t = Tibs::from_zeros(3);
    assert!(matches!(ChunksIterator::new(&t, 0), Err(BitsError::InvalidChunkWidth)));
}

#[test]
fn find_all_overlapping() {
    let t = Tibs::from_binary("1011011").unwrap();
    let p = Tibs::from_binary("011").unwrap();
    let mut it = FindAllIterator::new(&t, &p);
    let mut found = Vec::new();
    while let Some(x) = it.next() {
        found.push(x);
    }
    assert_eq!(found, vec![1, 4]);
    let t2 = Tibs::from_binary("1111").unwrap();
    let p2 = Tibs::from_binary("11").unwrap();
    let mut it2 = FindAllIterator::new(&t2, &p2);
    let mut found2 = Vec::new();
    while let Some(x) = it2.next() {
        found2.push(x);
    }
    assert_eq!(found2, vec![0, 1, 2]);
}

#[test]
fn find_all_empty_pattern_finds_nothing() {
    let t = Tibs::from_binary("1011").unwrap();
    let p = Tibs::from_binary("").unwrap();
    let mut it = FindAllIterator::new(&t, &p);
    assert_eq!(it.next(), None);
}

#[test]
fn bit_count_checks_sign() {
    assert_eq!(bit_count(12), Ok(12));
    assert_eq!(bit_count(-1), Err(BitsError::InvalidLength));
}

#[test]
fn unaligned_bit_lengths_pack_correctly() {
    let mut m = Mutibs::from_zeros(13);
    m._set_index(true, 12).unwrap();
    m._set_index(true, 7).unwrap();
    m._set_index(true, 8).unwrap();
    assert_eq!(m.to_binary(), "0000000110001");
    m._set_slice(12, 13, &Tibs::from_zeros(0)).unwrap();
    assert_eq!(m.to_binary(), "000000011000");
    assert_eq!(m.to_hexadecimal().unwrap(), "018");
}

#[test]
fn from_bytes_packs_most_significant_first() {
    let t = Tibs::from_bytes(&[0xa5, 0x01]).unwrap();
    assert_eq!(t.length(), 16);
    assert_eq!(t.to_binary(), "1010010100000001");
    assert_eq!(t.to_hexadecimal().unwrap(), "a501");
    let e = Mutibs::from_bytes(&[]).unwrap();
    assert_eq!(e.length(), 0);
}
