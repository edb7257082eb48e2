use xortun::codec::xor;

#[test]
fn involution_restores_data() {
    let data: Vec<u8> = vec![0x00, 0x01, 0x7f, 0x80, 0xff, 0x45, 0x00, 0x28];
    let key: &[u8] = b"secret";
    let once = xor(data.clone(), key);
    let twice = xor(once, key);
    assert_eq!(twice, data);
}

#[test]
fn involution_one_byte() {
    let data: Vec<u8> = vec![0xab];
    let key: &[u8] = b"k";
    assert_eq!(xor(xor(data.clone(), key), key), data);
}

#[test]
fn involution_mtu_sized() {
    let mut data: Vec<u8> = Vec::with_capacity(4096);
    for i in 0..4096usize {
        data.push((i % 251) as u8);
    }
    let key: &[u8] = b"a longer key, 29 bytes in all";
    assert_eq!(xor(xor(data.clone(), key), key), data);
}

#[test]
fn length_preserved() {
    let key: &[u8] = b"xyz";
    for n in [0usize, 1, 2, 3, 4, 100, 4096] {
        let data: Vec<u8> = vec![0x5a; n];
        assert_eq!(xor(data, key).len(), n);
    }
}

#[test]
fn key_cycling_three_byte_key() {
    // key "abc" against a 10-byte input, checked against a hand-computed
    // expected output: byte i is data[i] ^ key[i % 3].
    let data: Vec<u8> = b"0123456789".to_vec();
    let key: &[u8] = b"abc";
    let expected: Vec<u8> = vec![0x51, 0x53, 0x51, 0x52, 0x56, 0x56, 0x57, 0x55, 0x5b, 0x58];
    assert_eq!(xor(data, key), expected);
}

#[test]
fn single_byte_exact() {
    assert_eq!(xor(vec![0x00], &[0xff]), vec![0xff]);
    assert_eq!(xor(vec![0xff], &[0xff]), vec![0x00]);
    assert_eq!(xor(vec![0x42], &[0x00]), vec![0x42]);
}

#[test]
fn data_xored_with_itself_is_zero() {
    let data: Vec<u8> = b"hello".to_vec();
    assert_eq!(xor(data.clone(), &data), vec![0u8; 5]);
}
