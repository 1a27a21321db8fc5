use ncm_unbox::cipher::{music_data, CR4};

fn keyed(key: &[u8]) -> CR4 {
    let mut cipher = CR4::new();
    cipher.ksa(key.to_vec());
    cipher
}

fn reference_table(key: &[u8]) -> Vec<usize> {
    let mut table: Vec<usize> = (0..256).collect();
    let mut j = 0usize;
    for i in 0..256 {
        j = (j + table[i] + key[i % key.len()] as usize) % 256;
        table.swap(i, j);
    }
    table
}

fn reference_stream(table: &[usize], k: usize) -> u8 {
    let i = (k + 1) % 256;
    let j = (table[i] + i) % 256;
    table[(table[i] + table[j]) % 256] as u8
}

#[test]
fn new_table_is_zero() {
    let cipher = CR4::new();
    assert_eq!(cipher.trunk(), [0usize; 256]);
}

#[test]
fn key_schedule_known_table() {
    let cipher = keyed(b"Key");
    let table = cipher.trunk();
    assert_eq!(
        &table[..16],
        &[75, 51, 132, 157, 192, 200, 29, 168, 74, 243, 131, 228, 18, 112, 130, 144]
    );
    assert_eq!(table[255], 147);
    let other = keyed(&[1, 2, 3, 4, 5]);
    assert_eq!(&other.trunk()[..8], &[1, 3, 8, 201, 21, 27, 35, 67]);
}

#[test]
fn key_schedule_matches_reference_for_long_key() {
    let key: Vec<u8> = (0..300u32).map(|i| (i * 7 + 3) as u8).collect();
    let cipher = keyed(&key);
    assert_eq!(cipher.trunk().to_vec(), reference_table(&key));
}

#[test]
fn key_schedule_is_deterministic() {
    let first = keyed(b"session key");
    let second = keyed(b"session key");
    assert_eq!(first.trunk(), second.trunk());
}

#[test]
fn key_schedule_forgets_earlier_key() {
    let mut cipher = keyed(b"first");
    cipher.ksa(b"second".to_vec());
    assert_eq!(cipher.trunk(), keyed(b"second").trunk());
    assert_ne!(cipher.trunk(), keyed(b"first").trunk());
}

#[test]
fn key_schedule_gives_permutation() {
    let table = keyed(b"any key at all").trunk();
    let mut seen = [false; 256];
    for entry in table.iter() {
        assert!(*entry < 256);
        assert!(!seen[*entry]);
        seen[*entry] = true;
    }
}

#[test]
fn keystream_known_bytes() {
    let cipher = keyed(b"Key");
    let mut data = [0u8; 0x8000];
    cipher.prga(&mut data, 0x8000);
    assert_eq!(&data[..8], &[155, 147, 238, 221, 129, 63, 123, 159]);
    assert_eq!(data[255], 9);
    assert_eq!(data[256], 155);
    let other = keyed(&[1, 2, 3, 4, 5]);
    let mut data = [0u8; 0x8000];
    other.prga(&mut data, 4);
    assert_eq!(&data[..5], &[39, 121, 221, 80, 0]);
}

#[test]
fn keystream_has_period_256() {
    let cipher = keyed(b"periodic");
    let mut data = [0u8; 0x8000];
    cipher.prga(&mut data, 0x8000);
    for k in 0..(0x8000 - 256) {
        assert_eq!(data[k], data[k + 256]);
    }
}

#[test]
fn keystream_leaves_table_alone() {
    let cipher = keyed(b"fixed");
    let before = cipher.trunk();
    let mut data = [7u8; 0x8000];
    cipher.prga(&mut data, 1000);
    assert_eq!(cipher.trunk(), before);
    let mut again = [7u8; 0x8000];
    cipher.prga(&mut again, 1000);
    assert_eq!(data.to_vec(), again.to_vec());
}

#[test]
fn prga_touches_only_len_bytes() {
    let cipher = keyed(b"Key");
    let mut data = [0x55u8; 0x8000];
    cipher.prga(&mut data, 3);
    assert_eq!(&data[..5], &[0x55 ^ 155, 0x55 ^ 147, 0x55 ^ 238, 0x55, 0x55]);
    let mut untouched = [0x55u8; 0x8000];
    cipher.prga(&mut untouched, 0);
    assert_eq!(untouched.to_vec(), vec![0x55u8; 0x8000]);
}

#[test]
fn prga_round_trip() {
    let cipher = keyed(b"round trip");
    let mut data = [0u8; 0x8000];
    for (k, byte) in data.iter_mut().enumerate() {
        *byte = (k * 31 + 5) as u8;
    }
    let plain = data.to_vec();
    cipher.prga(&mut data, 0x8000);
    assert_ne!(data.to_vec(), plain);
    cipher.prga(&mut data, 0x8000);
    assert_eq!(data.to_vec(), plain);
}

#[test]
fn music_data_empty_payload() {
    assert_eq!(music_data(&[], b"Key".to_vec()), Vec::<u8>::new());
}

#[test]
fn music_data_known_bytes() {
    let out = music_data(&[0, 0, 0, 0xff], b"Key".to_vec());
    assert_eq!(out, vec![155, 147, 238, 0xff ^ 221]);
}

#[test]
fn music_data_restarts_at_every_chunk() {
    let input = vec![0u8; 2 * 0x8000 + 100];
    let out = music_data(&input, b"chunky".to_vec());
    assert_eq!(out.len(), input.len());
    let table = reference_table(b"chunky");
    for p in 0..out.len() {
        assert_eq!(out[p], reference_stream(&table, p % 0x8000));
    }
    for k in 0..100 {
        assert_eq!(out[k], out[0x8000 + k]);
        assert_eq!(out[k], out[2 * 0x8000 + k]);
    }
}

#[test]
fn music_data_round_trip() {
    let plain: Vec<u8> = (0..70000u32).map(|i| (i % 251) as u8).collect();
    let stored = music_data(&plain, b"K".to_vec());
    assert_ne!(stored, plain);
    assert_eq!(music_data(&stored, b"K".to_vec()), plain);
}
