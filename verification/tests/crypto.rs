use futurist::crypto::{
    auth_payload_from_digest, build_auth_payload_v2, derive_k_v2, generate_pin,
    key_from_hash_v2, normalize_sold_on, pin_from_hash, pin_to_passkey, sha256_vin_date,
    wifi_password, wifi_password_from_hash, wifi_ssid, HASH_IDX_V2,
};
use futurist::protocol::SOLD_DATE_DEFAULT;
use sha2::{Digest, Sha256};

#[test]
fn pin_is_always_six_digits() {
    let pin = generate_pin("ANYTHING", SOLD_DATE_DEFAULT);
    assert_eq!(pin.len(), 6);
    assert!(pin.chars().all(|c| c.is_ascii_digit()));
}

#[test]
fn pin_is_deterministic() {
    let a = generate_pin("STARKTEST12345", SOLD_DATE_DEFAULT);
    let b = generate_pin("STARKTEST12345", SOLD_DATE_DEFAULT);
    assert_eq!(a, b);
}

#[test]
fn pin_depends_on_both_inputs() {
    let a = generate_pin("VINA", SOLD_DATE_DEFAULT);
    let b = generate_pin("VINB", SOLD_DATE_DEFAULT);
    assert_ne!(a, b, "different VINs must produce different PINs");

    let c = generate_pin("VINA", "20230101");
    assert_ne!(a, c, "different sold_on must produce different PINs");
}

#[test]
fn pin_to_passkey_parses_correctly() {
    assert_eq!(pin_to_passkey("001379"), 1379);
    assert_eq!(pin_to_passkey("000000"), 0);
    assert_eq!(pin_to_passkey("009999"), 9999);
}

#[test]
fn k_derivation_uses_in_range_indices() {
    for (i, &v) in HASH_IDX_V2.iter().enumerate() {
        let idx = v ^ (i as u8 + 0x11);
        assert!(idx < 32, "HASH_IDX_V2[{i}] -> idx {idx}");
    }
}

#[test]
fn k_derivation_is_deterministic() {
    let a = derive_k_v2("SOMEVIN", SOLD_DATE_DEFAULT);
    let b = derive_k_v2("SOMEVIN", SOLD_DATE_DEFAULT);
    assert_eq!(a, b);
}

#[test]
fn payload_shape_is_correct() {
    let nonce = [0xAAu8; 32];
    let payload = build_auth_payload_v2("VIN", SOLD_DATE_DEFAULT, &nonce);
    assert_eq!(payload.len(), 34);
    assert_eq!(&payload[..2], &[0x02, 0x01]);
}

#[test]
fn payload_depends_on_nonce() {
    let a = build_auth_payload_v2("VIN", SOLD_DATE_DEFAULT, &[0u8; 32]);
    let b = build_auth_payload_v2("VIN", SOLD_DATE_DEFAULT, &[1u8; 32]);
    assert_ne!(&a[2..], &b[2..], "digest must change with nonce");
}

#[test]
fn normalize_sold_on_handles_edge_cases() {
    assert_eq!(normalize_sold_on(""), SOLD_DATE_DEFAULT);
    assert_eq!(normalize_sold_on("abc"), SOLD_DATE_DEFAULT);
    assert_eq!(normalize_sold_on("1970"), SOLD_DATE_DEFAULT);
    assert_eq!(normalize_sold_on("19700101"), "19700101");
    assert_eq!(normalize_sold_on("2024-06-15"), "20240615");
    assert_eq!(normalize_sold_on("2024/06/15 12:00:00"), "20240615");
}

// ---------------------------------------------------------------------------
// Further cases
// ---------------------------------------------------------------------------

fn reference_hash(vin: &str, sold_on: &str) -> [u8; 32] {
    let mut hasher = Sha256::new();
    hasher.update(vin.as_bytes());
    hasher.update(b"-");
    hasher.update(sold_on.as_bytes());
    hasher.finalize().into()
}

#[test]
fn vin_date_hash_is_sha256_of_vin_dash_date() {
    let h = sha256_vin_date("UDUMX1AB2CD012345", "19700101");
    assert_eq!(h, reference_hash("UDUMX1AB2CD012345", "19700101"));
    // The hash changes with the input, so the wrapper does not echo anything fixed.
    assert_ne!(h, sha256_vin_date("UDUMX1AB2CD012345", "19700102"));
}

#[test]
fn pin_from_hash_exact_value() {
    // d1 from h[15], d2 from h[9], d3 from h[14], d4 from h[3].
    let mut h = [0u8; 32];
    h[15] = 0xB3; // (0 + 0xEF) % 10 = 239 % 10 = 9
    h[9] = 0x9E; // (0 + 0x64) % 10 = 100 % 10 = 0
    h[14] = 0x00; // (0xEC + 0xD1) % 10 = 445 % 10 = 5
    h[3] = 0x00; // (0xC5 + 0xE4) % 10 = 425 % 10 = 5
    assert_eq!(pin_from_hash(&h), "009055");
}

#[test]
fn pin_uses_32_bit_addition() {
    // (0xFF ^ 0xB3) = 0x4C = 76; 76 + 0xEF = 315 -> 5. With 8-bit wrapping
    // it would be 59 -> 9.
    let mut h = [0u8; 32];
    h[15] = 0xFF;
    h[9] = 0x9E;
    h[14] = 0xEC;
    h[3] = 0xC5;
    // d2 = 100 % 10 = 0, d3 = 0xD1 % 10 = 209 % 10 = 9, d4 = 0xE4 % 10 = 228 % 10 = 8
    assert_eq!(pin_from_hash(&h), "005098");
}

#[test]
fn generate_pin_matches_algorithm() {
    let h = reference_hash("UDUMX1AB2CD012345", "19700101");
    let d1 = ((h[15] ^ 0xB3) as u32 + 0xEF) % 10;
    let d2 = ((h[9] ^ 0x9E) as u32 + 0x64) % 10;
    let d3 = ((h[14] ^ 0xEC) as u32 + 0xD1) % 10;
    let d4 = ((h[3] ^ 0xC5) as u32 + 0xE4) % 10;
    let expected = format!("{:06}", d1 * 1000 + d2 * 100 + d3 * 10 + d4);
    assert_eq!(generate_pin("UDUMX1AB2CD012345", "19700101"), expected);
}

#[test]
fn pin_round_trips_through_passkey() {
    let pin = generate_pin("UDUMX1AB2CD012345", "19700101");
    let key = pin_to_passkey(&pin);
    assert!(key < 10000);
    assert_eq!(format!("{:06}", key), pin);
}

#[test]
fn pin_to_passkey_follows_u32_parsing() {
    assert_eq!(pin_to_passkey(""), 0);
    assert_eq!(pin_to_passkey("+"), 0);
    assert_eq!(pin_to_passkey("+42"), 42);
    assert_eq!(pin_to_passkey("-1"), 0);
    assert_eq!(pin_to_passkey(" 1"), 0);
    assert_eq!(pin_to_passkey("12a"), 0);
    assert_eq!(pin_to_passkey("4294967295"), 4294967295);
    assert_eq!(pin_to_passkey("4294967296"), 0);
    assert_eq!(pin_to_passkey("99999999999x"), 0);
}

#[test]
fn wifi_credentials() {
    assert_eq!(wifi_ssid("UDUMX1AB2CD012345"), "VARG-UDUMX1AB2CD012345");
    let h = reference_hash("UDUMX1AB2CD012345", "19700101");
    let hex: String = h.iter().map(|b| format!("{:02X}", b)).collect();
    assert_eq!(wifi_password("UDUMX1AB2CD012345", "19700101"), hex[..16]);
}

#[test]
fn wifi_password_from_hash_exact_value() {
    let mut h = [0u8; 32];
    for (i, b) in h.iter_mut().enumerate() {
        *b = (i as u8) * 0x11;
    }
    assert_eq!(wifi_password_from_hash(&h), "0011223344556677");
}

#[test]
fn key_derivation_exact_value() {
    let h = [0u8; 32];
    let k = key_from_hash_v2(&h);
    // With a zero hash, K[i] = mix_hi wrapping_add mix_lo.
    for i in 0..16usize {
        let mix: u32 = (i as u32 * 0x1111) ^ ([
            0xc356u32, 0x9b94, 0x0dbd, 0xc561, 0x3139, 0x300f, 0xee5a, 0xe883, 0x4638, 0x89ca,
            0x8b30, 0x593d, 0xe47d, 0x2ea2, 0x89bc, 0xaafe,
        ][i]) ^ 0xFFFF_A5A5;
        let hi = ((mix >> 8) & 0xff) as u8;
        let lo = (mix & 0xff) as u8;
        assert_eq!(k[i], hi.wrapping_add(lo));
    }
    // K[0]: mix = 0xc356 ^ 0xFFFFA5A5 = 0xFFFF66F3 -> 0x66 + 0xF3 = 0x59.
    assert_eq!(k[0], 0x59);
}

#[test]
fn auth_payload_frames_the_digest() {
    let mut d = [0u8; 32];
    for (i, b) in d.iter_mut().enumerate() {
        *b = i as u8;
    }
    let p = auth_payload_from_digest(&d);
    assert_eq!(&p[..2], &[0x02, 0x01]);
    assert_eq!(&p[2..], &d[..]);
}

#[test]
fn auth_payload_is_header_and_sha256() {
    let nonce = [0x5Au8; 32];
    let k = derive_k_v2("VIN", SOLD_DATE_DEFAULT);
    let mut hasher = Sha256::new();
    hasher.update(k);
    hasher.update([0x02u8, 0x01]);
    hasher.update(nonce);
    let digest = hasher.finalize();
    let payload = build_auth_payload_v2("VIN", SOLD_DATE_DEFAULT, &nonce);
    assert_eq!(&payload[2..], &digest[..]);
}

#[test]
fn normalizing_twice_is_normalizing_once() {
    for raw in ["2024-03-15", "20240315", "abc", "", "2024/03/15 10:20", "1234567", "x9y8z7w6v5u4t3s2"] {
        let once = normalize_sold_on(raw);
        assert_eq!(once.len(), 8);
        assert!(once.chars().all(|c| c.is_ascii_digit()));
        assert_eq!(normalize_sold_on(&once), once);
        assert_eq!(generate_pin("VIN", &once), generate_pin("VIN", &normalize_sold_on(&once)));
    }
}
