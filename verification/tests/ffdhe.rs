use impit::ffdhe::ffdhe_start;
use impit::ffdhe::to_bytes_be_with_len;
use impit::tls::KxGroup;
use impit::tls::ffdhe_group_params;

#[test]
fn fixed_width_encoding_pads_on_the_left() {
    assert_eq!(to_bytes_be_with_len(&vec![1, 2], 4), vec![0, 0, 1, 2]);
    assert_eq!(to_bytes_be_with_len(&vec![], 3), vec![0, 0, 0]);
    assert_eq!(to_bytes_be_with_len(&vec![9], 1), vec![9]);
}

#[test]
fn fixed_width_encoding_keeps_low_bytes_when_longer() {
    assert_eq!(to_bytes_be_with_len(&vec![1, 2, 3], 2), vec![2, 3]);
    assert_eq!(to_bytes_be_with_len(&vec![7, 8], 0), Vec::<u8>::new());
}

#[test]
fn small_group_public_value() {
    // 5^6 mod 23 = 8
    let kx = ffdhe_start(&vec![23], &vec![5], vec![6]);
    assert_eq!(kx.pub_key(), &vec![8]);
}

#[test]
fn small_group_shared_secret() {
    // 8^6 mod 23 = 13
    let kx = ffdhe_start(&vec![23], &vec![5], vec![6]);
    assert_eq!(kx.complete(&vec![8]), vec![13]);
}

#[test]
fn both_sides_derive_the_same_secret() {
    let p = vec![23u8];
    let g = vec![5u8];
    let alice = ffdhe_start(&p, &g, vec![6]);
    let bob = ffdhe_start(&p, &g, vec![15]);
    let s1 = alice.complete(bob.pub_key());
    let s2 = bob.complete(alice.pub_key());
    assert_eq!(s1, s2);
}

#[test]
fn real_group_exchange_is_fixed_width() {
    let (p, g) = ffdhe_group_params(KxGroup::Ffdhe2048).expect("a finite-field group");
    let x: Vec<u8> = (1..=64u8).collect();
    let kx = ffdhe_start(&p, &g, x);
    assert_eq!(kx.pub_key().len(), 256);
    let peer: Vec<u8> = to_bytes_be_with_len(&vec![7], 256);
    assert_eq!(kx.complete(&peer).len(), 256);
}

#[test]
fn public_value_matches_independent_computation() {
    let (p, g) = ffdhe_group_params(KxGroup::Ffdhe2048).expect("a finite-field group");
    let x: Vec<u8> = (1..=64u8).collect();
    let kx = ffdhe_start(&p, &g, x.clone());
    let expected = num_bigint::BigUint::from_bytes_be(&g)
        .modpow(
            &num_bigint::BigUint::from_bytes_be(&x),
            &num_bigint::BigUint::from_bytes_be(&p),
        )
        .to_bytes_be();
    assert_eq!(kx.pub_key(), &to_bytes_be_with_len(&expected, 256));
}

#[test]
fn group_parameters_come_from_the_rfc_groups() {
    let (p2048, g2048) = ffdhe_group_params(KxGroup::Ffdhe2048).unwrap();
    assert_eq!(p2048.len(), 256);
    assert_eq!(p2048[0], 0xff);
    assert_eq!(g2048, vec![2]);
    assert_eq!(p2048, rustls::ffdhe_groups::FFDHE2048.p.to_vec());

    let (p3072, g3072) = ffdhe_group_params(KxGroup::Ffdhe3072).unwrap();
    assert_eq!(p3072.len(), 384);
    assert_eq!(g3072, vec![2]);
    assert_eq!(p3072, rustls::ffdhe_groups::FFDHE3072.p.to_vec());

    assert!(ffdhe_group_params(KxGroup::X25519).is_none());
    assert!(ffdhe_group_params(KxGroup::Secp256r1).is_none());
    assert!(ffdhe_group_params(KxGroup::Secp384r1).is_none());
}
