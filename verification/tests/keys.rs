use iroh_ssh::api::{proxy_plan, TargetError};
use iroh_ssh::identity::{dot_ssh, KeyStore};
use iroh_ssh::keys::{generate_secret, KEY_LENGTH, KEY_TEXT_LENGTH};
use iroh_ssh::text::hex_text;
use iroh_ssh::{Builder, ProxyArgs};

fn key_number(n: u8) -> [u8; 32] {
    let mut key = [0u8; 32];
    for (i, byte) in key.iter_mut().enumerate() {
        *byte = n.wrapping_mul(29).wrapping_add((i as u8).wrapping_mul(7)).rotate_left(3);
    }
    key
}

#[test]
fn key_lengths() {
    assert_eq!(KEY_LENGTH, 32);
    assert_eq!(KEY_TEXT_LENGTH, 52);
    assert_eq!(z32::encode(&[0u8; KEY_LENGTH]).len(), KEY_TEXT_LENGTH);
}

#[test]
fn generated_secrets_differ() {
    let a = generate_secret();
    let b = generate_secret();
    assert_ne!(a, b);
    assert_ne!(a, [0u8; 32]);
}

#[test]
fn endpoint_id_is_the_public_key_of_the_transport() {
    for n in 0..16u8 {
        let secret = key_number(n);
        let expected = iroh::SecretKey::from_bytes(&secret).public();
        let node = Builder::with_key(&secret).build();
        assert_eq!(&node.endpoint_id(), expected.as_bytes());
    }
}

#[test]
fn hex_text_is_what_the_transport_prints() {
    for n in 0..16u8 {
        let public = iroh::SecretKey::from_bytes(&key_number(n)).public();
        assert_eq!(hex_text(public.as_bytes()), public.to_string());
    }
}

#[test]
fn printed_endpoint_id_is_parsed_back() {
    for n in 0..16u8 {
        let public = iroh::SecretKey::from_bytes(&key_number(n)).public();
        let args = ProxyArgs { endpoint_id: hex_text(public.as_bytes()) };
        let plan = proxy_plan(&args, &key_number(200)).unwrap();
        assert_eq!(&plan.dial.peer, public.as_bytes());
    }
}

#[test]
fn endpoint_id_has_to_be_a_public_key() {
    let not_a_point = "02".repeat(32);
    let parsed = not_a_point.parse::<iroh::EndpointId>();
    let args = ProxyArgs { endpoint_id: not_a_point };
    let planned = proxy_plan(&args, &key_number(1));
    assert_eq!(planned.is_ok(), parsed.is_ok());
    if let Err(e) = planned {
        assert_eq!(e, TargetError::InvalidEndpointId);
    }
}

#[test]
fn stored_texts_are_what_the_encoding_gives() {
    for n in 0..16u8 {
        let secret = key_number(n);
        let public = iroh::SecretKey::from_bytes(&secret).public();
        let files = dot_ssh(&secret, true, &KeyStore::Missing).unwrap().files.unwrap();
        assert_eq!(files.private_text, z32::encode(&secret).into_bytes());
        assert_eq!(files.public_text, z32::encode(public.as_bytes()).into_bytes());
        assert_eq!(z32::decode(&files.private_text).unwrap(), secret.to_vec());
    }
}
