use tunnel_client::protocol::{
    service_digest, session_key, Auth, Hello, CURRENT_PROTO_VERSION, HASH_WIDTH_IN_BYTES,
};

fn counting() -> [u8; 32] {
    let mut d = [0u8; 32];
    for i in 0..32 {
        d[i] = i as u8;
    }
    d
}

#[test]
fn digest_of_a_service_name() {
    assert_eq!(
        hex::encode(service_digest("abc")),
        "ba7816bf8f01cfea414140de5dae2223b00361a396177a9cb410ff61f20015ad"
    );
    assert_eq!(
        hex::encode(service_digest("ssh")),
        "7f5a55cf3f88be936fb9440249cb449f3067ccee4b525d0027dc9278a29c32c1"
    );
    assert_eq!(
        hex::encode(service_digest("")),
        "e3b0c44298fc1c149afbf4c8996fb92427ae41e4649b934ca495991b7852b855"
    );
}

#[test]
fn session_key_hashes_token_then_nonce() {
    assert_eq!(
        hex::encode(session_key("secret", &counting())),
        "ec4896ad884da7eb9ee3535f3cf6aabee49e926c581ee98f1afe14e711bf1fbf"
    );
    assert_eq!(
        hex::encode(session_key("\u{e9}", &[0u8; 32])),
        "977b73774864f6096cb04b7e3b236985140e07b81b28d81c2d79727718cac320"
    );
}

#[test]
fn session_key_with_an_empty_token() {
    let nonce = counting();
    assert_eq!(session_key("", &nonce), {
        let d: [u8; 32] = <sha2::Sha256 as sha2::Digest>::digest(nonce).into();
        d
    });
}

#[test]
fn hello_frames() {
    let control = Hello::ControlChannelHello(CURRENT_PROTO_VERSION, counting()).encode();
    assert_eq!(control.len(), 5 + HASH_WIDTH_IN_BYTES);
    assert_eq!(&control[..7], &[0, 0, 0, 0, 1, 0, 1]);
    assert_eq!(control[36], 31);
    let data = Hello::DataChannelHello(9, counting()).encode();
    assert_eq!(&data[..7], &[1, 0, 0, 0, 9, 0, 1]);
    assert_eq!(&data[5..], &counting()[..]);
}

#[test]
fn hello_frames_are_what_bincode_reads() {
    let frame = Hello::DataChannelHello(3, counting()).encode();
    let (tag, version, digest): (u32, u8, [u8; 32]) = bincode::deserialize(&frame).unwrap();
    assert_eq!((tag, version, digest), (1, 3, counting()));
}

#[test]
fn hello_frames_differ_by_kind_version_and_digest() {
    let a = Hello::ControlChannelHello(1, [7; 32]).encode();
    assert_ne!(a, Hello::DataChannelHello(1, [7; 32]).encode());
    assert_ne!(a, Hello::ControlChannelHello(2, [7; 32]).encode());
    assert_ne!(a, Hello::ControlChannelHello(1, [8; 32]).encode());
    assert_eq!(a, Hello::ControlChannelHello(1, [7; 32]).encode());
}

#[test]
fn auth_frame_is_the_key() {
    assert_eq!(Auth(counting()).encode(), counting().to_vec());
}
