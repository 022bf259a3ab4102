use iroh_ssh::identity::{
    checked_provision, decode_secret, dot_ssh, secret_from_bytes, IdentityError, KeyFiles,
    KeyStore, Provision, StoredFile, PRIVATE_KEY_FILE, PUBLIC_KEY_FILE,
};

const SECRET: [u8; 32] = [
    0x9d, 0x61, 0xb1, 0x9d, 0xef, 0xfd, 0x5a, 0x60, 0xba, 0x84, 0x4a, 0xf4, 0x92, 0xec, 0x2c, 0xc4,
    0x44, 0x49, 0xc5, 0x69, 0x7b, 0x32, 0x69, 0x19, 0x70, 0x3b, 0xac, 0x03, 0x1c, 0xae, 0x7f, 0x60,
];

const PUBLIC: [u8; 32] = [
    0xd7, 0x5a, 0x98, 0x01, 0x82, 0xb1, 0x0a, 0xb7, 0xd5, 0x4b, 0xfe, 0xd3, 0xc9, 0x64, 0x07, 0x3a,
    0x0e, 0xe1, 0x72, 0xf3, 0xda, 0xa6, 0x23, 0x25, 0xaf, 0x02, 0x1a, 0x68, 0xf7, 0x07, 0x51, 0x1a,
];

const OTHER_SECRET: [u8; 32] = [7u8; 32];

const Z32_KEY: [u8; 32] = [
    241, 32, 213, 46, 66, 191, 206, 231, 80, 80, 139, 175, 40, 144, 10, 202, 200, 90, 211, 243, 151,
    171, 75, 182, 83, 179, 43, 229, 5, 195, 45, 57,
];

const Z32_TEXT: &str = "6ropkm1nz98qqwnotqz1tryk3mrfiw9u16iwzp1usci6kbqdfwho";

fn empty_dir() -> KeyStore {
    KeyStore::Found { public_file: StoredFile::Absent, private_file: StoredFile::Absent }
}

fn present(text: &str) -> StoredFile {
    StoredFile::Present(text.as_bytes().to_vec())
}

#[test]
fn key_file_names() {
    assert_eq!(PUBLIC_KEY_FILE, "irohssh_ed25519.pub");
    assert_eq!(PRIVATE_KEY_FILE, "irohssh_ed25519");
}

#[test]
fn empty_directory_without_persist_is_not_found() {
    assert_eq!(dot_ssh(&SECRET, false, &empty_dir()), Err(IdentityError::NotFound));
}

#[test]
fn missing_directory_without_persist_is_not_found() {
    assert_eq!(dot_ssh(&SECRET, false, &KeyStore::Missing), Err(IdentityError::NotFound));
}

#[test]
fn missing_directory_with_persist_creates_directory_and_both_files() {
    let provision = dot_ssh(&SECRET, true, &KeyStore::Missing).unwrap();
    assert_eq!(provision.secret_key, SECRET);
    assert_eq!(provision.secret_key.len(), 32);
    assert!(provision.create_dir);
    let files = provision.files.unwrap();
    assert_eq!(files.private_text, z32::encode(&SECRET).into_bytes());
    assert_eq!(files.public_text, z32::encode(&PUBLIC).into_bytes());
    assert_eq!(files.private_text.len(), 52);
    assert_eq!(files.public_text.len(), 52);
}

#[test]
fn empty_directory_with_persist_writes_without_creating_directory() {
    let provision = dot_ssh(&SECRET, true, &empty_dir()).unwrap();
    assert!(!provision.create_dir);
    assert!(provision.files.is_some());
    assert_eq!(provision.secret_key, SECRET);
}

#[test]
fn written_private_text_is_not_the_raw_key() {
    let provision = dot_ssh(&Z32_KEY, true, &empty_dir()).unwrap();
    let files = provision.files.unwrap();
    assert_eq!(files.private_text, Z32_TEXT.as_bytes().to_vec());
    assert_ne!(files.private_text, Z32_KEY.to_vec());
}

#[test]
fn stored_pair_is_loaded_and_never_overwritten() {
    let store = KeyStore::Found {
        public_file: present("anything"),
        private_file: present(Z32_TEXT),
    };
    for persist in [true, false] {
        let provision = dot_ssh(&OTHER_SECRET, persist, &store).unwrap();
        assert_eq!(
            provision,
            Provision { secret_key: Z32_KEY, create_dir: false, files: None }
        );
    }
}

#[test]
fn load_or_create_twice_returns_the_same_secret() {
    let first = dot_ssh(&SECRET, true, &KeyStore::Missing).unwrap();
    let store = KeyStore::Missing.after(&first);
    assert_eq!(
        store,
        KeyStore::Found {
            public_file: StoredFile::Present(z32::encode(&PUBLIC).into_bytes()),
            private_file: StoredFile::Present(z32::encode(&SECRET).into_bytes()),
        }
    );
    let second = dot_ssh(&OTHER_SECRET, true, &store).unwrap();
    assert_eq!(second.secret_key, first.secret_key);
    assert_eq!(second.secret_key, SECRET);
    assert!(!second.create_dir);
    assert_eq!(second.files, None);
    assert_eq!(store.after(&second), store);
    let third = dot_ssh(&OTHER_SECRET, false, &store).unwrap();
    assert_eq!(third.secret_key, SECRET);
}

#[test]
fn idempotent_for_many_keys() {
    let mut key = [0u8; 32];
    for round in 0..64u8 {
        for (i, byte) in key.iter_mut().enumerate() {
            *byte = round.wrapping_mul(37).wrapping_add((i as u8).wrapping_mul(11)) ^ 0x5a;
        }
        let first = dot_ssh(&key, true, &empty_dir()).unwrap();
        let store = empty_dir().after(&first);
        let second = dot_ssh(&OTHER_SECRET, true, &store).unwrap();
        assert_eq!(second.secret_key, key);
        assert_eq!(second.files, None);
    }
}

#[test]
fn only_private_file_is_corrupt() {
    let store = KeyStore::Found { public_file: StoredFile::Absent, private_file: present(Z32_TEXT) };
    assert_eq!(dot_ssh(&SECRET, true, &store), Err(IdentityError::CorruptKeyPair));
    assert_eq!(dot_ssh(&SECRET, false, &store), Err(IdentityError::CorruptKeyPair));
}

#[test]
fn only_public_file_is_corrupt() {
    let store = KeyStore::Found { public_file: present(Z32_TEXT), private_file: StoredFile::Absent };
    assert_eq!(dot_ssh(&SECRET, true, &store), Err(IdentityError::CorruptKeyPair));
    assert_eq!(dot_ssh(&SECRET, false, &store), Err(IdentityError::CorruptKeyPair));
}

#[test]
fn unreadable_private_file() {
    let store = KeyStore::Found {
        public_file: present(Z32_TEXT),
        private_file: StoredFile::Unreadable,
    };
    assert_eq!(dot_ssh(&SECRET, true, &store), Err(IdentityError::IoFailure));
    assert_eq!(dot_ssh(&SECRET, false, &store), Err(IdentityError::NotFound));
}

#[test]
fn unreadable_public_file_does_not_matter() {
    let store = KeyStore::Found {
        public_file: StoredFile::Unreadable,
        private_file: present(Z32_TEXT),
    };
    assert_eq!(dot_ssh(&SECRET, true, &store).unwrap().secret_key, Z32_KEY);
}

#[test]
fn private_text_with_invalid_character_is_corrupt() {
    let store = KeyStore::Found {
        public_file: present(Z32_TEXT),
        private_file: present("6ropkm1nz98qqwnotqz1tryk3mrfiw9u16iwzp1usci6kbqdfwhL"),
    };
    assert_eq!(dot_ssh(&SECRET, true, &store), Err(IdentityError::CorruptKeyPair));
}

#[test]
fn private_text_of_wrong_length_is_corrupt() {
    for text in ["", "yy", "qb1ze3m1", "6ropkm1nz98qqwnotqz1tryk3mrfiw9u16iwzp1usci6kbqdfwhoy"] {
        let store = KeyStore::Found { public_file: present("x"), private_file: present(text) };
        assert_eq!(dot_ssh(&SECRET, true, &store), Err(IdentityError::CorruptKeyPair));
    }
}

#[test]
fn decode_secret_reads_a_key_text() {
    assert_eq!(decode_secret(&Z32_TEXT.as_bytes().to_vec()), Some(Z32_KEY));
    assert_eq!(decode_secret(&z32::encode(&SECRET).into_bytes()), Some(SECRET));
    assert_eq!(decode_secret(&b"not a key".to_vec()), None);
    assert_eq!(decode_secret(&vec![b'y'; 4096]), None);
}

#[test]
fn after_creates_directory_only_when_told() {
    let nothing = Provision { secret_key: SECRET, create_dir: false, files: None };
    assert_eq!(KeyStore::Missing.after(&nothing), KeyStore::Missing);
    let mkdir = Provision { secret_key: SECRET, create_dir: true, files: None };
    assert_eq!(KeyStore::Missing.after(&mkdir), empty_dir());
    let write = Provision {
        secret_key: SECRET,
        create_dir: false,
        files: Some(KeyFiles { public_text: vec![1], private_text: vec![2] }),
    };
    assert_eq!(
        empty_dir().after(&write),
        KeyStore::Found {
            public_file: StoredFile::Present(vec![1]),
            private_file: StoredFile::Present(vec![2]),
        }
    );
}

#[test]
fn corrupt_store_fails_whatever_key_is_offered() {
    let store = KeyStore::Found { public_file: StoredFile::Absent, private_file: present(Z32_TEXT) };
    assert_eq!(dot_ssh(&SECRET, true, &store), Err(IdentityError::CorruptKeyPair));
    assert_eq!(dot_ssh(&OTHER_SECRET, true, &store), Err(IdentityError::CorruptKeyPair));
}

#[test]
fn stored_identity_is_found_without_persist() {
    let first = dot_ssh(&SECRET, true, &empty_dir()).unwrap();
    let store = empty_dir().after(&first);
    let second = dot_ssh(&OTHER_SECRET, false, &store).unwrap();
    assert_eq!(second, Provision { secret_key: SECRET, create_dir: false, files: None });
}

#[test]
fn secret_from_bytes_takes_exactly_a_key() {
    assert_eq!(secret_from_bytes(&SECRET.to_vec()), Some(SECRET));
    assert_eq!(secret_from_bytes(&SECRET[..31].to_vec()), None);
    assert_eq!(secret_from_bytes(&vec![0u8; 33]), None);
    assert_eq!(secret_from_bytes(&vec![]), None);
}

#[test]
fn provision_is_handed_out_only_if_the_text_reads_back() {
    let public_text = vec![1u8, 2];
    let private_text = vec![3u8, 4, 5];
    assert_eq!(
        checked_provision(&SECRET, true, public_text.clone(), private_text.clone(), Some(SECRET)),
        Ok(Provision {
            secret_key: SECRET,
            create_dir: true,
            files: Some(KeyFiles {
                public_text: public_text.clone(),
                private_text: private_text.clone()
            }),
        })
    );
    assert_eq!(
        checked_provision(&SECRET, false, public_text.clone(), private_text.clone(), None),
        Err(IdentityError::CorruptKeyPair)
    );
    let mut almost = SECRET;
    almost[31] ^= 1;
    assert_eq!(
        checked_provision(&SECRET, false, public_text, private_text, Some(almost)),
        Err(IdentityError::CorruptKeyPair)
    );
}
