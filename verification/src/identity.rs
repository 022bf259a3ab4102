//! The long-term identity of a node: loading it from a storage directory,
//! or creating it there.
//!
//! The library never touches the file system. The caller looks at the
//! directory, hands over what it found as a [`KeyStore`], and carries out the
//! [`Provision`] that comes back.

use vstd::prelude::*;
use crate::keys::{
    derive_public, public_key_of, z32_bytes, z32_decode, z32_encode, z32_text, KEY_LENGTH,
    KEY_TEXT_LENGTH,
};

verus! {

/// Name of the file that holds the public key.
pub const PUBLIC_KEY_FILE: &'static str = "irohssh_ed25519.pub";

/// Name of the file that holds the secret key.
pub const PRIVATE_KEY_FILE: &'static str = "irohssh_ed25519";

/// Why no identity could be had from the storage directory.
#[derive(Debug, Clone, Copy, PartialEq, Eq, Structural)]
pub enum IdentityError {
    /// Nothing is stored, and nothing may be created.
    NotFound,
    /// The stored secret key could not be read.
    IoFailure,
    /// Only one of the two files exists, or the text of the secret key file
    /// is not read as a key; for a new identity, the text that would be
    /// written is not read back as the key.
    CorruptKeyPair,
}

/// What stands at the path of one key file.
#[derive(Debug, Clone, PartialEq, Eq)]
pub enum StoredFile {
    /// No file.
    Absent,
    /// A file whose content could not be read.
    Unreadable,
    /// A file with this content.
    Present(Vec<u8>),
}

/// The storage directory, as the caller found it.
#[derive(Debug, Clone, PartialEq, Eq)]
pub enum KeyStore {
    /// The directory does not exist.
    Missing,
    /// The directory exists, with these two key files.
    Found { public_file: StoredFile, private_file: StoredFile },
}

/// The texts of one key pair. Both files are always written together.
#[derive(Debug, Clone, PartialEq, Eq)]
pub struct KeyFiles {
    pub public_text: Vec<u8>,
    pub private_text: Vec<u8>,
}

/// The identity to run under, and what the caller has to write for it.
#[derive(Debug, Clone, PartialEq, Eq)]
pub struct Provision {
    /// The secret key of the identity.
    pub secret_key: [u8; 32],
    /// Whether the storage directory has to be created first.
    pub create_dir: bool,
    /// The two files to write, if the identity is new.
    pub files: Option<KeyFiles>,
}

/// Mathematical value of a [`StoredFile`].
pub enum FileModel {
    Absent,
    Unreadable,
    Present(Seq<u8>),
}

/// Mathematical value of a [`KeyStore`].
pub enum StoreModel {
    Missing,
    Found { public_file: FileModel, private_file: FileModel },
}

/// Mathematical value of a [`KeyFiles`].
pub struct KeyTexts {
    pub public_text: Seq<u8>,
    pub private_text: Seq<u8>,
}

/// Mathematical value of a [`Provision`].
pub struct ProvisionModel {
    pub secret_key: Seq<u8>,
    pub create_dir: bool,
    pub files: Option<KeyTexts>,
}

impl View for StoredFile {
    type V = FileModel;

    open spec fn view(&self) -> FileModel {
        match self {
            StoredFile::Absent => FileModel::Absent,
            StoredFile::Unreadable => FileModel::Unreadable,
            StoredFile::Present(bytes) => FileModel::Present(bytes@),
        }
    }
}

impl View for KeyStore {
    type V = StoreModel;

    open spec fn view(&self) -> StoreModel {
        match self {
            KeyStore::Missing => StoreModel::Missing,
            KeyStore::Found { public_file, private_file } => StoreModel::Found {
                public_file: public_file@,
                private_file: private_file@,
            },
        }
    }
}

impl View for KeyFiles {
    type V = KeyTexts;

    open spec fn view(&self) -> KeyTexts {
        KeyTexts { public_text: self.public_text@, private_text: self.private_text@ }
    }
}

impl View for Provision {
    type V = ProvisionModel;

    open spec fn view(&self) -> ProvisionModel {
        ProvisionModel {
            secret_key: self.secret_key@,
            create_dir: self.create_dir,
            files: match self.files {
                Some(files) => Some(files@),
                None => None,
            },
        }
    }
}

/// The secret key that a private key file with content `text` stores: the
/// bytes that the text decodes to, if they are a key.
pub open spec fn stored_secret(text: Seq<u8>) -> Option<Seq<u8>> {
    if text.len() <= KEY_TEXT_LENGTH {
        match z32_bytes(text) {
            Some(bytes) => if bytes.len() == KEY_LENGTH {
                Some(bytes)
            } else {
                None
            },
            None => None,
        }
    } else {
        None
    }
}

/// The provision for an identity that was found in the store.
pub open spec fn loaded(secret_key: Seq<u8>) -> ProvisionModel {
    ProvisionModel { secret_key, create_dir: false, files: None }
}

/// The provision for a new identity with secret key `secret_key`: both
/// texts are written. A key whose text would not be read back as the same
/// key is not stored at all.
pub open spec fn created(secret_key: Seq<u8>, create_dir: bool) -> Result<
    ProvisionModel,
    IdentityError,
> {
    if stored_secret(z32_text(secret_key)) == Some(secret_key) {
        Ok(
            ProvisionModel {
                secret_key,
                create_dir,
                files: Some(
                    KeyTexts {
                        public_text: z32_text(public_key_of(secret_key)),
                        private_text: z32_text(secret_key),
                    },
                ),
            },
        )
    } else {
        Err(IdentityError::CorruptKeyPair)
    }
}

/// What loading or creating the identity comes to, for each state of the
/// store.
///
/// A stored pair is loaded and never overwritten. Where nothing is stored,
/// `default_key` becomes the identity if `persist` allows writing it. One
/// file without the other is a corrupt pair.
pub open spec fn load_or_create(default_key: Seq<u8>, persist: bool, store: StoreModel) -> Result<
    ProvisionModel,
    IdentityError,
> {
    match store {
        StoreModel::Missing => if persist {
            created(default_key, true)
        } else {
            Err(IdentityError::NotFound)
        },
        StoreModel::Found { public_file, private_file } => {
            if public_file is Absent && private_file is Absent {
                if persist {
                    created(default_key, false)
                } else {
                    Err(IdentityError::NotFound)
                }
            } else if public_file is Absent || private_file is Absent {
                Err(IdentityError::CorruptKeyPair)
            } else {
                match private_file {
                    FileModel::Present(text) => match stored_secret(text) {
                        Some(secret_key) => Ok(loaded(secret_key)),
                        None => Err(IdentityError::CorruptKeyPair),
                    },
                    _ => if persist {
                        Err(IdentityError::IoFailure)
                    } else {
                        Err(IdentityError::NotFound)
                    },
                }
            }
        },
    }
}

/// The store after the caller has carried out `provision` on `store`.
pub open spec fn store_after(store: StoreModel, provision: ProvisionModel) -> StoreModel {
    match provision.files {
        Some(texts) => StoreModel::Found {
            public_file: FileModel::Present(texts.public_text),
            private_file: FileModel::Present(texts.private_text),
        },
        None => match store {
            StoreModel::Missing => if provision.create_dir {
                StoreModel::Found {
                    public_file: FileModel::Absent,
                    private_file: FileModel::Absent,
                }
            } else {
                StoreModel::Missing
            },
            found => found,
        },
    }
}

/// The value of an outcome of [`dot_ssh`].
pub open spec fn outcome_model(outcome: Result<Provision, IdentityError>) -> Result<
    ProvisionModel,
    IdentityError,
> {
    match outcome {
        Ok(provision) => Ok(provision@),
        Err(e) => Err(e),
    }
}

/// The key that `bytes` are, if they are as many as a key has.
pub fn secret_from_bytes(bytes: &Vec<u8>) -> (secret_key: Option<[u8; 32]>)
    ensures
        match secret_key {
            Some(key) => bytes@.len() == KEY_LENGTH && key@ == bytes@,
            None => bytes@.len() != KEY_LENGTH,
        },
{
    if bytes.len() != KEY_LENGTH {
        return None;
    }
    let mut key = [0u8; 32];
    let mut i: usize = 0;
    while i < KEY_LENGTH
        invariant
            i <= KEY_LENGTH,
            bytes@.len() == KEY_LENGTH,
            forall|j: int| 0 <= j < i ==> key@[j] == bytes@[j],
        decreases KEY_LENGTH - i,
    {
        key[i] = bytes[i];
        i += 1;
    }
    assert(key@ =~= bytes@);
    Some(key)
}

/// Reads the secret key out of the content of a private key file.
pub fn decode_secret(text: &Vec<u8>) -> (secret_key: Option<[u8; 32]>)
    ensures
        match secret_key {
            Some(key) => stored_secret(text@) == Some(key@),
            None => stored_secret(text@) is None,
        },
{
    if text.len() > KEY_TEXT_LENGTH {
        return None;
    }
    match z32_decode(text.as_slice()) {
        Ok(bytes) => secret_from_bytes(&bytes),
        Err(_) => None,
    }
}

/// Loads the identity from `store`, or makes `default_secret_key` the
/// identity where none is stored and `persist` allows writing it.
///
/// The result says which key to run under and what the caller has to
/// write. The text of a new key is read back before it is handed out, so
/// that what is written is read as the same key by the next call.
pub fn dot_ssh(default_secret_key: &[u8; 32], persist: bool, store: &KeyStore) -> (outcome: Result<
    Provision,
    IdentityError,
>)
    ensures
        outcome_model(outcome) == load_or_create(default_secret_key@, persist, store@),
{
    match store {
        KeyStore::Missing => {
            if persist {
                create_identity(default_secret_key, true)
            } else {
                Err(IdentityError::NotFound)
            }
        },
        KeyStore::Found { public_file, private_file } => {
            let public_absent = matches!(public_file, StoredFile::Absent);
            let private_absent = matches!(private_file, StoredFile::Absent);
            if public_absent && private_absent {
                if persist {
                    create_identity(default_secret_key, false)
                } else {
                    Err(IdentityError::NotFound)
                }
            } else if public_absent || private_absent {
                Err(IdentityError::CorruptKeyPair)
            } else {
                match private_file {
                    StoredFile::Present(text) => match decode_secret(text) {
                        Some(secret_key) => Ok(
                            Provision { secret_key, create_dir: false, files: None },
                        ),
                        None => Err(IdentityError::CorruptKeyPair),
                    },
                    _ => {
                        if persist {
                            Err(IdentityError::IoFailure)
                        } else {
                            Err(IdentityError::NotFound)
                        }
                    },
                }
            }
        },
    }
}

fn same_key(a: &[u8; 32], b: &[u8; 32]) -> (same: bool)
    ensures
        same == (a@ == b@),
{
    let mut i: usize = 0;
    while i < KEY_LENGTH
        invariant
            i <= KEY_LENGTH,
            forall|j: int| 0 <= j < i ==> a@[j] == b@[j],
        decreases KEY_LENGTH - i,
    {
        if a[i] != b[i] {
            return false;
        }
        i += 1;
    }
    assert(a@ =~= b@);
    true
}

/// The provision that writes the two texts for a new identity with secret
/// key `secret_key`, given the key that `private_text` was read back as. A
/// text that was not read back as the same key is not handed out.
pub fn checked_provision(
    secret_key: &[u8; 32],
    create_dir: bool,
    public_text: Vec<u8>,
    private_text: Vec<u8>,
    read_back: Option<[u8; 32]>,
) -> (outcome: Result<Provision, IdentityError>)
    ensures
        match read_back {
            Some(key) if key@ == secret_key@ => outcome_model(outcome) == Ok::<
                ProvisionModel,
                IdentityError,
            >(
                ProvisionModel {
                    secret_key: secret_key@,
                    create_dir,
                    files: Some(
                        KeyTexts { public_text: public_text@, private_text: private_text@ },
                    ),
                },
            ),
            _ => outcome == Err::<Provision, IdentityError>(IdentityError::CorruptKeyPair),
        },
{
    let reads_back = match read_back {
        Some(key) => same_key(&key, secret_key),
        None => false,
    };
    if !reads_back {
        return Err(IdentityError::CorruptKeyPair);
    }
    Ok(
        Provision {
            secret_key: *secret_key,
            create_dir,
            files: Some(KeyFiles { public_text, private_text }),
        },
    )
}

/// The provision that writes `secret_key` and its public key, if the text
/// of the secret key is read back as that key.
fn create_identity(secret_key: &[u8; 32], create_dir: bool) -> (outcome: Result<
    Provision,
    IdentityError,
>)
    ensures
        outcome_model(outcome) == created(secret_key@, create_dir),
{
    let private_text = z32_encode(secret_key);
    let read_back = decode_secret(&private_text);
    let public_key = derive_public(secret_key);
    let public_text = z32_encode(&public_key);
    checked_provision(secret_key, create_dir, public_text, private_text, read_back)
}

impl KeyStore {
    /// The store as it is once `provision` has been carried out on it.
    pub fn after(&self, provision: &Provision) -> (next: KeyStore)
        ensures
            next@ == store_after(self@, provision@),
    {
        match &provision.files {
            Some(files) => KeyStore::Found {
                public_file: StoredFile::Present(files.public_text.clone()),
                private_file: StoredFile::Present(files.private_text.clone()),
            },
            None => match self {
                KeyStore::Missing => {
                    if provision.create_dir {
                        KeyStore::Found {
                            public_file: StoredFile::Absent,
                            private_file: StoredFile::Absent,
                        }
                    } else {
                        KeyStore::Missing
                    }
                },
                KeyStore::Found { public_file, private_file } => KeyStore::Found {
                    public_file: public_file.clone_file(),
                    private_file: private_file.clone_file(),
                },
            },
        }
    }
}

impl StoredFile {
    /// A copy with the same content.
    pub fn clone_file(&self) -> (copy: StoredFile)
        ensures
            copy@ == self@,
    {
        match self {
            StoredFile::Absent => StoredFile::Absent,
            StoredFile::Unreadable => StoredFile::Unreadable,
            StoredFile::Present(bytes) => StoredFile::Present(bytes.clone()),
        }
    }
}

/// Loading is idempotent: once a call that may write has succeeded and its
/// provision has been carried out, the next call on the directory returns the
/// same secret key and writes nothing, whatever default key it is offered.
pub proof fn lemma_load_or_create_idempotent(
    default_key: Seq<u8>,
    next_default: Seq<u8>,
    store: StoreModel,
    provision: ProvisionModel,
)
    requires
        load_or_create(default_key, true, store) == Ok::<ProvisionModel, IdentityError>(provision),
    ensures
        load_or_create(next_default, true, store_after(store, provision)) == Ok::<
            ProvisionModel,
            IdentityError,
        >(loaded(provision.secret_key)),
        store_after(store_after(store, provision), loaded(provision.secret_key)) == store_after(
            store,
            provision,
        ),
{
}

/// What a call has stored is found by a call that may not write, too.
pub proof fn lemma_stored_identity_is_found(
    default_key: Seq<u8>,
    next_default: Seq<u8>,
    persist: bool,
    store: StoreModel,
    provision: ProvisionModel,
)
    requires
        load_or_create(default_key, persist, store) == Ok::<ProvisionModel, IdentityError>(
            provision,
        ),
    ensures
        load_or_create(next_default, false, store_after(store, provision)) == Ok::<
            ProvisionModel,
            IdentityError,
        >(loaded(provision.secret_key)),
{
}

/// Nothing is ever overwritten: a provision has files to write only where
/// the store held neither of them.
pub proof fn lemma_stored_pair_is_never_overwritten(
    default_key: Seq<u8>,
    persist: bool,
    store: StoreModel,
    provision: ProvisionModel,
)
    requires
        load_or_create(default_key, persist, store) == Ok::<ProvisionModel, IdentityError>(
            provision,
        ),
        provision.files is Some,
    ensures
        persist,
        provision.secret_key == default_key,
        store matches StoreModel::Found { public_file, private_file } ==> public_file is Absent
            && private_file is Absent,
        provision.create_dir == (store is Missing),
{
}

} // verus!
