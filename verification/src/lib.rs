pub mod archive;
pub mod backuppackage;
pub mod bytes;
pub mod encoding;
pub mod error;
pub mod fsutil;
pub mod kinproject;
pub mod kinsettings;
pub mod masterkey;
pub mod passphrase;
pub mod seqs;
pub mod sodium;
pub mod streams;
pub mod templating;
pub mod wordlist;

pub use archive::{ArchiveEntry, KinZipWriter};
pub use backuppackage::{BackupPackage, EncryptedKey, PackageSettings};
pub use error::Error;
pub use fsutil::{empty_dir_action, DirAction};
pub use kinproject::KinProject;
pub use kinsettings::{KinRecipient, KinSettings};
pub use masterkey::{EncryptedMasterKey, MasterKey};
pub use templating::{PeerModel, ReadmeModel};
pub use passphrase::{PassphraseDerivedKey, PassphraseSalt};
pub use sodium::init;
pub use wordlist::{get_words, random_passphrase};
