//! Where the identity is stored, for each context the program runs in.

use vstd::prelude::*;
use crate::service::windows::WindowsService;
use crate::service::Platform;

verus! {

/// The name of the key directory below a home directory.
pub const SSH_DIR_NAME: &'static str = ".ssh";

/// The key directory of the administrator on Linux, under whom the service
/// runs there.
pub const LINUX_ROOT_SSH_DIR: &'static str = "/root/.ssh";

/// The directory that the identity is stored in.
#[derive(Debug, Clone, Copy, PartialEq, Eq, Structural)]
pub enum StorageDir {
    /// The key directory below the home directory of the user.
    UserHome,
    /// The key directory of the administrator on Linux.
    LinuxRoot,
    /// The key directory of the service account on Windows.
    WindowsServiceProfile,
}

impl StorageDir {
    /// The directory for a program on `platform` that runs as a service or
    /// not: a service has a directory of its own on Linux and on Windows,
    /// everything else uses the user's.
    pub open spec fn resolved(platform: Platform, service: bool) -> StorageDir {
        if service && platform is Linux {
            StorageDir::LinuxRoot
        } else if service && platform is Windows {
            StorageDir::WindowsServiceProfile
        } else {
            StorageDir::UserHome
        }
    }

    /// The path of the directory, where it does not depend on the user.
    pub open spec fn fixed(self) -> Option<Seq<char>> {
        match self {
            StorageDir::UserHome => None,
            StorageDir::LinuxRoot => Some(LINUX_ROOT_SSH_DIR@),
            StorageDir::WindowsServiceProfile => Some(WindowsService::SERVICE_SSH_DIR@),
        }
    }

    /// Resolves the storage directory for the context the program runs in.
    pub fn resolve(platform: Platform, service: bool) -> (dir: StorageDir)
        ensures
            dir == StorageDir::resolved(platform, service),
    {
        match platform {
            Platform::Linux => if service {
                StorageDir::LinuxRoot
            } else {
                StorageDir::UserHome
            },
            Platform::Windows => if service {
                StorageDir::WindowsServiceProfile
            } else {
                StorageDir::UserHome
            },
            Platform::Other => StorageDir::UserHome,
        }
    }

    /// The path of the directory, where it does not depend on the user. The
    /// user's directory is [`SSH_DIR_NAME`] below the home directory.
    pub fn fixed_path(&self) -> (path: Option<&'static str>)
        ensures
            match path {
                Some(path) => self.fixed() == Some(path@),
                None => self.fixed() is None,
            },
    {
        match self {
            StorageDir::UserHome => None,
            StorageDir::LinuxRoot => Some(LINUX_ROOT_SSH_DIR),
            StorageDir::WindowsServiceProfile => Some(WindowsService::SERVICE_SSH_DIR),
        }
    }

    /// Whether the directory is created before it is looked at: the service
    /// account on Windows has no key directory until the service makes one.
    pub fn create_first(&self) -> (create: bool)
        ensures
            create == (*self is WindowsServiceProfile),
    {
        matches!(self, StorageDir::WindowsServiceProfile)
    }
}

} // verus!
