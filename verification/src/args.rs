//! The data that the command surface hands to the engine: the subcommands
//! and their arguments, and the parsing of partition descriptors. The
//! unverified shell derives its argument parser from a mirror of these types
//! and converts.

use vstd::prelude::*;
use vstd::string::*;
use crate::partition::{Partition, PartitionView, PartitionMode};
use crate::strutil::{split_char, spec_split};

verus! {

/// The whole invocation: one subcommand, and a verbosity level.
#[derive(Debug)]
pub struct Opt {
    pub command: Command,
    pub verbose: usize,
}

/// The subcommands the installer offers.
#[derive(Debug)]
pub enum Command {
    /// Partition the install destination.
    Partition(PartitionArgs),
    /// Install base packages, optionally with a different kernel.
    InstallBase(InstallBaseArgs),
    /// Prepare the distribution keyring.
    SetupKeyring,
    /// Generate the mount table of the staging root.
    GenFstab,
    /// Install the bootloader.
    Bootloader { subcommand: BootloaderSubcommand },
    /// Set the locale.
    Locale(LocaleArgs),
    /// Set up networking.
    Networking(NetworkingArgs),
    /// Set up a swapfile of the given size in megabytes.
    Swap { size: u64 },
    /// Copy the live system's configuration into the target.
    CopyLive,
    /// Install and configure the NVIDIA drivers.
    Nvidia,
    /// Run a whole installation from a configuration file.
    Config { config: String },
    /// Install a graphical desktop.
    Desktops { desktop: DesktopSetup },
    /// Configure users and passwords.
    Users { subcommand: UsersSubcommand },
    /// Install a user kit for a profile.
    UserKit { kit: UserKit },
    /// Install flatpak support.
    InstallFlatpak,
}

/// Arguments of the partitioning subcommand.
#[derive(Debug)]
pub struct PartitionArgs {
    /// Whether the destination is partitioned automatically or was
    /// partitioned by hand.
    pub mode: PartitionMode,
    /// The device to partition.
    pub device: String,
    /// Whether the destination is partitioned with EFI.
    pub efi: bool,
    /// The partition specs of a manual plan.
    pub partitions: Vec<Partition>,
}

/// Arguments of the base installation.
#[derive(Debug)]
pub struct InstallBaseArgs {
    pub kernel: String,
}

/// Which bootloader flavour to install, and where.
#[derive(Debug)]
pub enum BootloaderSubcommand {
    /// EFI, into the given EFI directory.
    GrubEfi { efidir: String },
    /// Legacy (BIOS), onto the given device.
    GrubLegacy { device: String },
}

/// Arguments of the locale subcommand.
#[derive(Debug)]
pub struct LocaleArgs {
    /// The keyboard layout.
    pub keyboard: String,
    /// The timezone.
    pub timezone: String,
    /// The locales to generate.
    pub locales: Vec<String>,
}

/// Arguments of the networking subcommand.
#[derive(Debug)]
pub struct NetworkingArgs {
    /// The hostname to assign.
    pub hostname: String,
    /// Whether the IPv6 loopback is enabled.
    pub ipv6: bool,
}

/// The graphical desktops the installer can set up.
#[derive(Debug, Clone, Copy, PartialEq, Eq, Structural)]
pub enum DesktopSetup {
    Kde,
    Calla,
    Sleex,
    Theom,
    /// No desktop: only the network manager is set up.
    NoDesktop,
}

/// Arguments for creating one user.
#[derive(Debug)]
pub struct NewUserArgs {
    /// The name of the user to create.
    pub username: String,
    /// Whether the user may administer the system.
    pub hasroot: bool,
    /// The (hashed) password.
    pub password: String,
    /// The login shell.
    pub shell: String,
}

/// The user-management subcommands.
#[derive(Debug)]
pub enum UsersSubcommand {
    /// Create a new user.
    NewUser(NewUserArgs),
    /// Set the root password (hashed).
    RootPass { password: String },
}

/// The user kits, one per profile.
#[derive(Debug, Clone, Copy, PartialEq, Eq, Structural)]
pub enum UserKit {
    Developer,
    Hacker,
    Artist,
    Office,
    Entertainment,
}

/// Parse a colon-separated partition descriptor
/// (`mountpoint:blockdevice:filesystem`); pieces beyond the third are
/// ignored. Fewer than three pieces are rejected.
pub fn parse_partitions(s: &str) -> (r: Result<Partition, &'static str>)
    ensures
        spec_split(s@, ':').len() >= 3 ==> (r matches Ok(p) && p@ == (PartitionView {
            mountpoint: spec_split(s@, ':')[0],
            blockdevice: spec_split(s@, ':')[1],
            filesystem: spec_split(s@, ':')[2],
        })),
        spec_split(s@, ':').len() < 3 ==> r is Err,
{
    let pieces = split_char(s, ':');
    if pieces.len() >= 3 {
        let p = Partition::new(pieces[0].clone(), pieces[1].clone(), pieces[2].clone());
        proof {
            assert(pieces[0int]@ == pieces.deep_view()[0]);
            assert(pieces[1int]@ == pieces.deep_view()[1]);
            assert(pieces[2int]@ == pieces.deep_view()[2]);
        }
        Ok(p)
    } else {
        Err("a partition descriptor takes the shape mountpoint:blockdevice:filesystem")
    }
}

} // verus!
