use vstd::prelude::*;

use crate::drive::UPVDomain;

verus! {

/// The VPN subcommands and their arguments.
#[derive(Debug, Clone)]
pub enum VpnAction {
    /// Create a profile; connect right after when `connect` is set.
    Create { name: String, connect: bool },
    /// Open the dial dialog of a profile.
    Connect { name: String },
    /// Hang up the active connection.
    Disconnect,
    /// Delete a profile; `force` skips the confirmation.
    Delete { name: String, force: bool },
    /// List the tool's own profiles.
    List,
    /// Delete all the tool's own profiles but those in `except`; `force`
    /// skips both confirmations.
    Purge { force: bool, except: Vec<String> },
    /// Show the active connections.
    Status,
}

/// The network-drive subcommands and their arguments.
#[derive(Debug, Clone)]
pub enum DriveAction {
    /// Mount the personal share of `username` on `drive`, with explicit
    /// credentials when `password` is given; open it after when `open` is set.
    Mount { username: String, domain: UPVDomain, password: Option<String>, drive: char, open: bool },
    /// Unmount `drive`; `force` answers the in-use prompt.
    Unmount { drive: char, force: bool },
    /// Open `drive` in the file browser.
    Open { drive: char },
    /// Show the active mounts.
    Status,
}

} // verus!
