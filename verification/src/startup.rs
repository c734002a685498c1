//! What the server is started with: where it listens, and where the assets
//! lie.

use vstd::prelude::*;

verus! {

/// The TCP port the server listens on.
pub const PORT: u16 = 51420;

/// The address the server binds: every interface of the machine, at
/// [`PORT`]. The first part holds the four bytes of the IPv4 address.
pub fn listen_address() -> (address: ([u8; 4], u16))
    ensures
        address.0@ == seq![0u8, 0u8, 0u8, 0u8],
        address.1 == 51420,
{
    let host: [u8; 4] = [0, 0, 0, 0];
    assert(host@ =~= seq![0u8, 0u8, 0u8, 0u8]);
    (host, PORT)
}

/// The directory the assets are served from: the one named `assets` in the
/// directory the server was started in.
pub fn assets_root(working_dir: &str) -> (root: String)
    ensures
        root@ == working_dir@ + "/assets"@,
{
    let mut root = String::from_str(working_dir);
    root.append("/assets");
    root
}

} // verus!
