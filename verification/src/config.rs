//! Where the daemon is expected, and the names of its operations.

use vstd::prelude::*;

verus! {

/// Default rclone daemon host.
pub const RCLONE_HOST: &'static str = "localhost";

/// Default rclone daemon port.
pub const RCLONE_PORT: u16 = 5572;

/// List all configured remotes.
pub const LIST_REMOTES: &'static str = "config/listremotes";

/// List files in a path.
pub const LIST_FILES: &'static str = "operations/list";

/// Create a remote.
pub const CREATE_REMOTE: &'static str = "config/create";

/// Update a remote.
pub const UPDATE_REMOTE: &'static str = "config/update";

/// Delete a remote.
pub const DELETE_REMOTE: &'static str = "config/delete";

} // verus!
