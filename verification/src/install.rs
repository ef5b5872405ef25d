//! The installer's plan: what file an installation must leave behind. The
//! surrounding layer downloads the payload and performs the write and the
//! permission change; this module fixes, and proves properties of, the
//! exact file state those effects must produce — the full payload as the
//! file's bytes, and permission bits granting the owner read, write and
//! execute, with read and execute for the other classes.

use vstd::prelude::*;

verus! {

/// The permission bits an installed binary bears: owner read/write/execute,
/// group and others read/execute.
pub const INSTALL_MODE: u32 = 0o755;

/// The file an installation leaves at the target path: its full byte
/// content and its permission bits.
#[derive(Debug, PartialEq)]
pub struct FileState {
    pub bytes: Vec<u8>,
    pub mode: u32,
}

/// Mathematical model of a [`FileState`].
pub struct SpecFileState {
    pub bytes: Seq<u8>,
    pub mode: u32,
}

impl View for FileState {
    type V = SpecFileState;

    open spec fn view(&self) -> SpecFileState {
        SpecFileState { bytes: self.bytes@, mode: self.mode }
    }
}

/// The file state installing `payload` must produce: exactly the payload's
/// bytes, under the fixed executable permission bits.
pub open spec fn spec_installed_state(payload: Seq<u8>) -> SpecFileState {
    SpecFileState { bytes: payload, mode: INSTALL_MODE }
}

/// Plans the installation of a downloaded payload: the target file holds
/// exactly the payload's bytes and bears the executable permission bits.
pub fn plan_install(payload: Vec<u8>) -> (r: FileState)
    ensures
        r@ == spec_installed_state(payload@),
        r.mode == INSTALL_MODE,
{
    FileState { bytes: payload, mode: INSTALL_MODE }
}

/// Installation is idempotent: two installations of the same payload plan
/// byte-identical target files with identical permission bits, so
/// installing the same resolved version twice in succession leaves the
/// same file either time.
pub proof fn lemma_install_idempotent(payload: Seq<u8>, first: SpecFileState, second: SpecFileState)
    requires
        first == spec_installed_state(payload),
        second == spec_installed_state(payload),
    ensures
        first.bytes == second.bytes,
        first.mode == second.mode,
{
}

/// The full path an installed binary bears: the install root, a path
/// separator, and the target file name.
pub fn install_path(root: &str, file_name: &str) -> (r: String)
    ensures
        r@ == root@ + "/"@ + file_name@,
{
    let mut path = root.to_owned();
    path.append("/");
    path.append(file_name);
    path
}

} // verus!
