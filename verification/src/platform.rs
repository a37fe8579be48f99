//! Where the backend executable lives on each platform.

use vstd::prelude::*;

verus! {

/// The platforms for which a backend executable is bundled.
#[derive(Clone, Copy, Debug, PartialEq, Eq, Structural)]
pub enum Platform {
    MacOs,
    Windows,
    Linux,
}

impl Platform {
    /// The path of the backend executable below the resource root: inside
    /// an application bundle on macOS, with the `.exe` suffix on Windows,
    /// the bare binary on Linux.
    pub open spec fn relative_path(self) -> &'static str {
        match self {
            Platform::MacOs => "astrbot-backend.app/Contents/MacOS/main",
            Platform::Windows => "astrbot-backend.exe",
            Platform::Linux => "astrbot-backend",
        }
    }
}

/// No two platforms share an executable path, so a bundle can hold the
/// executables of all of them side by side.
pub proof fn lemma_relative_paths_differ(first: Platform, second: Platform)
    requires
        first != second,
    ensures
        first.relative_path()@ != second.relative_path()@,
{
    reveal_strlit("astrbot-backend.app/Contents/MacOS/main");
    reveal_strlit("astrbot-backend.exe");
    reveal_strlit("astrbot-backend");
    assert(Platform::MacOs.relative_path()@.len() == 39);
    assert(Platform::Windows.relative_path()@.len() == 19);
    assert(Platform::Linux.relative_path()@.len() == 15);
}

/// Returns the path of the backend executable below the resource root.
pub fn backend_relative_path(platform: Platform) -> (path: &'static str)
    ensures
        path == platform.relative_path(),
{
    match platform {
        Platform::MacOs => "astrbot-backend.app/Contents/MacOS/main",
        Platform::Windows => "astrbot-backend.exe",
        Platform::Linux => "astrbot-backend",
    }
}

} // verus!
