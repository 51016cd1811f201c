//! Platform-specific labels.
use vstd::prelude::*;

verus! {

/// Target platform identifier.
#[derive(Debug, Clone, Copy, PartialEq, Eq, Structural)]
pub enum Platform {
    MacOs,
    Windows,
    Linux,
}

/// The modifier key glyph for shortcut hints on `platform`: `⌘` on macOS,
/// `Ctrl` elsewhere.
pub fn mod_key_label(platform: Platform) -> (r: &'static str)
    ensures
        r@ == (match platform {
            Platform::MacOs => "⌘"@,
            _ => "Ctrl"@,
        }),
        r@.len() > 0,
{
    proof {
        reveal_strlit("⌘");
        reveal_strlit("Ctrl");
    }
    match platform {
        Platform::MacOs => "⌘",
        Platform::Windows | Platform::Linux => "Ctrl",
    }
}

} // verus!
