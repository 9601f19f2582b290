//! Which optional parts of a component a protocol version can carry.

use vstd::prelude::*;

verus! {

/// First protocol version that carries `insertion`.
pub const INSERTION_SINCE: i32 = 5;

/// First protocol version that carries a `copy_to_clipboard` click event.
pub const CLIPBOARD_SINCE: i32 = 558;

/// First protocol version that carries custom `#RRGGBB` colors and `font`.
pub const CUSTOM_STYLE_SINCE: i32 = 713;

/// First protocol version whose hover events carry structured `contents`.
pub const STRUCTURED_HOVER_SINCE: i32 = 735;

/// The capabilities of one protocol version.
#[derive(Clone, Copy, Debug, PartialEq, Eq, Structural)]
pub struct VersionPolicy {
    pub insertion: bool,
    pub custom_color: bool,
    pub font: bool,
    pub clipboard_click: bool,
    pub structured_hover: bool,
}

pub open spec fn supports_insertion(version: int) -> bool {
    version >= 5
}

pub open spec fn supports_custom_color(version: int) -> bool {
    version >= 713
}

pub open spec fn supports_font(version: int) -> bool {
    version >= 713
}

pub open spec fn supports_clipboard_click(version: int) -> bool {
    version >= 558
}

pub open spec fn supports_structured_hover(version: int) -> bool {
    version >= 735
}

impl VersionPolicy {
    /// The policy of `version`, as a specification.
    pub open spec fn spec_of(version: int) -> VersionPolicy {
        VersionPolicy {
            insertion: supports_insertion(version),
            custom_color: supports_custom_color(version),
            font: supports_font(version),
            clipboard_click: supports_clipboard_click(version),
            structured_hover: supports_structured_hover(version),
        }
    }

    /// Looks up what `version` can carry. Versions are compared as numbers.
    pub fn of(version: i32) -> (policy: VersionPolicy)
        ensures
            policy == Self::spec_of(version as int),
    {
        VersionPolicy {
            insertion: version >= INSERTION_SINCE,
            custom_color: version >= CUSTOM_STYLE_SINCE,
            font: version >= CUSTOM_STYLE_SINCE,
            clipboard_click: version >= CLIPBOARD_SINCE,
            structured_hover: version >= STRUCTURED_HOVER_SINCE,
        }
    }
}

} // verus!
