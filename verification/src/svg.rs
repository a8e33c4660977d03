//! Built-in vector icons and their rendering to raw pixels.

use vstd::prelude::*;

verus! {

/// Built-in vector icons.
#[derive(Clone, Copy, Debug, PartialEq, Eq, Hash, Structural)]
pub enum Svg {
    /// Battery charging, fully charged.
    BatteryCharging100,
    /// Battery charging, mostly charged.
    BatteryCharging80,
    /// Battery charging, above half.
    BatteryCharging60,
    /// Battery charging, below half.
    BatteryCharging40,
    /// Battery charging, nearly empty.
    BatteryCharging20,
    /// Battery fully charged.
    Battery100,
    /// Battery mostly charged.
    Battery80,
    /// Battery above half.
    Battery60,
    /// Battery below half.
    Battery40,
    /// Battery nearly empty.
    Battery20,
}

impl Svg {
    /// A small index distinguishing the icons, used to key the cache.
    pub open spec fn spec_index(self) -> u64 {
        match self {
            Svg::BatteryCharging100 => 0,
            Svg::BatteryCharging80 => 1,
            Svg::BatteryCharging60 => 2,
            Svg::BatteryCharging40 => 3,
            Svg::BatteryCharging20 => 4,
            Svg::Battery100 => 5,
            Svg::Battery80 => 6,
            Svg::Battery60 => 7,
            Svg::Battery40 => 8,
            Svg::Battery20 => 9,
        }
    }

    /// The icon's index, used to key the cache.
    pub fn index(&self) -> (r: u64)
        ensures
            r == self.spec_index(),
            r <= 9,
    {
        match self {
            Svg::BatteryCharging100 => 0,
            Svg::BatteryCharging80 => 1,
            Svg::BatteryCharging60 => 2,
            Svg::BatteryCharging40 => 3,
            Svg::BatteryCharging20 => 4,
            Svg::Battery100 => 5,
            Svg::Battery80 => 6,
            Svg::Battery60 => 7,
            Svg::Battery40 => 8,
            Svg::Battery20 => 9,
        }
    }

    /// The icon's fixed target size in pixels.
    pub open spec fn spec_size(self) -> (u32, u32) {
        match self {
            Svg::BatteryCharging100 => (22u32, 14u32),
            Svg::BatteryCharging80 => (22u32, 14u32),
            Svg::BatteryCharging60 => (22u32, 14u32),
            Svg::BatteryCharging40 => (22u32, 14u32),
            Svg::BatteryCharging20 => (22u32, 14u32),
            Svg::Battery100 => (22u32, 8u32),
            Svg::Battery80 => (22u32, 8u32),
            Svg::Battery60 => (22u32, 8u32),
            Svg::Battery40 => (22u32, 8u32),
            Svg::Battery20 => (22u32, 8u32),
        }
    }

    /// Get the icon's dimensions.
    pub fn size(&self) -> (r: (u32, u32))
        ensures
            r == self.spec_size(),
            0 < r.0 <= 22,
            0 < r.1 <= 14,
    {
        match self {
            Svg::BatteryCharging100 => (22, 14),
            Svg::BatteryCharging80 => (22, 14),
            Svg::BatteryCharging60 => (22, 14),
            Svg::BatteryCharging40 => (22, 14),
            Svg::BatteryCharging20 => (22, 14),
            Svg::Battery100 => (22, 8),
            Svg::Battery80 => (22, 8),
            Svg::Battery60 => (22, 8),
            Svg::Battery40 => (22, 8),
            Svg::Battery20 => (22, 8),
        }
    }
    /// The icon's vector description, as fixed inline markup whose
    /// intrinsic size equals [`Svg::spec_size`].
    pub open spec fn spec_content(self) -> Seq<char> {
        match self {
            Svg::BatteryCharging100 => "<svg xmlns=\"http://www.w3.org/2000/svg\" width=\"22\" height=\"14\"><rect y=\"3\" width=\"19\" height=\"8\" rx=\"1\" fill=\"#e0e0e0\"/><rect x=\"19\" y=\"5\" width=\"3\" height=\"4\" fill=\"#e0e0e0\"/><rect x=\"1\" y=\"4\" width=\"17\" height=\"6\" fill=\"#76b900\"/><path d=\"M11 0 L7 8 L10 8 L9 14 L14 5 L11 5 Z\" fill=\"#ffd000\"/></svg>"@,
            Svg::BatteryCharging80 => "<svg xmlns=\"http://www.w3.org/2000/svg\" width=\"22\" height=\"14\"><rect y=\"3\" width=\"19\" height=\"8\" rx=\"1\" fill=\"#e0e0e0\"/><rect x=\"19\" y=\"5\" width=\"3\" height=\"4\" fill=\"#e0e0e0\"/><rect x=\"1\" y=\"4\" width=\"14\" height=\"6\" fill=\"#76b900\"/><path d=\"M11 0 L7 8 L10 8 L9 14 L14 5 L11 5 Z\" fill=\"#ffd000\"/></svg>"@,
            Svg::BatteryCharging60 => "<svg xmlns=\"http://www.w3.org/2000/svg\" width=\"22\" height=\"14\"><rect y=\"3\" width=\"19\" height=\"8\" rx=\"1\" fill=\"#e0e0e0\"/><rect x=\"19\" y=\"5\" width=\"3\" height=\"4\" fill=\"#e0e0e0\"/><rect x=\"1\" y=\"4\" width=\"10\" height=\"6\" fill=\"#76b900\"/><path d=\"M11 0 L7 8 L10 8 L9 14 L14 5 L11 5 Z\" fill=\"#ffd000\"/></svg>"@,
            Svg::BatteryCharging40 => "<svg xmlns=\"http://www.w3.org/2000/svg\" width=\"22\" height=\"14\"><rect y=\"3\" width=\"19\" height=\"8\" rx=\"1\" fill=\"#e0e0e0\"/><rect x=\"19\" y=\"5\" width=\"3\" height=\"4\" fill=\"#e0e0e0\"/><rect x=\"1\" y=\"4\" width=\"7\" height=\"6\" fill=\"#76b900\"/><path d=\"M11 0 L7 8 L10 8 L9 14 L14 5 L11 5 Z\" fill=\"#ffd000\"/></svg>"@,
            Svg::BatteryCharging20 => "<svg xmlns=\"http://www.w3.org/2000/svg\" width=\"22\" height=\"14\"><rect y=\"3\" width=\"19\" height=\"8\" rx=\"1\" fill=\"#e0e0e0\"/><rect x=\"19\" y=\"5\" width=\"3\" height=\"4\" fill=\"#e0e0e0\"/><rect x=\"1\" y=\"4\" width=\"3\" height=\"6\" fill=\"#76b900\"/><path d=\"M11 0 L7 8 L10 8 L9 14 L14 5 L11 5 Z\" fill=\"#ffd000\"/></svg>"@,
            Svg::Battery100 => "<svg xmlns=\"http://www.w3.org/2000/svg\" width=\"22\" height=\"8\"><rect width=\"19\" height=\"8\" rx=\"1\" fill=\"#e0e0e0\"/><rect x=\"19\" y=\"2\" width=\"3\" height=\"4\" fill=\"#e0e0e0\"/><rect x=\"1\" y=\"1\" width=\"17\" height=\"6\" fill=\"#76b900\"/></svg>"@,
            Svg::Battery80 => "<svg xmlns=\"http://www.w3.org/2000/svg\" width=\"22\" height=\"8\"><rect width=\"19\" height=\"8\" rx=\"1\" fill=\"#e0e0e0\"/><rect x=\"19\" y=\"2\" width=\"3\" height=\"4\" fill=\"#e0e0e0\"/><rect x=\"1\" y=\"1\" width=\"14\" height=\"6\" fill=\"#76b900\"/></svg>"@,
            Svg::Battery60 => "<svg xmlns=\"http://www.w3.org/2000/svg\" width=\"22\" height=\"8\"><rect width=\"19\" height=\"8\" rx=\"1\" fill=\"#e0e0e0\"/><rect x=\"19\" y=\"2\" width=\"3\" height=\"4\" fill=\"#e0e0e0\"/><rect x=\"1\" y=\"1\" width=\"10\" height=\"6\" fill=\"#76b900\"/></svg>"@,
            Svg::Battery40 => "<svg xmlns=\"http://www.w3.org/2000/svg\" width=\"22\" height=\"8\"><rect width=\"19\" height=\"8\" rx=\"1\" fill=\"#e0e0e0\"/><rect x=\"19\" y=\"2\" width=\"3\" height=\"4\" fill=\"#e0e0e0\"/><rect x=\"1\" y=\"1\" width=\"7\" height=\"6\" fill=\"#76b900\"/></svg>"@,
            Svg::Battery20 => "<svg xmlns=\"http://www.w3.org/2000/svg\" width=\"22\" height=\"8\"><rect width=\"19\" height=\"8\" rx=\"1\" fill=\"#e0e0e0\"/><rect x=\"19\" y=\"2\" width=\"3\" height=\"4\" fill=\"#e0e0e0\"/><rect x=\"1\" y=\"1\" width=\"3\" height=\"6\" fill=\"#76b900\"/></svg>"@,
        }
    }

    /// Get the icon's vector description.
    pub fn content(&self) -> (r: &'static str)
        ensures
            r@ == self.spec_content(),
    {
        match self {
            Svg::BatteryCharging100 => "<svg xmlns=\"http://www.w3.org/2000/svg\" width=\"22\" height=\"14\"><rect y=\"3\" width=\"19\" height=\"8\" rx=\"1\" fill=\"#e0e0e0\"/><rect x=\"19\" y=\"5\" width=\"3\" height=\"4\" fill=\"#e0e0e0\"/><rect x=\"1\" y=\"4\" width=\"17\" height=\"6\" fill=\"#76b900\"/><path d=\"M11 0 L7 8 L10 8 L9 14 L14 5 L11 5 Z\" fill=\"#ffd000\"/></svg>",
            Svg::BatteryCharging80 => "<svg xmlns=\"http://www.w3.org/2000/svg\" width=\"22\" height=\"14\"><rect y=\"3\" width=\"19\" height=\"8\" rx=\"1\" fill=\"#e0e0e0\"/><rect x=\"19\" y=\"5\" width=\"3\" height=\"4\" fill=\"#e0e0e0\"/><rect x=\"1\" y=\"4\" width=\"14\" height=\"6\" fill=\"#76b900\"/><path d=\"M11 0 L7 8 L10 8 L9 14 L14 5 L11 5 Z\" fill=\"#ffd000\"/></svg>",
            Svg::BatteryCharging60 => "<svg xmlns=\"http://www.w3.org/2000/svg\" width=\"22\" height=\"14\"><rect y=\"3\" width=\"19\" height=\"8\" rx=\"1\" fill=\"#e0e0e0\"/><rect x=\"19\" y=\"5\" width=\"3\" height=\"4\" fill=\"#e0e0e0\"/><rect x=\"1\" y=\"4\" width=\"10\" height=\"6\" fill=\"#76b900\"/><path d=\"M11 0 L7 8 L10 8 L9 14 L14 5 L11 5 Z\" fill=\"#ffd000\"/></svg>",
            Svg::BatteryCharging40 => "<svg xmlns=\"http://www.w3.org/2000/svg\" width=\"22\" height=\"14\"><rect y=\"3\" width=\"19\" height=\"8\" rx=\"1\" fill=\"#e0e0e0\"/><rect x=\"19\" y=\"5\" width=\"3\" height=\"4\" fill=\"#e0e0e0\"/><rect x=\"1\" y=\"4\" width=\"7\" height=\"6\" fill=\"#76b900\"/><path d=\"M11 0 L7 8 L10 8 L9 14 L14 5 L11 5 Z\" fill=\"#ffd000\"/></svg>",
            Svg::BatteryCharging20 => "<svg xmlns=\"http://www.w3.org/2000/svg\" width=\"22\" height=\"14\"><rect y=\"3\" width=\"19\" height=\"8\" rx=\"1\" fill=\"#e0e0e0\"/><rect x=\"19\" y=\"5\" width=\"3\" height=\"4\" fill=\"#e0e0e0\"/><rect x=\"1\" y=\"4\" width=\"3\" height=\"6\" fill=\"#76b900\"/><path d=\"M11 0 L7 8 L10 8 L9 14 L14 5 L11 5 Z\" fill=\"#ffd000\"/></svg>",
            Svg::Battery100 => "<svg xmlns=\"http://www.w3.org/2000/svg\" width=\"22\" height=\"8\"><rect width=\"19\" height=\"8\" rx=\"1\" fill=\"#e0e0e0\"/><rect x=\"19\" y=\"2\" width=\"3\" height=\"4\" fill=\"#e0e0e0\"/><rect x=\"1\" y=\"1\" width=\"17\" height=\"6\" fill=\"#76b900\"/></svg>",
            Svg::Battery80 => "<svg xmlns=\"http://www.w3.org/2000/svg\" width=\"22\" height=\"8\"><rect width=\"19\" height=\"8\" rx=\"1\" fill=\"#e0e0e0\"/><rect x=\"19\" y=\"2\" width=\"3\" height=\"4\" fill=\"#e0e0e0\"/><rect x=\"1\" y=\"1\" width=\"14\" height=\"6\" fill=\"#76b900\"/></svg>",
            Svg::Battery60 => "<svg xmlns=\"http://www.w3.org/2000/svg\" width=\"22\" height=\"8\"><rect width=\"19\" height=\"8\" rx=\"1\" fill=\"#e0e0e0\"/><rect x=\"19\" y=\"2\" width=\"3\" height=\"4\" fill=\"#e0e0e0\"/><rect x=\"1\" y=\"1\" width=\"10\" height=\"6\" fill=\"#76b900\"/></svg>",
            Svg::Battery40 => "<svg xmlns=\"http://www.w3.org/2000/svg\" width=\"22\" height=\"8\"><rect width=\"19\" height=\"8\" rx=\"1\" fill=\"#e0e0e0\"/><rect x=\"19\" y=\"2\" width=\"3\" height=\"4\" fill=\"#e0e0e0\"/><rect x=\"1\" y=\"1\" width=\"7\" height=\"6\" fill=\"#76b900\"/></svg>",
            Svg::Battery20 => "<svg xmlns=\"http://www.w3.org/2000/svg\" width=\"22\" height=\"8\"><rect width=\"19\" height=\"8\" rx=\"1\" fill=\"#e0e0e0\"/><rect x=\"19\" y=\"2\" width=\"3\" height=\"4\" fill=\"#e0e0e0\"/><rect x=\"1\" y=\"1\" width=\"3\" height=\"6\" fill=\"#76b900\"/></svg>",
        }
    }
}

/// The description is one of the library's fixed icons.  Those reference
/// no outside resource — no file path, no remote href, no text face — so
/// rendering one is a pure function of the description and the target
/// size.  Arbitrary markup would not be: an image element with a file
/// href, for example, is read from the local file system.
pub open spec fn is_icon_content(content: Seq<char>) -> bool {
    exists|s: Svg| content == #[trigger] s.spec_content()
}

/// The pixels the vector renderer produces for one of the fixed icon
/// descriptions rendered at a fixed size.  For those descriptions the
/// result depends on the description and the size alone, so it carries a
/// name and callers reason about it only through that name.
pub uninterp spec fn rendered_svg(content: Seq<char>, width: u32, height: u32) -> Seq<u8>;

/// Whether the vector renderer produces a bitmap at all for one of the
/// fixed icon descriptions at a fixed size: the target buffer can be
/// allocated and the description parses.  For those descriptions this too
/// depends on the description and the size alone.
pub uninterp spec fn svg_renders(content: Seq<char>, width: u32, height: u32) -> bool;

/// Relies on `tiny_skia::Pixmap::new`, `usvg::Tree::from_str` and
/// `resvg::render`: for a self-contained description — the `requires`
/// admits only the library's fixed icons — parsing and rendering depend on
/// the description and the target size alone, and a pixmap of `width` by
/// `height` pixels hands back exactly `width * height * 4` bytes.
#[verifier::external_body]
pub(crate) fn render_svg(content: &str, width: u32, height: u32) -> (r: Option<Vec<u8>>)
    requires
        is_icon_content(content@),
    ensures
        r is Some <==> svg_renders(content@, width, height),
        r matches Some(b) ==> b@ == rendered_svg(content@, width, height) && b@.len() == width
            * height * 4,
{
    let mut pixmap = tiny_skia::Pixmap::new(width, height)?;
    let tree = usvg::Tree::from_str(content, &usvg::Options::default()).ok()?;
    resvg::render(&tree, tiny_skia::Transform::default(), &mut pixmap.as_mut());
    Some(pixmap.take())
}

} // verus!
