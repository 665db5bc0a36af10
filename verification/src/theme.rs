use vstd::prelude::*;

verus! {

// Keys of the attached values by which a theme styles the controls. Each key names what it
// holds in its doc comment; the values themselves (colors, sizes) are held by the drawing side.

/// Foreground color (for text and controls)
///
/// Holds a color property.
pub struct Foreground;

/// Font family for text
///
/// Holds a font family name property.
pub struct FontFamily;

/// Font size for text
///
/// Holds a size property.
pub struct FontSize;

/// Background color for controls
///
/// Holds a color property.
pub struct Background;

/// Border color
///
/// Holds a color property.
pub struct BorderColor;

/// First light color of 3D borders
///
/// Holds a color property.
pub struct BorderLight1;

/// Second light color of 3D borders
///
/// Holds a color property.
pub struct BorderLight2;

/// First medium color of 3D borders
///
/// Holds a color property.
pub struct BorderMedium1;

/// Second medium color of 3D borders
///
/// Holds a color property.
pub struct BorderMedium2;

/// Dark color of 3D borders
///
/// Holds a color property.
pub struct BorderDark;

/// Gradient color at the top of a button in its normal state
///
/// Holds a color property.
pub struct GradientTopNormal;

/// Gradient color at the bottom of a button in its normal state
///
/// Holds a color property.
pub struct GradientBotNormal;

/// Color multipliers for hover state
///
/// Holds a property of three color multipliers (red, green, blue).
pub struct HoverHighlight;

/// Color multipliers for pressed state
///
/// Holds a property of three color multipliers (red, green, blue).
pub struct PressedHighlight;

/// Color multipliers for focused state
///
/// Holds a property of three color multipliers (red, green, blue).
pub struct FocusedHighlight;

/// Progress bar foreground color
///
/// Holds a color property.
pub struct ProgressBarForeground;

/// Progress bar background color
///
/// Holds a color property.
pub struct ProgressBarBackground;

/// Scroll bar background color
///
/// Holds a color property.
pub struct ScrollBarBackground;

/// Menu background color
///
/// Holds a color property.
pub struct MenuBackground;

/// Menu hover background color
///
/// Holds a color property.
pub struct MenuHoverBackground;

/// TextBox edit border color
///
/// Holds a color property.
pub struct TextBoxBorderColor;

/// Text selection background color
///
/// Holds a color property.
pub struct TextSelectionBackground;

/// Text cursor color
///
/// Holds a color property.
pub struct TextCursorColor;

/// Busy indicator overlay color
///
/// Holds a color property.
pub struct BusyIndicatorOverlay;

/// Check box button size
///
/// Holds a size property, in pixels.
pub struct CheckBoxButtonSize;

/// Check box margin
///
/// Holds a size property, in pixels.
pub struct CheckBoxMargin;

/// Radio button size
///
/// Holds a size property, in pixels.
pub struct RadioButtonSize;

/// Radio bullet size
///
/// Holds a size property, in pixels.
pub struct RadioBulletSize;

/// Radio margin
///
/// Holds a size property, in pixels.
pub struct RadioMargin;

/// Border size
///
/// Holds a size property, in pixels.
pub struct BorderSize;

/// Scroll bar margin (start)
///
/// Holds a size property, in pixels.
pub struct ScrollBarStartMargin;

/// Scroll bar margin (end)
///
/// Holds a size property, in pixels.
pub struct ScrollBarEndMargin;

/// Scroll bar margin (side)
///
/// Holds a size property, in pixels.
pub struct ScrollBarSideMargin;

/// Scroll bar minimum thumb size
///
/// Holds a size property, in pixels.
pub struct ScrollBarMinThumbSize;

/// Progress bar margin (start)
///
/// Holds a size property, in pixels.
pub struct ProgressBarStartMargin;

/// Progress bar margin (end)
///
/// Holds a size property, in pixels.
pub struct ProgressBarEndMargin;

/// Progress bar margin (side)
///
/// Holds a size property, in pixels.
pub struct ProgressBarSideMargin;

/// Progress bar minimum size
///
/// Holds a size property, in pixels.
pub struct ProgressBarMinSize;

/// The font family of text when no theme gives one.
pub const DEFAULT_FONT_FAMILY: &'static str = "sans-serif";

} // verus!
