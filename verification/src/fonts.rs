use vstd::prelude::*;
use crate::theme::DEFAULT_FONT_FAMILY;

verus! {

/// Where the data of a font comes from: a font embedded in the toolkit, or a file named by
/// the font's name relative to the working directory.
#[derive(PartialEq, Eq, Clone, Debug)]
pub enum FontSource {
    Asset(&'static str),
    File(String),
}

/// The embedded font that a font name stands for, if any.
pub open spec fn font_asset_spec(name: Seq<char>) -> Option<Seq<char>> {
    if name == "sans-serif"@ {
        Some("Rajdhani-Medium.ttf"@)
    } else if name == "sans-serif bold"@ {
        Some("Rajdhani-Bold.ttf"@)
    } else if name == "monospace"@ {
        Some("RajdhaniMono-Medium.ttf"@)
    } else if name == "monospace bold"@ {
        Some("RajdhaniMono-Bold.ttf"@)
    } else {
        None
    }
}

/// Where the font named `font_name` is loaded from: the four generic names stand for the
/// embedded Rajdhani fonts, any other name is a file.
pub fn font_source(font_name: &str) -> (r: FontSource)
    ensures
        match font_asset_spec(font_name@) {
            Some(asset) => r matches FontSource::Asset(a) && a@ == asset,
            None => r matches FontSource::File(f) && f@ == font_name@,
        },
{
    let name = font_name.to_owned();
    if name == "sans-serif".to_owned() {
        FontSource::Asset("Rajdhani-Medium.ttf")
    } else if name == "sans-serif bold".to_owned() {
        FontSource::Asset("Rajdhani-Bold.ttf")
    } else if name == "monospace".to_owned() {
        FontSource::Asset("RajdhaniMono-Medium.ttf")
    } else if name == "monospace bold".to_owned() {
        FontSource::Asset("RajdhaniMono-Bold.ttf")
    } else {
        FontSource::File(name)
    }
}

/// The default font family of text is one of the embedded fonts.
pub proof fn lemma_default_font_is_embedded()
    ensures
        font_asset_spec(DEFAULT_FONT_FAMILY@) == Some("Rajdhani-Medium.ttf"@),
{
}

} // verus!
