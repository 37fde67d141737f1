use vstd::prelude::*;
use crate::text::same_text;

verus! {

/// Sun, for a clear sky.
pub const SUN: &'static str = "\u{2600}\u{FE0F}";

/// Sun behind a cloud, for the lighter cloud covers.
pub const PARTLY_CLOUDY: &'static str = "\u{1F324}\u{FE0F}";

/// Cloud, for overcast skies and hazy air.
pub const CLOUD: &'static str = "\u{2601}\u{FE0F}";

/// Cloud with rain.
pub const RAIN: &'static str = "\u{1F327}\u{FE0F}";

/// Cloud with lightning and rain.
pub const STORM: &'static str = "\u{26C8}\u{FE0F}";

/// Cloud with snow.
pub const SNOW: &'static str = "\u{1F328}\u{FE0F}";

/// Warning sign followed by the word `error`, for a description the table
/// does not know.
pub const UNKNOWN: &'static str = "\u{26A0}\u{FE0F}error";

/// The glyph for a weather description. The match is exact: case and
/// wording count, and there is no partial matching.
pub open spec fn emoji_for(d: Seq<char>) -> Seq<char> {
    if d == "clear sky"@ {
        SUN@
    } else if d == "few clouds"@ || d == "scattered clouds"@ || d == "broken clouds"@ {
        PARTLY_CLOUDY@
    } else if d == "overcast clouds"@ || d == "mist"@ || d == "haze"@ || d == "smoke"@
        || d == "sand"@ {
        CLOUD@
    } else if d == "shower rain"@ || d == "rain"@ {
        RAIN@
    } else if d == "thunderstorm"@ {
        STORM@
    } else if d == "snow"@ {
        SNOW@
    } else {
        UNKNOWN@
    }
}

/// Looks up the glyph for a weather description.
pub fn get_emoji(weather: &str) -> (r: &'static str)
    ensures
        r@ == emoji_for(weather@),
{
    if same_text(weather, "clear sky") {
        SUN
    } else if same_text(weather, "few clouds") || same_text(weather, "scattered clouds")
        || same_text(weather, "broken clouds") {
        PARTLY_CLOUDY
    } else if same_text(weather, "overcast clouds") || same_text(weather, "mist") || same_text(
        weather,
        "haze",
    ) || same_text(weather, "smoke") || same_text(weather, "sand") {
        CLOUD
    } else if same_text(weather, "shower rain") || same_text(weather, "rain") {
        RAIN
    } else if same_text(weather, "thunderstorm") {
        STORM
    } else if same_text(weather, "snow") {
        SNOW
    } else {
        UNKNOWN
    }
}

} // verus!
