use vstd::prelude::*;

use crate::aligned_image::AlignedImage;
use crate::text::signed_decimal;
use crate::text::bool_text;
use crate::text::i32_string;
use crate::text::bool_str;

verus! {

/// The weather icons that the display can show.
#[derive(Clone, Copy, PartialEq, Eq, Structural, Debug)]
pub enum Icons {
    DayCloudyGusts,
    DayFog,
    DayHail,
    DayHaze,
    DayLightning,
    DayRainMix,
    DayRain,
    DayShowers,
    DaySleet,
    DaySnow,
    DaySprinkle,
    DayStormShowers,
    DaySunnyOvercast,
    DaySunny,
    DayThunderstorm,
    Dust,
    Hot,
    Hurricane,
    NightAltCloudyGusts,
    NightAltCloudy,
    NightAltHail,
    NightAltLightning,
    NightAltRainMix,
    NightAltRain,
    NightAltShowers,
    NightAltSleet,
    NightAltSnow,
    NightAltSprinkle,
    NightAltStormShowers,
    NightAltThunderstorm,
    NightClear,
    NightFog,
    Smoke,
    SnowflakeCold,
    StrongWind,
    Tornado,
}

/// OpenWeather condition IDs and their daytime icons, sorted by ID.
pub open spec fn day_icons_spec() -> Seq<(i32, Icons)> {
    seq![
        (200i32, Icons::DayThunderstorm),
        (201i32, Icons::DayThunderstorm),
        (202i32, Icons::DayThunderstorm),
        (210i32, Icons::DayLightning),
        (211i32, Icons::DayLightning),
        (212i32, Icons::DayLightning),
        (221i32, Icons::DayLightning),
        (230i32, Icons::DayThunderstorm),
        (231i32, Icons::DayThunderstorm),
        (232i32, Icons::DayThunderstorm),
        (300i32, Icons::DaySprinkle),
        (301i32, Icons::DaySprinkle),
        (302i32, Icons::DayRain),
        (310i32, Icons::DayRain),
        (311i32, Icons::DayRain),
        (312i32, Icons::DayRain),
        (313i32, Icons::DayRain),
        (314i32, Icons::DayRain),
        (321i32, Icons::DaySprinkle),
        (500i32, Icons::DaySprinkle),
        (501i32, Icons::DayRain),
        (502i32, Icons::DayRain),
        (503i32, Icons::DayRain),
        (504i32, Icons::DayRain),
        (511i32, Icons::DayRainMix),
        (520i32, Icons::DayShowers),
        (521i32, Icons::DayShowers),
        (522i32, Icons::DayShowers),
        (531i32, Icons::DayStormShowers),
        (600i32, Icons::DaySnow),
        (601i32, Icons::DaySleet),
        (602i32, Icons::DaySnow),
        (611i32, Icons::DayRainMix),
        (612i32, Icons::DayRainMix),
        (615i32, Icons::DayRainMix),
        (616i32, Icons::DayRainMix),
        (620i32, Icons::DayRainMix),
        (621i32, Icons::DaySnow),
        (622i32, Icons::DaySnow),
        (701i32, Icons::DayShowers),
        (711i32, Icons::Smoke),
        (721i32, Icons::DayHaze),
        (731i32, Icons::Dust),
        (741i32, Icons::DayFog),
        (761i32, Icons::Dust),
        (762i32, Icons::Dust),
        (781i32, Icons::Tornado),
        (800i32, Icons::DaySunny),
        (801i32, Icons::DayCloudyGusts),
        (802i32, Icons::DayCloudyGusts),
        (803i32, Icons::DayCloudyGusts),
        (804i32, Icons::DaySunnyOvercast),
        (900i32, Icons::Tornado),
        (902i32, Icons::Hurricane),
        (903i32, Icons::SnowflakeCold),
        (904i32, Icons::Hot),
        (906i32, Icons::DayHail),
        (957i32, Icons::StrongWind),
    ]
}

/// OpenWeather condition IDs and their night-time icons, sorted by ID.
pub open spec fn night_icons_spec() -> Seq<(i32, Icons)> {
    seq![
        (200i32, Icons::NightAltThunderstorm),
        (201i32, Icons::NightAltThunderstorm),
        (202i32, Icons::NightAltThunderstorm),
        (210i32, Icons::NightAltLightning),
        (211i32, Icons::NightAltLightning),
        (212i32, Icons::NightAltLightning),
        (221i32, Icons::NightAltLightning),
        (230i32, Icons::NightAltThunderstorm),
        (231i32, Icons::NightAltThunderstorm),
        (232i32, Icons::NightAltThunderstorm),
        (300i32, Icons::NightAltSprinkle),
        (301i32, Icons::NightAltSprinkle),
        (302i32, Icons::NightAltRain),
        (310i32, Icons::NightAltRain),
        (311i32, Icons::NightAltRain),
        (312i32, Icons::NightAltRain),
        (313i32, Icons::NightAltRain),
        (314i32, Icons::NightAltRain),
        (321i32, Icons::NightAltSprinkle),
        (500i32, Icons::NightAltSprinkle),
        (501i32, Icons::NightAltRain),
        (502i32, Icons::NightAltRain),
        (503i32, Icons::NightAltRain),
        (504i32, Icons::NightAltRain),
        (511i32, Icons::NightAltRainMix),
        (520i32, Icons::NightAltShowers),
        (521i32, Icons::NightAltShowers),
        (522i32, Icons::NightAltShowers),
        (531i32, Icons::NightAltStormShowers),
        (600i32, Icons::NightAltSnow),
        (601i32, Icons::NightAltSleet),
        (602i32, Icons::NightAltSnow),
        (611i32, Icons::NightAltRainMix),
        (612i32, Icons::NightAltRainMix),
        (615i32, Icons::NightAltRainMix),
        (616i32, Icons::NightAltRainMix),
        (620i32, Icons::NightAltRainMix),
        (621i32, Icons::NightAltSnow),
        (622i32, Icons::NightAltSnow),
        (701i32, Icons::NightAltShowers),
        (711i32, Icons::Smoke),
        (721i32, Icons::DayHaze),
        (731i32, Icons::Dust),
        (741i32, Icons::NightFog),
        (761i32, Icons::Dust),
        (762i32, Icons::Dust),
        (781i32, Icons::Tornado),
        (800i32, Icons::NightClear),
        (801i32, Icons::NightAltCloudyGusts),
        (802i32, Icons::NightAltCloudyGusts),
        (803i32, Icons::NightAltCloudyGusts),
        (804i32, Icons::NightAltCloudy),
        (900i32, Icons::Tornado),
        (902i32, Icons::Hurricane),
        (903i32, Icons::SnowflakeCold),
        (904i32, Icons::Hot),
        (906i32, Icons::NightAltHail),
        (957i32, Icons::StrongWind),
    ]
}

/// The daytime icon table.
pub fn day_icons() -> (table: Vec<(i32, Icons)>)
    ensures
        table@ == day_icons_spec(),
{
    let table = vec![
        (200i32, Icons::DayThunderstorm),
        (201i32, Icons::DayThunderstorm),
        (202i32, Icons::DayThunderstorm),
        (210i32, Icons::DayLightning),
        (211i32, Icons::DayLightning),
        (212i32, Icons::DayLightning),
        (221i32, Icons::DayLightning),
        (230i32, Icons::DayThunderstorm),
        (231i32, Icons::DayThunderstorm),
        (232i32, Icons::DayThunderstorm),
        (300i32, Icons::DaySprinkle),
        (301i32, Icons::DaySprinkle),
        (302i32, Icons::DayRain),
        (310i32, Icons::DayRain),
        (311i32, Icons::DayRain),
        (312i32, Icons::DayRain),
        (313i32, Icons::DayRain),
        (314i32, Icons::DayRain),
        (321i32, Icons::DaySprinkle),
        (500i32, Icons::DaySprinkle),
        (501i32, Icons::DayRain),
        (502i32, Icons::DayRain),
        (503i32, Icons::DayRain),
        (504i32, Icons::DayRain),
        (511i32, Icons::DayRainMix),
        (520i32, Icons::DayShowers),
        (521i32, Icons::DayShowers),
        (522i32, Icons::DayShowers),
        (531i32, Icons::DayStormShowers),
        (600i32, Icons::DaySnow),
        (601i32, Icons::DaySleet),
        (602i32, Icons::DaySnow),
        (611i32, Icons::DayRainMix),
        (612i32, Icons::DayRainMix),
        (615i32, Icons::DayRainMix),
        (616i32, Icons::DayRainMix),
        (620i32, Icons::DayRainMix),
        (621i32, Icons::DaySnow),
        (622i32, Icons::DaySnow),
        (701i32, Icons::DayShowers),
        (711i32, Icons::Smoke),
        (721i32, Icons::DayHaze),
        (731i32, Icons::Dust),
        (741i32, Icons::DayFog),
        (761i32, Icons::Dust),
        (762i32, Icons::Dust),
        (781i32, Icons::Tornado),
        (800i32, Icons::DaySunny),
        (801i32, Icons::DayCloudyGusts),
        (802i32, Icons::DayCloudyGusts),
        (803i32, Icons::DayCloudyGusts),
        (804i32, Icons::DaySunnyOvercast),
        (900i32, Icons::Tornado),
        (902i32, Icons::Hurricane),
        (903i32, Icons::SnowflakeCold),
        (904i32, Icons::Hot),
        (906i32, Icons::DayHail),
        (957i32, Icons::StrongWind),
    ];
    assert(table@ =~= day_icons_spec());
    table
}

/// The night-time icon table.
pub fn night_icons() -> (table: Vec<(i32, Icons)>)
    ensures
        table@ == night_icons_spec(),
{
    let table = vec![
        (200i32, Icons::NightAltThunderstorm),
        (201i32, Icons::NightAltThunderstorm),
        (202i32, Icons::NightAltThunderstorm),
        (210i32, Icons::NightAltLightning),
        (211i32, Icons::NightAltLightning),
        (212i32, Icons::NightAltLightning),
        (221i32, Icons::NightAltLightning),
        (230i32, Icons::NightAltThunderstorm),
        (231i32, Icons::NightAltThunderstorm),
        (232i32, Icons::NightAltThunderstorm),
        (300i32, Icons::NightAltSprinkle),
        (301i32, Icons::NightAltSprinkle),
        (302i32, Icons::NightAltRain),
        (310i32, Icons::NightAltRain),
        (311i32, Icons::NightAltRain),
        (312i32, Icons::NightAltRain),
        (313i32, Icons::NightAltRain),
        (314i32, Icons::NightAltRain),
        (321i32, Icons::NightAltSprinkle),
        (500i32, Icons::NightAltSprinkle),
        (501i32, Icons::NightAltRain),
        (502i32, Icons::NightAltRain),
        (503i32, Icons::NightAltRain),
        (504i32, Icons::NightAltRain),
        (511i32, Icons::NightAltRainMix),
        (520i32, Icons::NightAltShowers),
        (521i32, Icons::NightAltShowers),
        (522i32, Icons::NightAltShowers),
        (531i32, Icons::NightAltStormShowers),
        (600i32, Icons::NightAltSnow),
        (601i32, Icons::NightAltSleet),
        (602i32, Icons::NightAltSnow),
        (611i32, Icons::NightAltRainMix),
        (612i32, Icons::NightAltRainMix),
        (615i32, Icons::NightAltRainMix),
        (616i32, Icons::NightAltRainMix),
        (620i32, Icons::NightAltRainMix),
        (621i32, Icons::NightAltSnow),
        (622i32, Icons::NightAltSnow),
        (701i32, Icons::NightAltShowers),
        (711i32, Icons::Smoke),
        (721i32, Icons::DayHaze),
        (731i32, Icons::Dust),
        (741i32, Icons::NightFog),
        (761i32, Icons::Dust),
        (762i32, Icons::Dust),
        (781i32, Icons::Tornado),
        (800i32, Icons::NightClear),
        (801i32, Icons::NightAltCloudyGusts),
        (802i32, Icons::NightAltCloudyGusts),
        (803i32, Icons::NightAltCloudyGusts),
        (804i32, Icons::NightAltCloudy),
        (900i32, Icons::Tornado),
        (902i32, Icons::Hurricane),
        (903i32, Icons::SnowflakeCold),
        (904i32, Icons::Hot),
        (906i32, Icons::NightAltHail),
        (957i32, Icons::StrongWind),
    ];
    assert(table@ =~= night_icons_spec());
    table
}

/// The file name of the icon image.
pub open spec fn icon_file_name(icon: Icons) -> Seq<char> {
    match icon {
        Icons::DayCloudyGusts => "wi-day-cloudy-gusts.webp"@,
        Icons::DayFog => "wi-day-fog.webp"@,
        Icons::DayHail => "wi-day-hail.webp"@,
        Icons::DayHaze => "wi-day-haze.webp"@,
        Icons::DayLightning => "wi-day-lightning.webp"@,
        Icons::DayRainMix => "wi-day-rain-mix.webp"@,
        Icons::DayRain => "wi-day-rain.webp"@,
        Icons::DayShowers => "wi-day-showers.webp"@,
        Icons::DaySleet => "wi-day-sleet.webp"@,
        Icons::DaySnow => "wi-day-snow.webp"@,
        Icons::DaySprinkle => "wi-day-sprinkle.webp"@,
        Icons::DayStormShowers => "wi-day-storm-showers.webp"@,
        Icons::DaySunnyOvercast => "wi-day-sunny-overcast.webp"@,
        Icons::DaySunny => "wi-day-sunny.webp"@,
        Icons::DayThunderstorm => "wi-day-thunderstorm.webp"@,
        Icons::Dust => "wi-dust.webp"@,
        Icons::Hot => "wi-hot.webp"@,
        Icons::Hurricane => "wi-hurricane.webp"@,
        Icons::NightAltCloudyGusts => "wi-night-alt-cloudy-gusts.webp"@,
        Icons::NightAltCloudy => "wi-night-alt-cloudy.webp"@,
        Icons::NightAltHail => "wi-night-alt-hail.webp"@,
        Icons::NightAltLightning => "wi-night-alt-lightning.webp"@,
        Icons::NightAltRainMix => "wi-night-alt-rain-mix.webp"@,
        Icons::NightAltRain => "wi-night-alt-rain.webp"@,
        Icons::NightAltShowers => "wi-night-alt-showers.webp"@,
        Icons::NightAltSleet => "wi-night-alt-sleet.webp"@,
        Icons::NightAltSnow => "wi-night-alt-snow.webp"@,
        Icons::NightAltSprinkle => "wi-night-alt-sprinkle.webp"@,
        Icons::NightAltStormShowers => "wi-night-alt-storm-showers.webp"@,
        Icons::NightAltThunderstorm => "wi-night-alt-thunderstorm.webp"@,
        Icons::NightClear => "wi-night-clear.webp"@,
        Icons::NightFog => "wi-night-fog.webp"@,
        Icons::Smoke => "wi-smoke.webp"@,
        Icons::SnowflakeCold => "wi-snowflake-cold.webp"@,
        Icons::StrongWind => "wi-strong-wind.webp"@,
        Icons::Tornado => "wi-tornado.webp"@,
    }
}

impl Icons {
    /// The file name of this icon's image.
    pub fn file_name(self) -> (name: &'static str)
        ensures
            name@ == icon_file_name(self),
    {
        match self {
            Icons::DayCloudyGusts => "wi-day-cloudy-gusts.webp",
            Icons::DayFog => "wi-day-fog.webp",
            Icons::DayHail => "wi-day-hail.webp",
            Icons::DayHaze => "wi-day-haze.webp",
            Icons::DayLightning => "wi-day-lightning.webp",
            Icons::DayRainMix => "wi-day-rain-mix.webp",
            Icons::DayRain => "wi-day-rain.webp",
            Icons::DayShowers => "wi-day-showers.webp",
            Icons::DaySleet => "wi-day-sleet.webp",
            Icons::DaySnow => "wi-day-snow.webp",
            Icons::DaySprinkle => "wi-day-sprinkle.webp",
            Icons::DayStormShowers => "wi-day-storm-showers.webp",
            Icons::DaySunnyOvercast => "wi-day-sunny-overcast.webp",
            Icons::DaySunny => "wi-day-sunny.webp",
            Icons::DayThunderstorm => "wi-day-thunderstorm.webp",
            Icons::Dust => "wi-dust.webp",
            Icons::Hot => "wi-hot.webp",
            Icons::Hurricane => "wi-hurricane.webp",
            Icons::NightAltCloudyGusts => "wi-night-alt-cloudy-gusts.webp",
            Icons::NightAltCloudy => "wi-night-alt-cloudy.webp",
            Icons::NightAltHail => "wi-night-alt-hail.webp",
            Icons::NightAltLightning => "wi-night-alt-lightning.webp",
            Icons::NightAltRainMix => "wi-night-alt-rain-mix.webp",
            Icons::NightAltRain => "wi-night-alt-rain.webp",
            Icons::NightAltShowers => "wi-night-alt-showers.webp",
            Icons::NightAltSleet => "wi-night-alt-sleet.webp",
            Icons::NightAltSnow => "wi-night-alt-snow.webp",
            Icons::NightAltSprinkle => "wi-night-alt-sprinkle.webp",
            Icons::NightAltStormShowers => "wi-night-alt-storm-showers.webp",
            Icons::NightAltThunderstorm => "wi-night-alt-thunderstorm.webp",
            Icons::NightClear => "wi-night-clear.webp",
            Icons::NightFog => "wi-night-fog.webp",
            Icons::Smoke => "wi-smoke.webp",
            Icons::SnowflakeCold => "wi-snowflake-cold.webp",
            Icons::StrongWind => "wi-strong-wind.webp",
            Icons::Tornado => "wi-tornado.webp",
        }
    }
}

/// The image file of each icon, from the Weather Icons set.
pub proof fn lemma_icon_file_names()
    ensures
        icon_file_name(Icons::DayCloudyGusts) == "wi-day-cloudy-gusts.webp"@,
        icon_file_name(Icons::DayFog) == "wi-day-fog.webp"@,
        icon_file_name(Icons::DayHail) == "wi-day-hail.webp"@,
        icon_file_name(Icons::DayHaze) == "wi-day-haze.webp"@,
        icon_file_name(Icons::DayLightning) == "wi-day-lightning.webp"@,
        icon_file_name(Icons::DayRainMix) == "wi-day-rain-mix.webp"@,
        icon_file_name(Icons::DayRain) == "wi-day-rain.webp"@,
        icon_file_name(Icons::DayShowers) == "wi-day-showers.webp"@,
        icon_file_name(Icons::DaySleet) == "wi-day-sleet.webp"@,
        icon_file_name(Icons::DaySnow) == "wi-day-snow.webp"@,
        icon_file_name(Icons::DaySprinkle) == "wi-day-sprinkle.webp"@,
        icon_file_name(Icons::DayStormShowers) == "wi-day-storm-showers.webp"@,
        icon_file_name(Icons::DaySunnyOvercast) == "wi-day-sunny-overcast.webp"@,
        icon_file_name(Icons::DaySunny) == "wi-day-sunny.webp"@,
        icon_file_name(Icons::DayThunderstorm) == "wi-day-thunderstorm.webp"@,
        icon_file_name(Icons::Dust) == "wi-dust.webp"@,
        icon_file_name(Icons::Hot) == "wi-hot.webp"@,
        icon_file_name(Icons::Hurricane) == "wi-hurricane.webp"@,
        icon_file_name(Icons::NightAltCloudyGusts) == "wi-night-alt-cloudy-gusts.webp"@,
        icon_file_name(Icons::NightAltCloudy) == "wi-night-alt-cloudy.webp"@,
        icon_file_name(Icons::NightAltHail) == "wi-night-alt-hail.webp"@,
        icon_file_name(Icons::NightAltLightning) == "wi-night-alt-lightning.webp"@,
        icon_file_name(Icons::NightAltRainMix) == "wi-night-alt-rain-mix.webp"@,
        icon_file_name(Icons::NightAltRain) == "wi-night-alt-rain.webp"@,
        icon_file_name(Icons::NightAltShowers) == "wi-night-alt-showers.webp"@,
        icon_file_name(Icons::NightAltSleet) == "wi-night-alt-sleet.webp"@,
        icon_file_name(Icons::NightAltSnow) == "wi-night-alt-snow.webp"@,
        icon_file_name(Icons::NightAltSprinkle) == "wi-night-alt-sprinkle.webp"@,
        icon_file_name(Icons::NightAltStormShowers) == "wi-night-alt-storm-showers.webp"@,
        icon_file_name(Icons::NightAltThunderstorm) == "wi-night-alt-thunderstorm.webp"@,
        icon_file_name(Icons::NightClear) == "wi-night-clear.webp"@,
        icon_file_name(Icons::NightFog) == "wi-night-fog.webp"@,
        icon_file_name(Icons::Smoke) == "wi-smoke.webp"@,
        icon_file_name(Icons::SnowflakeCold) == "wi-snowflake-cold.webp"@,
        icon_file_name(Icons::StrongWind) == "wi-strong-wind.webp"@,
        icon_file_name(Icons::Tornado) == "wi-tornado.webp"@,
{
}

/// The keys of `t` increase strictly.
#[verifier::opaque]
pub open spec fn keys_sorted(t: Seq<(i32, Icons)>) -> bool {
    forall|i: int, j: int| 0 <= i < j < t.len() ==> #[trigger] t[i].0 < #[trigger] t[j].0
}

/// Appending an entry whose key is larger than the last keeps the keys sorted.
proof fn lemma_push_keeps_sorted(s: Seq<(i32, Icons)>, e: (i32, Icons))
    requires
        keys_sorted(s),
        s.len() > 0 ==> s.last().0 < e.0,
    ensures
        keys_sorted(s.push(e)),
{
    reveal(keys_sorted);
    let t = s.push(e);
    assert forall|i: int, j: int| 0 <= i < j < t.len() implies #[trigger] t[i].0 < #[trigger] t[j].0 by {
        if j == s.len() {
            if i < s.len() - 1 {
                assert(s[i].0 < s[s.len() - 1].0);
            }
        } else {
            assert(s[i].0 < s[j].0);
        }
    }
}

/// Both icon tables are sorted by condition ID, with no ID twice.
pub proof fn lemma_icon_tables_sorted()
    ensures
        keys_sorted(day_icons_spec()),
        keys_sorted(night_icons_spec()),
{
    lemma_day_icons_sorted();
    lemma_night_icons_sorted();
}

#[verifier::spinoff_prover]
#[verifier::rlimit(40)]
proof fn lemma_day_icons_sorted()
    ensures
        keys_sorted(day_icons_spec()),
{
    reveal_with_fuel(keys_sorted, 1);
    let s0 = Seq::<(i32, Icons)>::empty().push((200i32, Icons::DayThunderstorm));
    let s1 = s0.push((201i32, Icons::DayThunderstorm));
    lemma_push_keeps_sorted(s0, (201i32, Icons::DayThunderstorm));
    let s2 = s1.push((202i32, Icons::DayThunderstorm));
    lemma_push_keeps_sorted(s1, (202i32, Icons::DayThunderstorm));
    let s3 = s2.push((210i32, Icons::DayLightning));
    lemma_push_keeps_sorted(s2, (210i32, Icons::DayLightning));
    let s4 = s3.push((211i32, Icons::DayLightning));
    lemma_push_keeps_sorted(s3, (211i32, Icons::DayLightning));
    let s5 = s4.push((212i32, Icons::DayLightning));
    lemma_push_keeps_sorted(s4, (212i32, Icons::DayLightning));
    let s6 = s5.push((221i32, Icons::DayLightning));
    lemma_push_keeps_sorted(s5, (221i32, Icons::DayLightning));
    let s7 = s6.push((230i32, Icons::DayThunderstorm));
    lemma_push_keeps_sorted(s6, (230i32, Icons::DayThunderstorm));
    let s8 = s7.push((231i32, Icons::DayThunderstorm));
    lemma_push_keeps_sorted(s7, (231i32, Icons::DayThunderstorm));
    let s9 = s8.push((232i32, Icons::DayThunderstorm));
    lemma_push_keeps_sorted(s8, (232i32, Icons::DayThunderstorm));
    let s10 = s9.push((300i32, Icons::DaySprinkle));
    lemma_push_keeps_sorted(s9, (300i32, Icons::DaySprinkle));
    let s11 = s10.push((301i32, Icons::DaySprinkle));
    lemma_push_keeps_sorted(s10, (301i32, Icons::DaySprinkle));
    let s12 = s11.push((302i32, Icons::DayRain));
    lemma_push_keeps_sorted(s11, (302i32, Icons::DayRain));
    let s13 = s12.push((310i32, Icons::DayRain));
    lemma_push_keeps_sorted(s12, (310i32, Icons::DayRain));
    let s14 = s13.push((311i32, Icons::DayRain));
    lemma_push_keeps_sorted(s13, (311i32, Icons::DayRain));
    let s15 = s14.push((312i32, Icons::DayRain));
    lemma_push_keeps_sorted(s14, (312i32, Icons::DayRain));
    let s16 = s15.push((313i32, Icons::DayRain));
    lemma_push_keeps_sorted(s15, (313i32, Icons::DayRain));
    let s17 = s16.push((314i32, Icons::DayRain));
    lemma_push_keeps_sorted(s16, (314i32, Icons::DayRain));
    let s18 = s17.push((321i32, Icons::DaySprinkle));
    lemma_push_keeps_sorted(s17, (321i32, Icons::DaySprinkle));
    let s19 = s18.push((500i32, Icons::DaySprinkle));
    lemma_push_keeps_sorted(s18, (500i32, Icons::DaySprinkle));
    let s20 = s19.push((501i32, Icons::DayRain));
    lemma_push_keeps_sorted(s19, (501i32, Icons::DayRain));
    let s21 = s20.push((502i32, Icons::DayRain));
    lemma_push_keeps_sorted(s20, (502i32, Icons::DayRain));
    let s22 = s21.push((503i32, Icons::DayRain));
    lemma_push_keeps_sorted(s21, (503i32, Icons::DayRain));
    let s23 = s22.push((504i32, Icons::DayRain));
    lemma_push_keeps_sorted(s22, (504i32, Icons::DayRain));
    let s24 = s23.push((511i32, Icons::DayRainMix));
    lemma_push_keeps_sorted(s23, (511i32, Icons::DayRainMix));
    let s25 = s24.push((520i32, Icons::DayShowers));
    lemma_push_keeps_sorted(s24, (520i32, Icons::DayShowers));
    let s26 = s25.push((521i32, Icons::DayShowers));
    lemma_push_keeps_sorted(s25, (521i32, Icons::DayShowers));
    let s27 = s26.push((522i32, Icons::DayShowers));
    lemma_push_keeps_sorted(s26, (522i32, Icons::DayShowers));
    let s28 = s27.push((531i32, Icons::DayStormShowers));
    lemma_push_keeps_sorted(s27, (531i32, Icons::DayStormShowers));
    let s29 = s28.push((600i32, Icons::DaySnow));
    lemma_push_keeps_sorted(s28, (600i32, Icons::DaySnow));
    let s30 = s29.push((601i32, Icons::DaySleet));
    lemma_push_keeps_sorted(s29, (601i32, Icons::DaySleet));
    let s31 = s30.push((602i32, Icons::DaySnow));
    lemma_push_keeps_sorted(s30, (602i32, Icons::DaySnow));
    let s32 = s31.push((611i32, Icons::DayRainMix));
    lemma_push_keeps_sorted(s31, (611i32, Icons::DayRainMix));
    let s33 = s32.push((612i32, Icons::DayRainMix));
    lemma_push_keeps_sorted(s32, (612i32, Icons::DayRainMix));
    let s34 = s33.push((615i32, Icons::DayRainMix));
    lemma_push_keeps_sorted(s33, (615i32, Icons::DayRainMix));
    let s35 = s34.push((616i32, Icons::DayRainMix));
    lemma_push_keeps_sorted(s34, (616i32, Icons::DayRainMix));
    let s36 = s35.push((620i32, Icons::DayRainMix));
    lemma_push_keeps_sorted(s35, (620i32, Icons::DayRainMix));
    let s37 = s36.push((621i32, Icons::DaySnow));
    lemma_push_keeps_sorted(s36, (621i32, Icons::DaySnow));
    let s38 = s37.push((622i32, Icons::DaySnow));
    lemma_push_keeps_sorted(s37, (622i32, Icons::DaySnow));
    let s39 = s38.push((701i32, Icons::DayShowers));
    lemma_push_keeps_sorted(s38, (701i32, Icons::DayShowers));
    let s40 = s39.push((711i32, Icons::Smoke));
    lemma_push_keeps_sorted(s39, (711i32, Icons::Smoke));
    let s41 = s40.push((721i32, Icons::DayHaze));
    lemma_push_keeps_sorted(s40, (721i32, Icons::DayHaze));
    let s42 = s41.push((731i32, Icons::Dust));
    lemma_push_keeps_sorted(s41, (731i32, Icons::Dust));
    let s43 = s42.push((741i32, Icons::DayFog));
    lemma_push_keeps_sorted(s42, (741i32, Icons::DayFog));
    let s44 = s43.push((761i32, Icons::Dust));
    lemma_push_keeps_sorted(s43, (761i32, Icons::Dust));
    let s45 = s44.push((762i32, Icons::Dust));
    lemma_push_keeps_sorted(s44, (762i32, Icons::Dust));
    let s46 = s45.push((781i32, Icons::Tornado));
    lemma_push_keeps_sorted(s45, (781i32, Icons::Tornado));
    let s47 = s46.push((800i32, Icons::DaySunny));
    lemma_push_keeps_sorted(s46, (800i32, Icons::DaySunny));
    let s48 = s47.push((801i32, Icons::DayCloudyGusts));
    lemma_push_keeps_sorted(s47, (801i32, Icons::DayCloudyGusts));
    let s49 = s48.push((802i32, Icons::DayCloudyGusts));
    lemma_push_keeps_sorted(s48, (802i32, Icons::DayCloudyGusts));
    let s50 = s49.push((803i32, Icons::DayCloudyGusts));
    lemma_push_keeps_sorted(s49, (803i32, Icons::DayCloudyGusts));
    let s51 = s50.push((804i32, Icons::DaySunnyOvercast));
    lemma_push_keeps_sorted(s50, (804i32, Icons::DaySunnyOvercast));
    let s52 = s51.push((900i32, Icons::Tornado));
    lemma_push_keeps_sorted(s51, (900i32, Icons::Tornado));
    let s53 = s52.push((902i32, Icons::Hurricane));
    lemma_push_keeps_sorted(s52, (902i32, Icons::Hurricane));
    let s54 = s53.push((903i32, Icons::SnowflakeCold));
    lemma_push_keeps_sorted(s53, (903i32, Icons::SnowflakeCold));
    let s55 = s54.push((904i32, Icons::Hot));
    lemma_push_keeps_sorted(s54, (904i32, Icons::Hot));
    let s56 = s55.push((906i32, Icons::DayHail));
    lemma_push_keeps_sorted(s55, (906i32, Icons::DayHail));
    let s57 = s56.push((957i32, Icons::StrongWind));
    lemma_push_keeps_sorted(s56, (957i32, Icons::StrongWind));
    assert(s57 =~= day_icons_spec());
}

#[verifier::spinoff_prover]
#[verifier::rlimit(40)]
proof fn lemma_night_icons_sorted()
    ensures
        keys_sorted(night_icons_spec()),
{
    reveal_with_fuel(keys_sorted, 1);
    let s0 = Seq::<(i32, Icons)>::empty().push((200i32, Icons::NightAltThunderstorm));
    let s1 = s0.push((201i32, Icons::NightAltThunderstorm));
    lemma_push_keeps_sorted(s0, (201i32, Icons::NightAltThunderstorm));
    let s2 = s1.push((202i32, Icons::NightAltThunderstorm));
    lemma_push_keeps_sorted(s1, (202i32, Icons::NightAltThunderstorm));
    let s3 = s2.push((210i32, Icons::NightAltLightning));
    lemma_push_keeps_sorted(s2, (210i32, Icons::NightAltLightning));
    let s4 = s3.push((211i32, Icons::NightAltLightning));
    lemma_push_keeps_sorted(s3, (211i32, Icons::NightAltLightning));
    let s5 = s4.push((212i32, Icons::NightAltLightning));
    lemma_push_keeps_sorted(s4, (212i32, Icons::NightAltLightning));
    let s6 = s5.push((221i32, Icons::NightAltLightning));
    lemma_push_keeps_sorted(s5, (221i32, Icons::NightAltLightning));
    let s7 = s6.push((230i32, Icons::NightAltThunderstorm));
    lemma_push_keeps_sorted(s6, (230i32, Icons::NightAltThunderstorm));
    let s8 = s7.push((231i32, Icons::NightAltThunderstorm));
    lemma_push_keeps_sorted(s7, (231i32, Icons::NightAltThunderstorm));
    let s9 = s8.push((232i32, Icons::NightAltThunderstorm));
    lemma_push_keeps_sorted(s8, (232i32, Icons::NightAltThunderstorm));
    let s10 = s9.push((300i32, Icons::NightAltSprinkle));
    lemma_push_keeps_sorted(s9, (300i32, Icons::NightAltSprinkle));
    let s11 = s10.push((301i32, Icons::NightAltSprinkle));
    lemma_push_keeps_sorted(s10, (301i32, Icons::NightAltSprinkle));
    let s12 = s11.push((302i32, Icons::NightAltRain));
    lemma_push_keeps_sorted(s11, (302i32, Icons::NightAltRain));
    let s13 = s12.push((310i32, Icons::NightAltRain));
    lemma_push_keeps_sorted(s12, (310i32, Icons::NightAltRain));
    let s14 = s13.push((311i32, Icons::NightAltRain));
    lemma_push_keeps_sorted(s13, (311i32, Icons::NightAltRain));
    let s15 = s14.push((312i32, Icons::NightAltRain));
    lemma_push_keeps_sorted(s14, (312i32, Icons::NightAltRain));
    let s16 = s15.push((313i32, Icons::NightAltRain));
    lemma_push_keeps_sorted(s15, (313i32, Icons::NightAltRain));
    let s17 = s16.push((314i32, Icons::NightAltRain));
    lemma_push_keeps_sorted(s16, (314i32, Icons::NightAltRain));
    let s18 = s17.push((321i32, Icons::NightAltSprinkle));
    lemma_push_keeps_sorted(s17, (321i32, Icons::NightAltSprinkle));
    let s19 = s18.push((500i32, Icons::NightAltSprinkle));
    lemma_push_keeps_sorted(s18, (500i32, Icons::NightAltSprinkle));
    let s20 = s19.push((501i32, Icons::NightAltRain));
    lemma_push_keeps_sorted(s19, (501i32, Icons::NightAltRain));
    let s21 = s20.push((502i32, Icons::NightAltRain));
    lemma_push_keeps_sorted(s20, (502i32, Icons::NightAltRain));
    let s22 = s21.push((503i32, Icons::NightAltRain));
    lemma_push_keeps_sorted(s21, (503i32, Icons::NightAltRain));
    let s23 = s22.push((504i32, Icons::NightAltRain));
    lemma_push_keeps_sorted(s22, (504i32, Icons::NightAltRain));
    let s24 = s23.push((511i32, Icons::NightAltRainMix));
    lemma_push_keeps_sorted(s23, (511i32, Icons::NightAltRainMix));
    let s25 = s24.push((520i32, Icons::NightAltShowers));
    lemma_push_keeps_sorted(s24, (520i32, Icons::NightAltShowers));
    let s26 = s25.push((521i32, Icons::NightAltShowers));
    lemma_push_keeps_sorted(s25, (521i32, Icons::NightAltShowers));
    let s27 = s26.push((522i32, Icons::NightAltShowers));
    lemma_push_keeps_sorted(s26, (522i32, Icons::NightAltShowers));
    let s28 = s27.push((531i32, Icons::NightAltStormShowers));
    lemma_push_keeps_sorted(s27, (531i32, Icons::NightAltStormShowers));
    let s29 = s28.push((600i32, Icons::NightAltSnow));
    lemma_push_keeps_sorted(s28, (600i32, Icons::NightAltSnow));
    let s30 = s29.push((601i32, Icons::NightAltSleet));
    lemma_push_keeps_sorted(s29, (601i32, Icons::NightAltSleet));
    let s31 = s30.push((602i32, Icons::NightAltSnow));
    lemma_push_keeps_sorted(s30, (602i32, Icons::NightAltSnow));
    let s32 = s31.push((611i32, Icons::NightAltRainMix));
    lemma_push_keeps_sorted(s31, (611i32, Icons::NightAltRainMix));
    let s33 = s32.push((612i32, Icons::NightAltRainMix));
    lemma_push_keeps_sorted(s32, (612i32, Icons::NightAltRainMix));
    let s34 = s33.push((615i32, Icons::NightAltRainMix));
    lemma_push_keeps_sorted(s33, (615i32, Icons::NightAltRainMix));
    let s35 = s34.push((616i32, Icons::NightAltRainMix));
    lemma_push_keeps_sorted(s34, (616i32, Icons::NightAltRainMix));
    let s36 = s35.push((620i32, Icons::NightAltRainMix));
    lemma_push_keeps_sorted(s35, (620i32, Icons::NightAltRainMix));
    let s37 = s36.push((621i32, Icons::NightAltSnow));
    lemma_push_keeps_sorted(s36, (621i32, Icons::NightAltSnow));
    let s38 = s37.push((622i32, Icons::NightAltSnow));
    lemma_push_keeps_sorted(s37, (622i32, Icons::NightAltSnow));
    let s39 = s38.push((701i32, Icons::NightAltShowers));
    lemma_push_keeps_sorted(s38, (701i32, Icons::NightAltShowers));
    let s40 = s39.push((711i32, Icons::Smoke));
    lemma_push_keeps_sorted(s39, (711i32, Icons::Smoke));
    let s41 = s40.push((721i32, Icons::DayHaze));
    lemma_push_keeps_sorted(s40, (721i32, Icons::DayHaze));
    let s42 = s41.push((731i32, Icons::Dust));
    lemma_push_keeps_sorted(s41, (731i32, Icons::Dust));
    let s43 = s42.push((741i32, Icons::NightFog));
    lemma_push_keeps_sorted(s42, (741i32, Icons::NightFog));
    let s44 = s43.push((761i32, Icons::Dust));
    lemma_push_keeps_sorted(s43, (761i32, Icons::Dust));
    let s45 = s44.push((762i32, Icons::Dust));
    lemma_push_keeps_sorted(s44, (762i32, Icons::Dust));
    let s46 = s45.push((781i32, Icons::Tornado));
    lemma_push_keeps_sorted(s45, (781i32, Icons::Tornado));
    let s47 = s46.push((800i32, Icons::NightClear));
    lemma_push_keeps_sorted(s46, (800i32, Icons::NightClear));
    let s48 = s47.push((801i32, Icons::NightAltCloudyGusts));
    lemma_push_keeps_sorted(s47, (801i32, Icons::NightAltCloudyGusts));
    let s49 = s48.push((802i32, Icons::NightAltCloudyGusts));
    lemma_push_keeps_sorted(s48, (802i32, Icons::NightAltCloudyGusts));
    let s50 = s49.push((803i32, Icons::NightAltCloudyGusts));
    lemma_push_keeps_sorted(s49, (803i32, Icons::NightAltCloudyGusts));
    let s51 = s50.push((804i32, Icons::NightAltCloudy));
    lemma_push_keeps_sorted(s50, (804i32, Icons::NightAltCloudy));
    let s52 = s51.push((900i32, Icons::Tornado));
    lemma_push_keeps_sorted(s51, (900i32, Icons::Tornado));
    let s53 = s52.push((902i32, Icons::Hurricane));
    lemma_push_keeps_sorted(s52, (902i32, Icons::Hurricane));
    let s54 = s53.push((903i32, Icons::SnowflakeCold));
    lemma_push_keeps_sorted(s53, (903i32, Icons::SnowflakeCold));
    let s55 = s54.push((904i32, Icons::Hot));
    lemma_push_keeps_sorted(s54, (904i32, Icons::Hot));
    let s56 = s55.push((906i32, Icons::NightAltHail));
    lemma_push_keeps_sorted(s55, (906i32, Icons::NightAltHail));
    let s57 = s56.push((957i32, Icons::StrongWind));
    lemma_push_keeps_sorted(s56, (957i32, Icons::StrongWind));
    assert(s57 =~= night_icons_spec());
}

/// The icon table for day or night.
pub open spec fn icon_table(is_day: bool) -> Seq<(i32, Icons)> {
    if is_day {
        day_icons_spec()
    } else {
        night_icons_spec()
    }
}

/// The icon tables, entry by entry: OpenWeather condition IDs 200 to 957 and
/// the day and night icons drawn for them (e.g. 800 is a clear sky, sunny by
/// day and a clear night; 804 is overcast, sunny-overcast by day and cloudy at
/// night).
pub proof fn lemma_icon_table_entries()
    ensures
        icon_table(true) == seq![
            (200i32, Icons::DayThunderstorm),
            (201i32, Icons::DayThunderstorm),
            (202i32, Icons::DayThunderstorm),
            (210i32, Icons::DayLightning),
            (211i32, Icons::DayLightning),
            (212i32, Icons::DayLightning),
            (221i32, Icons::DayLightning),
            (230i32, Icons::DayThunderstorm),
            (231i32, Icons::DayThunderstorm),
            (232i32, Icons::DayThunderstorm),
            (300i32, Icons::DaySprinkle),
            (301i32, Icons::DaySprinkle),
            (302i32, Icons::DayRain),
            (310i32, Icons::DayRain),
            (311i32, Icons::DayRain),
            (312i32, Icons::DayRain),
            (313i32, Icons::DayRain),
            (314i32, Icons::DayRain),
            (321i32, Icons::DaySprinkle),
            (500i32, Icons::DaySprinkle),
            (501i32, Icons::DayRain),
            (502i32, Icons::DayRain),
            (503i32, Icons::DayRain),
            (504i32, Icons::DayRain),
            (511i32, Icons::DayRainMix),
            (520i32, Icons::DayShowers),
            (521i32, Icons::DayShowers),
            (522i32, Icons::DayShowers),
            (531i32, Icons::DayStormShowers),
            (600i32, Icons::DaySnow),
            (601i32, Icons::DaySleet),
            (602i32, Icons::DaySnow),
            (611i32, Icons::DayRainMix),
            (612i32, Icons::DayRainMix),
            (615i32, Icons::DayRainMix),
            (616i32, Icons::DayRainMix),
            (620i32, Icons::DayRainMix),
            (621i32, Icons::DaySnow),
            (622i32, Icons::DaySnow),
            (701i32, Icons::DayShowers),
            (711i32, Icons::Smoke),
            (721i32, Icons::DayHaze),
            (731i32, Icons::Dust),
            (741i32, Icons::DayFog),
            (761i32, Icons::Dust),
            (762i32, Icons::Dust),
            (781i32, Icons::Tornado),
            (800i32, Icons::DaySunny),
            (801i32, Icons::DayCloudyGusts),
            (802i32, Icons::DayCloudyGusts),
            (803i32, Icons::DayCloudyGusts),
            (804i32, Icons::DaySunnyOvercast),
            (900i32, Icons::Tornado),
            (902i32, Icons::Hurricane),
            (903i32, Icons::SnowflakeCold),
            (904i32, Icons::Hot),
            (906i32, Icons::DayHail),
            (957i32, Icons::StrongWind),
        ],
        icon_table(false) == seq![
            (200i32, Icons::NightAltThunderstorm),
            (201i32, Icons::NightAltThunderstorm),
            (202i32, Icons::NightAltThunderstorm),
            (210i32, Icons::NightAltLightning),
            (211i32, Icons::NightAltLightning),
            (212i32, Icons::NightAltLightning),
            (221i32, Icons::NightAltLightning),
            (230i32, Icons::NightAltThunderstorm),
            (231i32, Icons::NightAltThunderstorm),
            (232i32, Icons::NightAltThunderstorm),
            (300i32, Icons::NightAltSprinkle),
            (301i32, Icons::NightAltSprinkle),
            (302i32, Icons::NightAltRain),
            (310i32, Icons::NightAltRain),
            (311i32, Icons::NightAltRain),
            (312i32, Icons::NightAltRain),
            (313i32, Icons::NightAltRain),
            (314i32, Icons::NightAltRain),
            (321i32, Icons::NightAltSprinkle),
            (500i32, Icons::NightAltSprinkle),
            (501i32, Icons::NightAltRain),
            (502i32, Icons::NightAltRain),
            (503i32, Icons::NightAltRain),
            (504i32, Icons::NightAltRain),
            (511i32, Icons::NightAltRainMix),
            (520i32, Icons::NightAltShowers),
            (521i32, Icons::NightAltShowers),
            (522i32, Icons::NightAltShowers),
            (531i32, Icons::NightAltStormShowers),
            (600i32, Icons::NightAltSnow),
            (601i32, Icons::NightAltSleet),
            (602i32, Icons::NightAltSnow),
            (611i32, Icons::NightAltRainMix),
            (612i32, Icons::NightAltRainMix),
            (615i32, Icons::NightAltRainMix),
            (616i32, Icons::NightAltRainMix),
            (620i32, Icons::NightAltRainMix),
            (621i32, Icons::NightAltSnow),
            (622i32, Icons::NightAltSnow),
            (701i32, Icons::NightAltShowers),
            (711i32, Icons::Smoke),
            (721i32, Icons::DayHaze),
            (731i32, Icons::Dust),
            (741i32, Icons::NightFog),
            (761i32, Icons::Dust),
            (762i32, Icons::Dust),
            (781i32, Icons::Tornado),
            (800i32, Icons::NightClear),
            (801i32, Icons::NightAltCloudyGusts),
            (802i32, Icons::NightAltCloudyGusts),
            (803i32, Icons::NightAltCloudyGusts),
            (804i32, Icons::NightAltCloudy),
            (900i32, Icons::Tornado),
            (902i32, Icons::Hurricane),
            (903i32, Icons::SnowflakeCold),
            (904i32, Icons::Hot),
            (906i32, Icons::NightAltHail),
            (957i32, Icons::StrongWind),
        ],
{
    assert(icon_table(true) =~= seq![
            (200i32, Icons::DayThunderstorm),
            (201i32, Icons::DayThunderstorm),
            (202i32, Icons::DayThunderstorm),
            (210i32, Icons::DayLightning),
            (211i32, Icons::DayLightning),
            (212i32, Icons::DayLightning),
            (221i32, Icons::DayLightning),
            (230i32, Icons::DayThunderstorm),
            (231i32, Icons::DayThunderstorm),
            (232i32, Icons::DayThunderstorm),
            (300i32, Icons::DaySprinkle),
            (301i32, Icons::DaySprinkle),
            (302i32, Icons::DayRain),
            (310i32, Icons::DayRain),
            (311i32, Icons::DayRain),
            (312i32, Icons::DayRain),
            (313i32, Icons::DayRain),
            (314i32, Icons::DayRain),
            (321i32, Icons::DaySprinkle),
            (500i32, Icons::DaySprinkle),
            (501i32, Icons::DayRain),
            (502i32, Icons::DayRain),
            (503i32, Icons::DayRain),
            (504i32, Icons::DayRain),
            (511i32, Icons::DayRainMix),
            (520i32, Icons::DayShowers),
            (521i32, Icons::DayShowers),
            (522i32, Icons::DayShowers),
            (531i32, Icons::DayStormShowers),
            (600i32, Icons::DaySnow),
            (601i32, Icons::DaySleet),
            (602i32, Icons::DaySnow),
            (611i32, Icons::DayRainMix),
            (612i32, Icons::DayRainMix),
            (615i32, Icons::DayRainMix),
            (616i32, Icons::DayRainMix),
            (620i32, Icons::DayRainMix),
            (621i32, Icons::DaySnow),
            (622i32, Icons::DaySnow),
            (701i32, Icons::DayShowers),
            (711i32, Icons::Smoke),
            (721i32, Icons::DayHaze),
            (731i32, Icons::Dust),
            (741i32, Icons::DayFog),
            (761i32, Icons::Dust),
            (762i32, Icons::Dust),
            (781i32, Icons::Tornado),
            (800i32, Icons::DaySunny),
            (801i32, Icons::DayCloudyGusts),
            (802i32, Icons::DayCloudyGusts),
            (803i32, Icons::DayCloudyGusts),
            (804i32, Icons::DaySunnyOvercast),
            (900i32, Icons::Tornado),
            (902i32, Icons::Hurricane),
            (903i32, Icons::SnowflakeCold),
            (904i32, Icons::Hot),
            (906i32, Icons::DayHail),
            (957i32, Icons::StrongWind),
        ]);
    assert(icon_table(false) =~= seq![
            (200i32, Icons::NightAltThunderstorm),
            (201i32, Icons::NightAltThunderstorm),
            (202i32, Icons::NightAltThunderstorm),
            (210i32, Icons::NightAltLightning),
            (211i32, Icons::NightAltLightning),
            (212i32, Icons::NightAltLightning),
            (221i32, Icons::NightAltLightning),
            (230i32, Icons::NightAltThunderstorm),
            (231i32, Icons::NightAltThunderstorm),
            (232i32, Icons::NightAltThunderstorm),
            (300i32, Icons::NightAltSprinkle),
            (301i32, Icons::NightAltSprinkle),
            (302i32, Icons::NightAltRain),
            (310i32, Icons::NightAltRain),
            (311i32, Icons::NightAltRain),
            (312i32, Icons::NightAltRain),
            (313i32, Icons::NightAltRain),
            (314i32, Icons::NightAltRain),
            (321i32, Icons::NightAltSprinkle),
            (500i32, Icons::NightAltSprinkle),
            (501i32, Icons::NightAltRain),
            (502i32, Icons::NightAltRain),
            (503i32, Icons::NightAltRain),
            (504i32, Icons::NightAltRain),
            (511i32, Icons::NightAltRainMix),
            (520i32, Icons::NightAltShowers),
            (521i32, Icons::NightAltShowers),
            (522i32, Icons::NightAltShowers),
            (531i32, Icons::NightAltStormShowers),
            (600i32, Icons::NightAltSnow),
            (601i32, Icons::NightAltSleet),
            (602i32, Icons::NightAltSnow),
            (611i32, Icons::NightAltRainMix),
            (612i32, Icons::NightAltRainMix),
            (615i32, Icons::NightAltRainMix),
            (616i32, Icons::NightAltRainMix),
            (620i32, Icons::NightAltRainMix),
            (621i32, Icons::NightAltSnow),
            (622i32, Icons::NightAltSnow),
            (701i32, Icons::NightAltShowers),
            (711i32, Icons::Smoke),
            (721i32, Icons::DayHaze),
            (731i32, Icons::Dust),
            (741i32, Icons::NightFog),
            (761i32, Icons::Dust),
            (762i32, Icons::Dust),
            (781i32, Icons::Tornado),
            (800i32, Icons::NightClear),
            (801i32, Icons::NightAltCloudyGusts),
            (802i32, Icons::NightAltCloudyGusts),
            (803i32, Icons::NightAltCloudyGusts),
            (804i32, Icons::NightAltCloudy),
            (900i32, Icons::Tornado),
            (902i32, Icons::Hurricane),
            (903i32, Icons::SnowflakeCold),
            (904i32, Icons::Hot),
            (906i32, Icons::NightAltHail),
            (957i32, Icons::StrongWind),
        ]);
}

/// An OpenWeather condition ID that neither icon table lists.
#[derive(Debug)]
pub struct UnknownCondition {
    pub id: i32,
    pub is_day: bool,
}

/// The text of an unknown-condition error.
pub open spec fn unknown_condition_text(id: i32, is_day: bool) -> Seq<char> {
    "Bad OpenWeather condition ID: "@ + signed_decimal(id as int) + ", is_day: "@ + bool_text(
        is_day,
    )
}

/// The error texts: an unknown condition names its ID and whether it was day
/// (`true` or `false`), and an empty list says so.
pub proof fn lemma_weather_error_texts(id: i32, is_day: bool)
    ensures
        unknown_condition_text(id, is_day) == "Bad OpenWeather condition ID: "@ + signed_decimal(
            id as int,
        ) + ", is_day: "@ + (if is_day {
            "true"@
        } else {
            "false"@
        }),
        weather_error_text(WeatherError::EmptyWeatherList)
            == "OpenWeather API returned an empty weather list"@,
        weather_error_text(WeatherError::UnknownCondition(UnknownCondition { id, is_day }))
            == unknown_condition_text(id, is_day),
{
}

impl UnknownCondition {
    /// The error's text: `Bad OpenWeather condition ID: {id}, is_day: {is_day}`.
    pub fn message(&self) -> (s: String)
        ensures
            s@ == unknown_condition_text(self.id, self.is_day),
    {
        let s = String::from_str("Bad OpenWeather condition ID: ").concat(
            i32_string(self.id).as_str(),
        ).concat(", is_day: ").concat(bool_str(self.is_day));
        s
    }
}

/// Finds `id` in a table sorted by key, by binary search.
fn search_table(table: &Vec<(i32, Icons)>, id: i32) -> (found: Option<Icons>)
    requires
        keys_sorted(table@),
    ensures
        found matches Some(icon) ==> exists|i: int| 0 <= i < table@.len() && #[trigger] table@[i] == (id, icon),
        found is None ==> forall|i: int| 0 <= i < table@.len() ==> #[trigger] table@[i].0 != id,
{
    let mut lo: usize = 0;
    let mut hi: usize = table.len();
    while lo < hi
        invariant
            keys_sorted(table@),
            lo <= hi <= table@.len(),
            forall|i: int| 0 <= i < lo ==> #[trigger] table@[i].0 < id,
            forall|i: int| hi <= i < table@.len() ==> #[trigger] table@[i].0 > id,
        decreases hi - lo,
    {
        proof {
            reveal(keys_sorted);
        }
        let mid = lo + (hi - lo) / 2;
        let key = table[mid].0;
        if key == id {
            let icon = table[mid].1;
            assert(table@[mid as int] == (id, icon));
            return Some(icon);
        } else if key < id {
            assert forall|i: int| 0 <= i < mid + 1 implies #[trigger] table@[i].0 < id by {
                if i < mid {
                    assert(table@[i].0 < table@[mid as int].0);
                }
            }
            lo = mid + 1;
        } else {
            assert forall|i: int| mid <= i < table@.len() implies #[trigger] table@[i].0 > id by {
                if i > mid {
                    assert(table@[mid as int].0 < table@[i].0);
                }
            }
            hi = mid;
        }
    }
    None
}

impl Icons {
    /// The icon for OpenWeather condition `id`, by day or by night; an ID that the
    /// table does not list is an error.
    pub fn from_openweather_id(id: i32, is_day: bool) -> (r: Result<Icons, UnknownCondition>)
        ensures
            r matches Ok(icon) ==> exists|i: int|
                0 <= i < icon_table(is_day).len() && #[trigger] icon_table(is_day)[i] == (id, icon),
            r is Err <==> forall|i: int|
                0 <= i < icon_table(is_day).len() ==> #[trigger] icon_table(is_day)[i].0 != id,
            r matches Err(e) ==> e.id == id && e.is_day == is_day,
    {
        proof {
            lemma_icon_tables_sorted();
        }
        let table = if is_day {
            day_icons()
        } else {
            night_icons()
        };
        assert(table@ == icon_table(is_day));
        match search_table(&table, id) {
            Some(icon) => {
                proof {
                    let i = choose|i: int| 0 <= i < table@.len() && #[trigger] table@[i] == (id, icon);
                    assert(icon_table(is_day)[i].0 == id);
                }
                Ok(icon)
            },
            None => Err(UnknownCondition { id, is_day }),
        }
    }
}

/// The sun is up at `dt`: it lies between sunrise (included) and sunset.
pub fn is_daytime(sunrise: i64, sunset: i64, dt: i64) -> (day: bool)
    ensures
        day == (sunrise <= dt && dt < sunset),
{
    sunrise <= dt && dt < sunset
}

/// One weather condition of a report.
#[derive(Debug)]
pub struct Weather {
    pub id: i32,
    pub description: String,
}

/// Why a weather report could not be shown.
#[derive(Debug)]
pub enum WeatherError {
    /// The report lists no weather condition.
    EmptyWeatherList,
    /// The first condition has no icon.
    UnknownCondition(UnknownCondition),
}

/// The text of a weather-report error.
pub open spec fn weather_error_text(e: WeatherError) -> Seq<char> {
    match e {
        WeatherError::EmptyWeatherList => "OpenWeather API returned an empty weather list"@,
        WeatherError::UnknownCondition(c) => unknown_condition_text(c.id, c.is_day),
    }
}

impl WeatherError {
    /// The error's text.
    pub fn message(&self) -> (s: String)
        ensures
            s@ == weather_error_text(*self),
    {
        match self {
            WeatherError::EmptyWeatherList => String::from_str(
                "OpenWeather API returned an empty weather list",
            ),
            WeatherError::UnknownCondition(c) => c.message(),
        }
    }
}

/// What the display shows of a weather report, before the icon is decoded.
#[derive(Debug)]
pub struct WeatherReport {
    pub icon: Icons,
    pub description: String,
    pub pressure: i32,
}

/// The current weather as the display shows it.
pub struct OpenWeatherData {
    pub icon: AlignedImage,
    pub description: String,
    pub pressure: i32,
}

/// `id` is listed in `table` with `icon`.
pub open spec fn listed(table: Seq<(i32, Icons)>, id: i32, icon: Icons) -> bool {
    exists|i: int| 0 <= i < table.len() && #[trigger] table[i] == (id, icon)
}

/// `id` is listed in `table`.
pub open spec fn has_id(table: Seq<(i32, Icons)>, id: i32) -> bool {
    exists|i: int| 0 <= i < table.len() && #[trigger] table[i].0 == id
}

/// What the display shows of a report: the first weather condition, with the
/// day or night icon for its ID (day when `dt` lies between sunrise and sunset),
/// its description, and the pressure.
pub fn weather_report(weather: Vec<Weather>, pressure: i32, dt: i64, sunrise: i64, sunset: i64) -> (r:
    Result<WeatherReport, WeatherError>)
    ensures
        weather@.len() == 0 ==> r matches Err(WeatherError::EmptyWeatherList),
        weather@.len() > 0 ==> (r is Ok <==> has_id(
            icon_table(sunrise <= dt < sunset),
            weather@[0].id,
        )),
        weather@.len() > 0 && !has_id(icon_table(sunrise <= dt < sunset), weather@[0].id) ==> (
        r matches Err(WeatherError::UnknownCondition(e)) && e.id == weather@[0].id && e.is_day == (
        sunrise <= dt < sunset)),
        r matches Ok(rep) ==> weather@.len() > 0 && listed(
            icon_table(sunrise <= dt < sunset),
            weather@[0].id,
            rep.icon,
        ) && rep.description == weather@[0].description && rep.pressure == pressure,
{
    if weather.len() == 0 {
        return Err(WeatherError::EmptyWeatherList);
    }
    let mut weather = weather;
    let first = weather.remove(0);
    let day = is_daytime(sunrise, sunset, dt);
    match Icons::from_openweather_id(first.id, day) {
        Ok(icon) => Ok(WeatherReport { icon, description: first.description, pressure }),
        Err(e) => {
            proof {
                assert forall|i: int| 0 <= i < icon_table(day).len() implies #[trigger] icon_table(day)[i].0 != first.id by {}
            }
            Err(WeatherError::UnknownCondition(e))
        },
    }
}

} // verus!
