//! Theme manager: the system light/dark appearance and the dynamic tray icon.
//!
//! The last known scheme and the dynamic-tray-icon setting live in a
//! [`ThemeCache`]; the host application owns one cache, seeds it from a live
//! window at startup, feeds it every theme-changed event and asks it which
//! tray icon to show.

use vstd::prelude::*;

verus! {

/// The system appearance as the windowing layer reports it.
#[derive(Debug, Clone, Copy, PartialEq, Eq, Structural)]
pub enum Theme {
    /// Light appearance
    Light,
    /// Dark appearance
    Dark,
    /// An appearance without a name here (the windowing layer may add
    /// appearances in later versions).
    Other,
}

/// System color scheme. Wire-compatible with the frontend `ColorScheme` type
/// (`'nopreference' | 'dark' | 'light'`). The backend only ever reports Dark
/// or Light; NoPreference is the pre-seed / no-window fallback.
#[derive(Debug, Clone, Copy, PartialEq, Eq, Structural)]
pub enum ColorScheme {
    /// No preference / unknown yet
    NoPreference,
    /// Dark appearance
    Dark,
    /// Light appearance
    Light,
}

/// The one-byte encoding of a scheme: 0 = NoPreference, 1 = Dark, 2 = Light.
pub open spec fn scheme_code(scheme: ColorScheme) -> u8 {
    match scheme {
        ColorScheme::NoPreference => 0,
        ColorScheme::Dark => 1,
        ColorScheme::Light => 2,
    }
}

/// Decoding of a byte: 1 is Dark, 2 is Light, every other byte NoPreference.
pub open spec fn scheme_of_code(v: u8) -> ColorScheme {
    if v == 1 {
        ColorScheme::Dark
    } else if v == 2 {
        ColorScheme::Light
    } else {
        ColorScheme::NoPreference
    }
}

/// The scheme a system theme stands for: Dark for Dark, Light for anything else.
pub open spec fn scheme_of_theme(theme: Theme) -> ColorScheme {
    match theme {
        Theme::Dark => ColorScheme::Dark,
        _ => ColorScheme::Light,
    }
}

/// What the last attempt to read a live window's theme gave.
#[derive(Debug, Clone, Copy, PartialEq, Eq, Structural)]
pub enum WindowTheme {
    /// No webview window was available.
    NoWindow,
    /// A window was found but its theme could not be read.
    Unreadable,
    /// The window reported this theme.
    Read(Theme),
}

/// The scheme that a window reading stands for: NoPreference only when there
/// was no window; a present window always gives Dark or Light, and one whose
/// theme could not be read counts as Light (like an appearance without a
/// name).
pub open spec fn scheme_of_window(reading: WindowTheme) -> ColorScheme {
    match reading {
        WindowTheme::Read(theme) => scheme_of_theme(theme),
        WindowTheme::Unreadable => ColorScheme::Light,
        WindowTheme::NoWindow => ColorScheme::NoPreference,
    }
}

impl ColorScheme {
    /// Map the system `Theme` to a `ColorScheme`; anything that isn't Dark is
    /// treated as Light.
    pub fn from_theme(theme: Theme) -> (r: Self)
        ensures
            r == scheme_of_theme(theme),
    {
        match theme {
            Theme::Dark => ColorScheme::Dark,
            _ => ColorScheme::Light,
        }
    }

    /// The one-byte encoding of this scheme.
    pub fn to_u8(self) -> (r: u8)
        ensures
            r == scheme_code(self),
    {
        match self {
            ColorScheme::NoPreference => 0,
            ColorScheme::Dark => 1,
            ColorScheme::Light => 2,
        }
    }

    /// Decode a byte; bytes other than 1 and 2 decode to NoPreference.
    pub fn from_u8(v: u8) -> (r: Self)
        ensures
            r == scheme_of_code(v),
    {
        match v {
            1 => ColorScheme::Dark,
            2 => ColorScheme::Light,
            _ => ColorScheme::NoPreference,
        }
    }

    /// Whether this scheme represents dark mode
    pub fn is_dark(&self) -> (r: bool)
        ensures
            r <==> *self == ColorScheme::Dark,
    {
        match self {
            ColorScheme::Dark => true,
            _ => false,
        }
    }
}

/// Response from theme detection.
#[derive(Debug, Clone)]
pub struct ThemeInfo {
    /// The detected color scheme
    pub color_scheme: ColorScheme,
    /// Whether dark mode is preferred
    pub prefers_dark: bool,
    /// Source of the detection (for debugging)
    pub source: String,
}

impl ThemeInfo {
    /// This info reports `scheme`, detected by `source`, and prefers dark
    /// exactly when the scheme is Dark.
    pub open spec fn describes(self, scheme: ColorScheme, source: Seq<char>) -> bool {
        &&& self.color_scheme == scheme
        &&& self.prefers_dark == (scheme == ColorScheme::Dark)
        &&& self.source@ == source
    }

    /// Build the info for `scheme`, tagged with `source`.
    pub fn from_scheme(scheme: ColorScheme, source: &str) -> (info: Self)
        ensures
            info.describes(scheme, source@),
    {
        ThemeInfo { color_scheme: scheme, prefers_dark: scheme.is_dark(), source: source.to_owned() }
    }
}

/// The source tag of the cached scheme: "default" before any appearance was
/// seen, "macos-appearance" once one was.
pub open spec fn source_of(scheme: ColorScheme) -> Seq<char> {
    if scheme == ColorScheme::NoPreference {
        "default"@
    } else {
        "macos-appearance"@
    }
}

/// The last known system scheme (in its one-byte encoding) and the cached
/// dynamic-tray-icon setting.
pub struct ThemeCache {
    current_scheme: u8,
    dynamic_icon_enabled: bool,
}

impl ThemeCache {
    /// The cached byte.
    pub closed spec fn code(self) -> u8 {
        self.current_scheme
    }

    /// The cached scheme.
    pub closed spec fn scheme(self) -> ColorScheme {
        scheme_of_code(self.current_scheme)
    }

    /// The cached dynamic-tray-icon setting.
    pub closed spec fn dynamic_icon(self) -> bool {
        self.dynamic_icon_enabled
    }

    /// A fresh cache: no scheme seen yet, dynamic tray icon off.
    pub fn new() -> (cache: Self)
        ensures
            cache.code() == 0,
            cache.scheme() == ColorScheme::NoPreference,
            !cache.dynamic_icon(),
    {
        ThemeCache { current_scheme: 0, dynamic_icon_enabled: false }
    }

    /// The cached dynamic-tray-icon setting.
    pub fn dynamic_icon_enabled(&self) -> (r: bool)
        ensures
            r == self.dynamic_icon(),
    {
        self.dynamic_icon_enabled
    }
}

/// `after` is `before` primed with the scheme of a window `reading`, and
/// `info` reports that scheme.
pub open spec fn seeded(before: ThemeCache, after: ThemeCache, reading: WindowTheme, info: ThemeInfo) -> bool {
    &&& after.scheme() == scheme_of_window(reading)
    &&& after.code() == scheme_code(scheme_of_window(reading))
    &&& after.dynamic_icon() == before.dynamic_icon()
    &&& info.describes(scheme_of_window(reading), source_of(scheme_of_window(reading)))
}

/// `after` is `before` once `theme` was reported: it holds the theme's
/// scheme and keeps the tray setting; `change` is `None` exactly when the
/// scheme was already cached, and otherwise reports the new scheme as seen
/// from the system appearance.
pub open spec fn theme_change_applied(
    before: ThemeCache,
    after: ThemeCache,
    theme: Theme,
    change: Option<ThemeInfo>,
) -> bool {
    &&& after.scheme() == scheme_of_theme(theme)
    &&& after.code() == scheme_code(scheme_of_theme(theme))
    &&& after.dynamic_icon() == before.dynamic_icon()
    &&& (change is None <==> before.scheme() == scheme_of_theme(theme))
    &&& (change matches Some(info) ==> info.describes(scheme_of_theme(theme), "macos-appearance"@))
}

/// Read the last known system color scheme from the cache.
pub fn get_system_color_scheme(cache: &ThemeCache) -> (info: ThemeInfo)
    ensures
        info.describes(cache.scheme(), source_of(cache.scheme())),
{
    let scheme = ColorScheme::from_u8(cache.current_scheme);
    let source = if scheme == ColorScheme::NoPreference {
        "default"
    } else {
        "macos-appearance"
    };
    ThemeInfo::from_scheme(scheme, source)
}

/// The scheme of a live window's reading: the window's theme when it could
/// be read, Light when its theme failed, NoPreference when there was no
/// window.
pub fn read_window_scheme(reading: WindowTheme) -> (r: ColorScheme)
    ensures
        r == scheme_of_window(reading),
        reading is NoWindow <==> r == ColorScheme::NoPreference,
{
    match reading {
        WindowTheme::Read(theme) => ColorScheme::from_theme(theme),
        WindowTheme::Unreadable => ColorScheme::Light,
        WindowTheme::NoWindow => ColorScheme::NoPreference,
    }
}

/// Prime the cache with the scheme read from a live window, and report it.
pub fn seed_from_window(cache: &mut ThemeCache, reading: WindowTheme) -> (info: ThemeInfo)
    ensures
        seeded(*old(cache), *final(cache), reading, info),
{
    let scheme = read_window_scheme(reading);
    cache.current_scheme = scheme.to_u8();
    get_system_color_scheme(cache)
}

/// Handle a theme-changed event: store the new scheme, and when it differs
/// from the cached one return the info to announce (and whose `prefers_dark`
/// picks the new tray icon); `None` when nothing changed.
pub fn apply_theme_change(cache: &mut ThemeCache, theme: Theme) -> (change: Option<ThemeInfo>)
    ensures
        theme_change_applied(*old(cache), *final(cache), theme, change),
{
    let scheme = ColorScheme::from_theme(theme);
    let previous: u8 = cache.current_scheme;
    cache.current_scheme = scheme.to_u8();
    if previous == scheme.to_u8() {
        return None;
    }
    Some(ThemeInfo::from_scheme(scheme, "macos-appearance"))
}

/// Update the cached dynamic tray icon setting.
pub fn update_dynamic_tray_flag(cache: &mut ThemeCache, enabled: bool)
    ensures
        final(cache).dynamic_icon() == enabled,
        final(cache).scheme() == old(cache).scheme(),
        final(cache).code() == old(cache).code(),
{
    cache.dynamic_icon_enabled = enabled;
}

/// The three tray icon images the application ships.
pub struct TrayIcons {
    /// The regular application icon.
    pub default_icon: Vec<u8>,
    /// The light glyph, shown on a dark menu bar.
    pub light_icon: Vec<u8>,
    /// The dark glyph, shown on a light menu bar.
    pub dark_icon: Vec<u8>,
}

/// The icon to show: with the dynamic tray icon on, the light glyph in dark
/// mode and the dark glyph otherwise; with it off, the regular icon.
pub open spec fn icon_for(icons: TrayIcons, enable_dynamic: bool, is_dark: bool) -> Seq<u8> {
    if enable_dynamic {
        if is_dark {
            icons.light_icon@
        } else {
            icons.dark_icon@
        }
    } else {
        icons.default_icon@
    }
}

/// The bytes of the tray icon that fits the setting and the appearance.
pub fn get_icon_bytes<'a>(icons: &'a TrayIcons, enable_dynamic: bool, is_dark: bool) -> (r: &'a [u8])
    ensures
        r@ == icon_for(*icons, enable_dynamic, is_dark),
{
    if enable_dynamic {
        if is_dark {
            icons.light_icon.as_slice()
        } else {
            icons.dark_icon.as_slice()
        }
    } else {
        icons.default_icon.as_slice()
    }
}

/// The icon at startup: the regular icon, not yet dynamic (the `false`).
pub fn initial_tray_icon<'a>(icons: &'a TrayIcons) -> (r: (&'a [u8], bool))
    ensures
        r.0@ == icons.default_icon@,
        !r.1,
{
    (icons.default_icon.as_slice(), false)
}

/// The icon to show for `is_dark` under the cached dynamic-tray-icon setting.
pub fn update_tray_icon<'a>(cache: &ThemeCache, icons: &'a TrayIcons, is_dark: bool) -> (r: &'a [u8])
    ensures
        r@ == icon_for(*icons, cache.dynamic_icon(), is_dark),
{
    get_icon_bytes(icons, cache.dynamic_icon_enabled, is_dark)
}

/// The icon to show for the cached scheme under the given setting (used
/// after a settings change).
pub fn refresh_tray_icon<'a>(cache: &ThemeCache, icons: &'a TrayIcons, enable_dynamic_tray_icon: bool) -> (r: &'a [u8])
    ensures
        r@ == icon_for(*icons, enable_dynamic_tray_icon, cache.scheme() == ColorScheme::Dark),
{
    let is_dark = get_system_color_scheme(cache).prefers_dark;
    get_icon_bytes(icons, enable_dynamic_tray_icon, is_dark)
}

// --- Laws ---

/// The scheme a cache reports is the decoding of the byte it holds.
pub proof fn lemma_scheme_is_decoded_code(cache: ThemeCache)
    ensures
        cache.scheme() == scheme_of_code(cache.code()),
{
}

/// Encoding a scheme as a byte and decoding the byte gives the scheme back.
pub proof fn lemma_code_roundtrip(scheme: ColorScheme)
    ensures
        scheme_of_code(scheme_code(scheme)) == scheme,
{
}

/// Decoding a byte and encoding the scheme gives back 0, 1 and 2; every
/// other byte decodes to NoPreference.
pub proof fn lemma_code_decode(v: u8)
    ensures
        v <= 2 ==> scheme_code(scheme_of_code(v)) == v,
        v > 2 ==> scheme_of_code(v) == ColorScheme::NoPreference,
{
}

/// The documented encoding: 0 = NoPreference, 1 = Dark, 2 = Light.
pub proof fn lemma_code_values()
    ensures
        scheme_code(ColorScheme::NoPreference) == 0,
        scheme_code(ColorScheme::Dark) == 1,
        scheme_code(ColorScheme::Light) == 2,
{
}

/// A theme change is announced exactly when the scheme it reports differs
/// from the cached one, that is exactly when the cached byte changes.
pub proof fn lemma_change_announced_iff_scheme_differs(
    before: ThemeCache,
    after: ThemeCache,
    theme: Theme,
    change: Option<ThemeInfo>,
)
    requires
        theme_change_applied(before, after, theme, change),
    ensures
        change is Some <==> before.scheme() != scheme_of_theme(theme),
        change is Some <==> before.code() != after.code(),
        change is Some <==> scheme_of_code(before.code()) != scheme_of_theme(theme),
{
}

/// A window reading stands for the theme the window reported; a window whose
/// theme could not be read counts as an appearance without a name; only the
/// absence of a window leaves the scheme at NoPreference.
pub proof fn lemma_window_scheme(reading: WindowTheme)
    ensures
        reading matches WindowTheme::Read(theme) ==> scheme_of_window(reading) == scheme_of_theme(theme),
        reading is Unreadable ==> scheme_of_window(reading) == scheme_of_theme(Theme::Other),
        scheme_of_window(reading) == ColorScheme::NoPreference <==> reading is NoWindow,
{
}

/// A system theme never maps to NoPreference, and maps to Dark exactly when
/// it is Dark.
pub proof fn lemma_theme_scheme(theme: Theme)
    ensures
        scheme_of_theme(theme) != ColorScheme::NoPreference,
        scheme_of_theme(theme) == ColorScheme::Dark <==> theme == Theme::Dark,
{
}

/// What seeding reports is what a later read of the cache returns.
pub proof fn lemma_seed_then_read(
    before: ThemeCache,
    after: ThemeCache,
    reading: WindowTheme,
    reported: ThemeInfo,
    read: ThemeInfo,
)
    requires
        seeded(before, after, reading, reported),
        read.describes(after.scheme(), source_of(after.scheme())),
    ensures
        read.color_scheme == reported.color_scheme,
        read.prefers_dark == reported.prefers_dark,
        read.source@ == reported.source@,
{
}

/// What a theme change announces is what a later read of the cache returns.
pub proof fn lemma_change_then_read(
    before: ThemeCache,
    after: ThemeCache,
    theme: Theme,
    announced: ThemeInfo,
    read: ThemeInfo,
)
    requires
        theme_change_applied(before, after, theme, Some(announced)),
        read.describes(after.scheme(), source_of(after.scheme())),
    ensures
        read.color_scheme == announced.color_scheme,
        read.prefers_dark == announced.prefers_dark,
        read.source@ == announced.source@,
{
}

/// Reporting the same theme twice in a row announces nothing the second
/// time and leaves the cache's scheme and setting as they were.
pub proof fn lemma_repeated_change_is_silent(
    first: ThemeCache,
    second: ThemeCache,
    third: ThemeCache,
    theme: Theme,
    change1: Option<ThemeInfo>,
    change2: Option<ThemeInfo>,
)
    requires
        theme_change_applied(first, second, theme, change1),
        theme_change_applied(second, third, theme, change2),
    ensures
        change2 is None,
        third.scheme() == second.scheme(),
        third.dynamic_icon() == second.dynamic_icon(),
{
}

/// After a theme change, the icon swapped in for the announced appearance is
/// the icon that a later refresh of the tray shows, under any setting.
pub proof fn lemma_change_icon_matches_refresh(
    before: ThemeCache,
    after: ThemeCache,
    theme: Theme,
    announced: ThemeInfo,
    icons: TrayIcons,
    enable_dynamic: bool,
)
    requires
        theme_change_applied(before, after, theme, Some(announced)),
    ensures
        icon_for(icons, enable_dynamic, announced.prefers_dark) == icon_for(
            icons,
            enable_dynamic,
            after.scheme() == ColorScheme::Dark,
        ),
{
}

/// With the dynamic tray icon off the tray shows the regular icon whatever
/// the appearance; with it on, the light and dark appearances get the two
/// glyphs.
pub proof fn lemma_icon_choice(icons: TrayIcons, is_dark: bool)
    ensures
        icon_for(icons, false, is_dark) == icons.default_icon@,
        icon_for(icons, true, true) == icons.light_icon@,
        icon_for(icons, true, false) == icons.dark_icon@,
{
}

} // verus!
