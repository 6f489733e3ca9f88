//! Manifest generator: serializes the application metadata into the
//! standard installable-web-app descriptor text.

use vstd::prelude::*;

verus! {

/// The preferred display mode of the installed application.
#[derive(Clone, Copy, Debug, PartialEq, Eq, Structural)]
pub enum DisplayMode {
    Fullscreen,
    Standalone,
    MinimalUi,
    Browser,
}

/// The keyword under which the descriptor format writes a display mode.
pub open spec fn display_keyword(d: DisplayMode) -> Seq<char> {
    match d {
        DisplayMode::Fullscreen => "full-screen"@,
        DisplayMode::Standalone => "standalone"@,
        DisplayMode::MinimalUi => "minimal-ui"@,
        DisplayMode::Browser => "browser"@,
    }
}

/// One entry of the descriptor's icon list: an image source path and its
/// size descriptor.
pub struct Icon {
    pub src: String,
    pub sizes: String,
}

impl Icon {
    /// An icon entry with the given source path and sizes.
    pub fn new(src: String, sizes: String) -> (r: Icon)
        ensures
            r.src@ == src@,
            r.sizes@ == sizes@,
    {
        Icon { src, sizes }
    }
}

/// The icon list as pairs of character sequences, in configuration
/// order.
pub open spec fn icons_view(icons: Seq<Icon>) -> Seq<(Seq<char>, Seq<char>)> {
    icons.map_values(|i: Icon| (i.src@, i.sizes@))
}

/// Failure of the descriptor serializer: no descriptor text exists.
#[derive(Clone, Copy, Debug, PartialEq, Eq, Structural)]
pub struct ManifestError;

/// The serialized installable-web-app descriptor for the given metadata:
/// application name, description, background color, theme color, start
/// path, display keyword, and the icon list in order. A function of the
/// metadata alone; its exact text is fixed by the descriptor serializer.
pub uninterp spec fn manifest_text_of(
    name: Seq<char>,
    desc: Seq<char>,
    background: Seq<char>,
    theme: Seq<char>,
    start: Seq<char>,
    display: Seq<char>,
    icons: Seq<(Seq<char>, Seq<char>)>,
) -> Seq<char>;

/// Relies on webmanifest's Manifest builder and Icon: the descriptor is
/// serialized from exactly the given fields and icons, in order, and is
/// a function of them alone. Building always succeeds here: webmanifest
/// serializes a struct of plain strings, enumerations and lists, on
/// which its serializer has no failing path.
#[verifier::external_body]
pub(crate) fn webmanifest_build(
    name: &str,
    desc: &str,
    background: &str,
    theme: &str,
    start: &str,
    display: &DisplayMode,
    icons: &Vec<Icon>,
) -> (r: Result<String, ManifestError>)
    ensures
        r is Ok,
        r matches Ok(s) ==> s@ == manifest_text_of(
            name@,
            desc@,
            background@,
            theme@,
            start@,
            display_keyword(*display),
            icons_view(icons@),
        ),
{
    let mode = match display {
        DisplayMode::Fullscreen => webmanifest::DisplayMode::FullScreen,
        DisplayMode::Standalone => webmanifest::DisplayMode::Standalone,
        DisplayMode::MinimalUi => webmanifest::DisplayMode::MinimalUi,
        DisplayMode::Browser => webmanifest::DisplayMode::Browser,
    };
    let entries: Vec<webmanifest::Icon> =
        icons.iter().map(|i| webmanifest::Icon::new(&i.src, &i.sizes)).collect();
    let mut builder = webmanifest::Manifest::builder(name).description(desc).bg_color(background)
        .theme_color(theme).start_url(start).display_mode(mode);
    for entry in &entries {
        builder = builder.icon(entry);
    }
    builder.build().map_err(|_| ManifestError)
}

/// The descriptor is deterministic: serializing equal metadata twice
/// yields character-identical texts.
pub proof fn lemma_manifest_deterministic(
    name1: Seq<char>,
    name2: Seq<char>,
    desc1: Seq<char>,
    desc2: Seq<char>,
    background1: Seq<char>,
    background2: Seq<char>,
    theme1: Seq<char>,
    theme2: Seq<char>,
    start1: Seq<char>,
    start2: Seq<char>,
    display1: DisplayMode,
    display2: DisplayMode,
    icons1: Seq<(Seq<char>, Seq<char>)>,
    icons2: Seq<(Seq<char>, Seq<char>)>,
)
    requires
        name1 == name2,
        desc1 == desc2,
        background1 == background2,
        theme1 == theme2,
        start1 == start2,
        display1 == display2,
        icons1 == icons2,
    ensures
        manifest_text_of(
            name1,
            desc1,
            background1,
            theme1,
            start1,
            display_keyword(display1),
            icons1,
        ) == manifest_text_of(
            name2,
            desc2,
            background2,
            theme2,
            start2,
            display_keyword(display2),
            icons2,
        ),
{
}

} // verus!
