//! The inventory of installed applications, each with an icon where the icon
//! theme has one.
//!
//! The caller reads the installed applications and renders their icons; what
//! it found goes into [`DesktopEntry`] values, and [`Apps::new`] decides which
//! of them become part of the inventory.

use vstd::prelude::*;
use vstd::string::*;
use std::path::PathBuf;
use crate::text::{same_ignoring_ascii_case, str_eq_ignore_ascii_case};

verus! {

/// A path of the file system, carried through as the caller gave it.
#[verifier::external_type_specification]
#[verifier::external_body]
pub struct ExPathBuf(std::path::PathBuf);

/// The width and the height, in pixels, at which icons are rendered.
pub const ICON_SIZE: u32 = 128;

/// The name of the icon that stands in for an icon the theme does not have.
pub fn fallback_icon_name() -> (name: &'static str)
    ensures
        name@ == "info"@,
{
    "info"
}

/// Whether `len` bytes are enough for an image of the given size with four
/// bytes to the pixel.
pub open spec fn icon_fits(width: u32, height: u32, len: nat) -> bool {
    4 * ((width as nat) * (height as nat)) <= len
}

/// A raster image: rows of pixels from the top, each pixel as red, green,
/// blue and alpha.
#[derive(Debug, Clone, PartialEq, Eq)]
pub struct Icon {
    width: u32,
    height: u32,
    pixels: Vec<u8>,
}

/// What an [`Icon`] holds.
pub struct IconView {
    pub width: u32,
    pub height: u32,
    pub pixels: Seq<u8>,
}

impl View for Icon {
    type V = IconView;

    closed spec fn view(&self) -> IconView {
        IconView { width: self.width, height: self.height, pixels: self.pixels@ }
    }
}

impl Icon {
    /// Whether the icon has the bytes that its size asks for.
    pub open spec fn well_formed(&self) -> bool {
        icon_fits(self@.width, self@.height, self@.pixels.len())
    }

    /// Makes an icon of the given size from its bytes, if they are enough;
    /// bytes beyond those that the size asks for are kept and not shown.
    pub fn from_rgba(width: u32, height: u32, pixels: Vec<u8>) -> (icon: Option<Icon>)
        ensures
            match icon {
                Some(i) => icon_fits(width, height, pixels@.len()) && i@ == (IconView {
                    width,
                    height,
                    pixels: pixels@,
                }) && i.well_formed(),
                None => !icon_fits(width, height, pixels@.len()),
            },
    {
        assert((width as nat) * (height as nat) <= 0xFFFF_FFFF * 0xFFFF_FFFF) by (nonlinear_arith)
            requires
                width <= 0xFFFF_FFFF,
                height <= 0xFFFF_FFFF,
        ;
        let area: u64 = width as u64 * height as u64;
        let needed: u128 = 4 * (area as u128);
        if needed <= pixels.len() as u128 {
            Some(Icon { width, height, pixels })
        } else {
            None
        }
    }

    /// The icon's width in pixels.
    pub fn width(&self) -> (width: u32)
        ensures
            width == self@.width,
    {
        self.width
    }

    /// The icon's height in pixels.
    pub fn height(&self) -> (height: u32)
        ensures
            height == self@.height,
    {
        self.height
    }

    /// The icon's bytes.
    pub fn pixels(&self) -> (pixels: &Vec<u8>)
        ensures
            pixels@ == self@.pixels,
    {
        &self.pixels
    }
}

/// The base64 text of a sequence of bytes: standard alphabet, with padding.
pub uninterp spec fn base64_text(bytes: Seq<u8>) -> Seq<char>;

/// The PNG file of an image of the given size and bytes, where there is one.
pub uninterp spec fn png_of_rgba(width: u32, height: u32, pixels: Seq<u8>) -> Option<Seq<u8>>;

/// Whether the base64 text of `len` bytes has a length that the machine can
/// count.
pub open spec fn base64_fits(len: nat) -> bool {
    len / 3 * 4 + 4 <= usize::MAX
}

/// Encodes bytes as base64.
///
/// Calls `base64::encode`, which encodes with the standard alphabet and
/// padding and depends on the bytes alone: its result is named, not spelled
/// out. It panics where the length of the text overflows `usize`, which the
/// precondition rules out.
#[verifier::external_body]
#[allow(deprecated)]
fn base64_encode(bytes: &Vec<u8>) -> (text: String)
    requires
        base64_fits(bytes@.len()),
    ensures
        text@ == base64_text(bytes@),
{
    base64::encode(bytes)
}

/// Encodes an image as a PNG file.
///
/// Builds an `image::RgbaImage` with `from_vec`, which gives an image only
/// if the bytes are enough for the size, and writes it with
/// `ImageBuffer::write_to` in the PNG format into memory. The file depends on
/// the size and the bytes alone: it is named, not spelled out, and so is
/// whether the writing gives one.
#[verifier::external_body]
fn encode_png(width: u32, height: u32, pixels: &Vec<u8>) -> (png: Option<Vec<u8>>)
    ensures
        match png {
            Some(bytes) => png_of_rgba(width, height, pixels@) == Some(bytes@) && icon_fits(
                width,
                height,
                pixels@.len(),
            ),
            None => png_of_rgba(width, height, pixels@) is None,
        },
{
    let picture = image::RgbaImage::from_vec(width, height, pixels.clone())?;
    let mut bytes: Vec<u8> = Vec::new();
    let mut sink = std::io::Cursor::new(&mut bytes);
    picture.write_to(&mut sink, image::ImageOutputFormat::Png).ok()?;
    Some(bytes)
}

/// The address that holds a PNG file in itself.
pub open spec fn data_uri_of(png: Seq<u8>) -> Seq<char> {
    "data:image/png;base64,"@ + base64_text(png)
}

/// Writes a PNG file as an address that holds the file in itself: the
/// prefix `data:image/png;base64,` and the file in base64.
pub fn data_uri(png: &Vec<u8>) -> (uri: String)
    requires
        base64_fits(png@.len()),
    ensures
        uri@ == data_uri_of(png@),
{
    let mut uri = String::from_str("data:image/png;base64,");
    let text = base64_encode(png);
    uri.append(text.as_str());
    uri
}

/// The address that holds an icon in itself, where the icon has a PNG file
/// whose base64 text the machine can count.
pub open spec fn icon_uri(icon: IconView) -> Option<Seq<char>> {
    match png_of_rgba(icon.width, icon.height, icon.pixels) {
        Some(png) => if base64_fits(png.len()) {
            Some(data_uri_of(png))
        } else {
            None
        },
        None => None,
    }
}

/// One installed application.
#[derive(Debug, PartialEq, Eq)]
pub struct App {
    pub name: String,
    pub description: Option<String>,
    pub icon: Option<Icon>,
    pub executable: PathBuf,
}

/// What an [`App`] holds, with each string as its characters.
pub struct AppView {
    pub name: Seq<char>,
    pub description: Option<Seq<char>>,
    pub icon: Option<IconView>,
    pub executable: PathBuf,
}

/// The characters of a string that may be missing.
pub open spec fn optional_view(text: Option<String>) -> Option<Seq<char>> {
    match text {
        Some(s) => Some(s@),
        None => None,
    }
}

impl View for App {
    type V = AppView;

    open spec fn view(&self) -> AppView {
        AppView {
            name: self.name@,
            description: optional_view(self.description),
            icon: match self.icon {
                Some(i) => Some(i@),
                None => None,
            },
            executable: self.executable,
        }
    }
}

/// The index of the first name that matches `name` when the case of ASCII
/// letters is ignored, counted from `from`.
pub open spec fn first_match(names: Seq<String>, name: Seq<char>, from: int) -> Option<int>
    decreases names.len() - from,
{
    if from < 0 || from >= names.len() {
        None
    } else if same_ignoring_ascii_case(names[from]@, name) {
        Some(from)
    } else {
        first_match(names, name, from + 1)
    }
}

impl App {
    pub fn get_name(&self) -> (name: &String)
        ensures
            name == self.name,
    {
        &self.name
    }

    pub fn get_description(&self) -> (description: &Option<String>)
        ensures
            description == self.description,
    {
        &self.description
    }

    pub fn get_icon(&self) -> (icon: &Option<Icon>)
        ensures
            icon == self.icon,
    {
        &self.icon
    }

    /// The application's icon as an address that holds a PNG file in itself.
    /// There is none for an application without an icon, and none for an
    /// icon that cannot be written as such an address.
    pub fn get_base64_icon(&self) -> (uri: Option<String>)
        ensures
            match self.icon {
                Some(icon) => optional_view(uri) == icon_uri(icon@),
                None => uri is None,
            },
    {
        match &self.icon {
            Some(icon) => {
                match encode_png(icon.width(), icon.height(), icon.pixels()) {
                    Some(png) => {
                        if png.len() / 3 <= (usize::MAX - 4) / 4 {
                            Some(data_uri(&png))
                        } else {
                            None
                        }
                    },
                    None => None,
                }
            },
            None => None,
        }
    }

    /// Chooses, among the names of the installed applications, the one to
    /// launch for this application: the first that matches its name when
    /// the case of ASCII letters is ignored.
    pub fn launch(&self, installed: &Vec<String>) -> (index: Option<usize>)
        ensures
            match index {
                Some(i) => first_match(installed@, self.name@, 0) == Some(i as int),
                None => first_match(installed@, self.name@, 0) is None,
            },
    {
        let mut i: usize = 0;
        while i < installed.len()
            invariant
                i <= installed.len(),
                first_match(installed@, self.name@, 0) == first_match(installed@, self.name@, i as int),
            decreases installed.len() - i,
        {
            if str_eq_ignore_ascii_case(installed[i].as_str(), self.name.as_str()) {
                return Some(i);
            }
            i += 1;
        }
        None
    }
}

/// What the caller found out about one installed application.
#[derive(Debug, PartialEq, Eq)]
pub struct DesktopEntry {
    pub name: String,
    pub description: Option<String>,
    pub executable: PathBuf,
    /// Whether the application is meant to be shown in menus.
    pub should_show: bool,
    /// The name of the application's icon, if it has one.
    pub icon_name: Option<String>,
    /// The icon as rendered at `ICON_SIZE`, four bytes to the pixel; left
    /// empty until the caller has rendered it.
    pub pixels: Vec<u8>,
}

/// The application that an entry gives, if it gives one. An entry that is
/// not to be shown gives none. An entry without an icon gives an application
/// without an icon. An entry with an icon gives an application with it if
/// the rendered bytes are enough for the size, and none if not.
pub open spec fn app_of_entry(entry: DesktopEntry) -> Option<AppView> {
    if !entry.should_show {
        None
    } else if entry.icon_name is None {
        Some(
            AppView {
                name: entry.name@,
                description: optional_view(entry.description),
                icon: None,
                executable: entry.executable,
            },
        )
    } else if icon_fits(ICON_SIZE, ICON_SIZE, entry.pixels@.len()) {
        Some(
            AppView {
                name: entry.name@,
                description: optional_view(entry.description),
                icon: Some(IconView { width: ICON_SIZE, height: ICON_SIZE, pixels: entry.pixels@ }),
                executable: entry.executable,
            },
        )
    } else {
        None
    }
}

/// The applications that a list of entries gives, in the order of the
/// entries.
pub open spec fn apps_of_entries(entries: Seq<DesktopEntry>) -> Seq<AppView>
    decreases entries.len(),
{
    if entries.len() == 0 {
        Seq::empty()
    } else {
        let before = apps_of_entries(entries.drop_last());
        match app_of_entry(entries.last()) {
            Some(app) => before.push(app),
            None => before,
        }
    }
}

/// The applications of an inventory, each as its view.
pub open spec fn app_views(apps: Seq<App>) -> Seq<AppView> {
    Seq::new(apps.len(), |i: int| apps[i]@)
}

impl DesktopEntry {
    /// The name of the icon that the caller has to render for this entry:
    /// the entry's icon, if the entry is to be shown and has one.
    pub fn icon_to_render(&self) -> (name: Option<&String>)
        ensures
            match name {
                Some(n) => self.should_show && self.icon_name == Some(*n),
                None => !self.should_show || self.icon_name is None,
            },
    {
        if self.should_show {
            self.icon_name.as_ref()
        } else {
            None
        }
    }

    /// Makes the entry's application, if it gives one.
    pub fn into_app(self) -> (app: Option<App>)
        ensures
            match app {
                Some(a) => app_of_entry(self) == Some(a@),
                None => app_of_entry(self) is None,
            },
    {
        if !self.should_show {
            return None;
        }
        if self.icon_name.is_none() {
            return Some(
                App { name: self.name, description: self.description, icon: None, executable: self.executable },
            );
        }
        match Icon::from_rgba(ICON_SIZE, ICON_SIZE, self.pixels) {
            Some(icon) => Some(
                App {
                    name: self.name,
                    description: self.description,
                    icon: Some(icon),
                    executable: self.executable,
                },
            ),
            None => None,
        }
    }
}

/// The inventory of installed applications.
#[derive(Debug, PartialEq, Eq)]
pub struct Apps {
    pub apps: Vec<App>,
}

impl Apps {
    pub fn get_apps(&self) -> (apps: &Vec<App>)
        ensures
            apps == self.apps,
    {
        &self.apps
    }

    /// Builds the inventory from what the caller found: one application for
    /// each entry that gives one, in the order of the entries.
    pub fn new(entries: Vec<DesktopEntry>) -> (inventory: Apps)
        ensures
            app_views(inventory.apps@) == apps_of_entries(entries@),
    {
        let mut apps: Vec<App> = Vec::new();
        for entry in it: entries
            invariant
                app_views(apps@) == apps_of_entries(it.seq().take(it.index() as int)),
        {
            assert(it.seq().take(it.index() + 1).drop_last() =~= it.seq().take(it.index() as int));
            let ghost before = app_views(apps@);
            match entry.into_app() {
                Some(app) => {
                    apps.push(app);
                    assert(app_views(apps@) =~= before.push(app@));
                },
                None => {},
            }
        }
        assert(entries@.take(entries@.len() as int) =~= entries@);
        Apps { apps }
    }
}

} // verus!
