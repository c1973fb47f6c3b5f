use vstd::prelude::*;
use crate::library::same_text;

verus! {

/// The application icons that ship with the program.
#[derive(Clone, Copy, Debug, PartialEq, Eq, Structural)]
pub enum BundledIcon {
    LiveContainer,
    Dopamine,
    TrollInstallerX,
    Lara,
}

/// File name of a bundled icon.
pub open spec fn icon_file_name(icon: BundledIcon) -> Seq<char> {
    match icon {
        BundledIcon::LiveContainer => "livecontainer.png"@,
        BundledIcon::Dopamine => "Dopamine.png"@,
        BundledIcon::TrollInstallerX => "TrollInstallerX.png"@,
        BundledIcon::Lara => "lara.png"@,
    }
}

/// Whether an entry's icon path names a bundled icon: either its bare file name or the file
/// name under `icons/`.
pub open spec fn path_names_icon(path: Seq<char>, icon: BundledIcon) -> bool {
    path == icon_file_name(icon) || path == "icons/"@ + icon_file_name(icon)
}

/// The bundled icon an icon path names, if any.
pub open spec fn icon_for_path(path: Seq<char>) -> Option<BundledIcon> {
    if path_names_icon(path, BundledIcon::LiveContainer) {
        Some(BundledIcon::LiveContainer)
    } else if path_names_icon(path, BundledIcon::Dopamine) {
        Some(BundledIcon::Dopamine)
    } else if path_names_icon(path, BundledIcon::TrollInstallerX) {
        Some(BundledIcon::TrollInstallerX)
    } else if path_names_icon(path, BundledIcon::Lara) {
        Some(BundledIcon::Lara)
    } else {
        None
    }
}

impl BundledIcon {
    /// File name of the icon.
    pub fn file_name(&self) -> (name: &'static str)
        ensures
            name@ == icon_file_name(*self),
    {
        match self {
            BundledIcon::LiveContainer => "livecontainer.png",
            BundledIcon::Dopamine => "Dopamine.png",
            BundledIcon::TrollInstallerX => "TrollInstallerX.png",
            BundledIcon::Lara => "lara.png",
        }
    }
}

/// Finds the bundled icon that an entry's icon path names.
pub fn bundled_icon(path: &str) -> (icon: Option<BundledIcon>)
    ensures
        icon == icon_for_path(path@),
{
    proof {
        reveal_strlit("icons/");
        reveal_strlit("livecontainer.png");
        reveal_strlit("icons/livecontainer.png");
        reveal_strlit("Dopamine.png");
        reveal_strlit("icons/Dopamine.png");
        reveal_strlit("TrollInstallerX.png");
        reveal_strlit("icons/TrollInstallerX.png");
        reveal_strlit("lara.png");
        reveal_strlit("icons/lara.png");
        assert("icons/livecontainer.png"@ =~= "icons/"@ + "livecontainer.png"@);
        assert("icons/Dopamine.png"@ =~= "icons/"@ + "Dopamine.png"@);
        assert("icons/TrollInstallerX.png"@ =~= "icons/"@ + "TrollInstallerX.png"@);
        assert("icons/lara.png"@ =~= "icons/"@ + "lara.png"@);
    }
    if same_text(path, "icons/livecontainer.png") || same_text(path, "livecontainer.png") {
        Some(BundledIcon::LiveContainer)
    } else if same_text(path, "icons/Dopamine.png") || same_text(path, "Dopamine.png") {
        Some(BundledIcon::Dopamine)
    } else if same_text(path, "icons/TrollInstallerX.png") || same_text(path, "TrollInstallerX.png") {
        Some(BundledIcon::TrollInstallerX)
    } else if same_text(path, "icons/lara.png") || same_text(path, "lara.png") {
        Some(BundledIcon::Lara)
    } else {
        None
    }
}

/// An icon decoded to 8-bit RGBA pixels, row by row.
pub struct IconImage {
    pub width: u32,
    pub height: u32,
    pub rgba: Vec<u8>,
}

/// Width, height and RGBA pixels that `image::load_from_memory_with_format` with the built-in
/// PNG format, followed by `to_rgba8`, yields for these bytes, or `None` where they are not a
/// PNG it can decode.
pub uninterp spec fn decoded_png_rgba(bytes: Seq<u8>) -> Option<(u32, u32, Seq<u8>)>;

/// Calls `image::load_from_memory_with_format` with `ImageFormat::Png`, converts the picture
/// with `DynamicImage::to_rgba8`, and takes its width, height and raw pixels. With a built-in
/// format given, the crate neither guesses the format nor consults its registered hooks, so the
/// outcome depends on the bytes alone. Claimed of it: the outcome is `decoded_png_rgba` of the
/// bytes; a decoding error gives `None`. Nothing is stated about the pixels themselves.
#[verifier::external_body]
fn decode_png_rgba8(bytes: &[u8]) -> (decoded: Option<(u32, u32, Vec<u8>)>)
    ensures
        match decoded {
            Some((w, h, px)) => decoded_png_rgba(bytes@) == Some((w, h, px@)),
            None => decoded_png_rgba(bytes@) is None,
        },
{
    match image::load_from_memory_with_format(bytes, image::ImageFormat::Png) {
        Ok(picture) => {
            let rgba = picture.to_rgba8();
            Some((rgba.width(), rgba.height(), rgba.into_raw()))
        },
        Err(_) => None,
    }
}

/// Decodes the bytes of a PNG icon file (all bundled icons are PNG) to RGBA pixels; `None`
/// where they are not a decodable PNG.
pub fn decode_icon(bytes: &[u8]) -> (icon: Option<IconImage>)
    ensures
        match icon {
            Some(img) => decoded_png_rgba(bytes@) == Some((img.width, img.height, img.rgba@)),
            None => decoded_png_rgba(bytes@) is None,
        },
{
    match decode_png_rgba8(bytes) {
        Some((width, height, rgba)) => Some(IconImage { width, height, rgba }),
        None => None,
    }
}

/// Each bundled icon is found both under its bare file name and under `icons/`, and under
/// no other icon's name.
pub proof fn lemma_icon_found_under_both_names(icon: BundledIcon)
    ensures
        icon_for_path(icon_file_name(icon)) == Some(icon),
        icon_for_path("icons/"@ + icon_file_name(icon)) == Some(icon),
{
    reveal_strlit("icons/");
    reveal_strlit("livecontainer.png");
    reveal_strlit("Dopamine.png");
    reveal_strlit("TrollInstallerX.png");
    reveal_strlit("lara.png");
    let p = "icons/"@;
    assert forall|other: BundledIcon| other != icon implies (#[trigger] icon_file_name(other)).len()
        != icon_file_name(icon).len() || icon_file_name(other)[0] != icon_file_name(icon)[0] by {}
    assert forall|other: BundledIcon| #[trigger] icon_file_name(other)[0] != 'i' by {}
    assert forall|other: BundledIcon| other != icon implies p + #[trigger] icon_file_name(other)
        != p + icon_file_name(icon) by {
        let a = p + icon_file_name(other);
        let b = p + icon_file_name(icon);
        assert(a.len() != b.len() || a[6] != b[6]);
    }
    assert forall|other: BundledIcon| #[trigger] icon_file_name(other) != p + icon_file_name(icon) by {
        assert((p + icon_file_name(icon))[0] == 'i');
    }
}

} // verus!
