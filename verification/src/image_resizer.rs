//! Decisions of the picture resizer: which folders to offer, which files to
//! convert to JPEG, and which images are too large.
use vstd::prelude::*;
use crate::action::{cat2, cat3};
use crate::number::{decimal, decimal_spec, parse_u32, parse_u32_spec};
use crate::text::{
    contains, contains_spec, rsplit_once, rsplit_once_spec, starts_with_spec, str_eq, string_of,
    chars_of,
};

verus! {

/// The largest height or width an image may keep.
pub const MAX_SIZE: u32 = 2400;

/// Whether a directory is left out of the walk: its path mentions `.git`.
pub fn is_skipped_path(path: &str) -> (r: bool)
    ensures
        r == contains_spec(path@, ".git"@),
{
    contains(path, ".git")
}

/// The folder offered for a directory met on the walk from `orig`: the path
/// below `orig`, or nothing for `orig` itself.
pub fn relative_folder(orig: &str, path: &str) -> (r: Option<String>)
    requires
        starts_with_spec(path@, orig@),
    ensures
        match r {
            Some(f) => path@ != orig@ && f@ == path@.skip(orig@.len() as int),
            None => path@ == orig@,
        },
{
    if str_eq(orig, path) {
        None
    } else {
        let c = chars_of(path);
        let n = chars_of(orig).len();
        let f = string_of(&c, n, c.len());
        assert(f@ =~= path@.skip(orig@.len() as int));
        Some(f)
    }
}

/// The JPEG file that an image ends up as.
pub struct JpegTarget {
    /// The path with its extension replaced by `jpeg`.
    pub file_name: String,
    /// Whether the image has another extension and is converted first.
    pub needs_conversion: bool,
}

/// The JPEG file for an image path: its part before the last `.`, with
/// `.jpeg`; a path without `.` has none.
pub fn jpeg_target(file_path: &str) -> (r: Option<JpegTarget>)
    ensures
        match rsplit_once_spec(file_path@, "."@) {
            Some(parts) => r matches Some(t) && t.file_name@ == parts.0 + ".jpeg"@ && t.needs_conversion
                == (parts.1 != "jpeg"@),
            None => r is None,
        },
{
    match rsplit_once(file_path, ".") {
        Some(parts) => {
            let file_name = cat2(parts.0.as_str(), ".jpeg");
            let needs_conversion = !str_eq(parts.1.as_str(), "jpeg");
            Some(JpegTarget { file_name, needs_conversion })
        },
        None => None,
    }
}

/// The command that converts `old_file` into `new_file`.
pub fn convert_command(old_file: &str, new_file: &str) -> (r: String)
    ensures
        r@ == "convert "@ + old_file@ + " "@ + new_file@ + " "@,
{
    let mut r = cat3("convert ", old_file, " ");
    r.append(new_file);
    r.append(" ");
    r
}

/// The command that removes a converted original.
pub fn remove_command(file: &str) -> (r: String)
    ensures
        r@ == "rm -f "@ + file@,
{
    cat2("rm -f ", file)
}

/// The command that prints one dimension (`h` or `w`) of an image.
pub fn dimension_command(file: &str, dim: &str) -> (r: String)
    ensures
        r@ == "identify -format %["@ + dim@ + "] "@ + file@,
{
    let mut r = cat3("identify -format %[", dim, "] ");
    r.append(file);
    r
}

/// A dimension read from the output of `identify`, or 0 where it is not a number.
pub fn parse_dimension(output: &str) -> (r: u32)
    ensures
        r == match parse_u32_spec(output@) {
            Some(n) => n,
            None => 0,
        },
{
    match parse_u32(output) {
        Some(n) => n,
        None => 0,
    }
}

/// Whether the file lies in one of the folders chosen for making small.
pub fn in_small_folder(file_name: &str, folders: &Vec<String>) -> (r: bool)
    ensures
        r == exists|i: int| 0 <= i < folders@.len() && contains_spec(file_name@, #[trigger] folders@[i]@),
{
    let mut i: usize = 0;
    while i < folders.len()
        invariant
            i <= folders@.len(),
            forall|j: int| 0 <= j < i ==> !contains_spec(file_name@, #[trigger] folders@[j]@),
        decreases folders.len() - i,
    {
        if contains(file_name, folders[i].as_str()) {
            return true;
        }
        i += 1;
    }
    false
}

/// What an image's size calls for.
#[derive(PartialEq, Eq, Structural, Clone, Copy, Debug)]
pub enum Resize {
    /// Taller than wide and over the limit: scaled to the limit's height.
    TooTall,
    /// Over the limit and not taller than wide: scaled to the limit's width.
    TooWide,
    /// Within the limit.
    SmallEnough,
}

/// What an image of the given height and width calls for.
pub open spec fn resize_spec(height: u32, width: u32) -> Resize {
    if height > MAX_SIZE || width > MAX_SIZE {
        if height > width {
            Resize::TooTall
        } else {
            Resize::TooWide
        }
    } else {
        Resize::SmallEnough
    }
}

/// The decision scales the larger dimension of an image over the limit down to
/// the limit: a taller image (height over the limit and over the width) is
/// scaled by height, any other image over the limit by width, and an image
/// within the limit both ways is left alone. After scaling with the aspect kept
/// (the other dimension multiplied by the limit over the scaled one, rounded
/// down), both dimensions are within the limit.
pub proof fn law_resize_scales_the_larger_side(height: u32, width: u32)
    ensures
        resize_spec(height, width) == Resize::SmallEnough <==> (height <= MAX_SIZE && width <= MAX_SIZE),
        resize_spec(height, width) == Resize::TooTall <==> (height > MAX_SIZE && height > width),
        resize_spec(height, width) == Resize::TooWide <==> (width > MAX_SIZE && width >= height),
        resize_spec(height, width) == Resize::TooTall ==> width * MAX_SIZE / (height as int) <= MAX_SIZE,
        resize_spec(height, width) == Resize::TooWide ==> height * MAX_SIZE / (width as int) <= MAX_SIZE,
{
    if resize_spec(height, width) == Resize::TooTall {
        assert(width * MAX_SIZE / (height as int) <= MAX_SIZE) by (nonlinear_arith)
            requires
                0 <= width < height,
                MAX_SIZE == 2400,
        ;
    }
    if resize_spec(height, width) == Resize::TooWide {
        assert(height * MAX_SIZE / (width as int) <= MAX_SIZE) by (nonlinear_arith)
            requires
                0 <= height <= width,
                width > 0,
                MAX_SIZE == 2400,
        ;
    }
}

/// What an image of the given height and width calls for.
pub fn resize_decision(height: u32, width: u32) -> (r: Resize)
    ensures
        r == resize_spec(height, width),
{
    if height > MAX_SIZE || width > MAX_SIZE {
        if height > width {
            Resize::TooTall
        } else {
            Resize::TooWide
        }
    } else {
        Resize::SmallEnough
    }
}

/// The command that scales an image in place, where it is too large.
pub fn resize_command(file: &str, r: Resize) -> (c: Option<String>)
    ensures
        c matches Some(s) ==> r != Resize::SmallEnough,
        match r {
            Resize::TooTall => c matches Some(s) && s@ == "convert "@ + file@ + " -resize x"@
                + decimal_spec(MAX_SIZE as nat) + " "@ + file@,
            Resize::TooWide => c matches Some(s) && s@ == "convert "@ + file@ + " -resize "@
                + decimal_spec(MAX_SIZE as nat) + " "@ + file@,
            Resize::SmallEnough => c is None,
        },
{
    match r {
        Resize::TooTall => {
            let mut s = cat3("convert ", file, " -resize x");
            s.append(decimal(MAX_SIZE as u64).as_str());
            s.append(" ");
            s.append(file);
            Some(s)
        },
        Resize::TooWide => {
            let mut s = cat3("convert ", file, " -resize ");
            s.append(decimal(MAX_SIZE as u64).as_str());
            s.append(" ");
            s.append(file);
            Some(s)
        },
        Resize::SmallEnough => None,
    }
}

} // verus!
