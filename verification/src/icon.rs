//! The requests by which an icon's image is obtained: from the program's
//! resources, from a file, or from a buffer that holds an icon directory.

use vstd::prelude::*;
use crate::native::{IMAGE_ICON, LR_DEFAULTCOLOR, LR_LOADFROMFILE};
use crate::operation::Operation;
use crate::text::wide;

verus! {

/// Width and height, in pixels, asked for when an icon is loaded by name.
pub const ICON_SIZE: i32 = 64;

/// The version of the icon format that an image in a buffer is read as.
pub const ICON_VERSION: u32 = 0x30000;

/// One request to load an image by name.
#[derive(Clone, Debug, PartialEq, Eq)]
pub struct LoadImage {
    /// The operation that the request belongs to.
    pub operation: Operation,
    /// The instance whose resources are searched; zero for none.
    pub hinstance: isize,
    /// The name of the resource or the path of the file, as a zero-terminated
    /// wide string.
    pub name: Vec<u16>,
    /// The kind of image.
    pub kind: u32,
    /// The width asked for.
    pub width: i32,
    /// The height asked for.
    pub height: i32,
    /// How the image is loaded.
    pub flags: u32,
}

/// One request to find, in an icon directory, the image that fits best.
#[derive(Clone, Copy, Debug, PartialEq, Eq)]
pub struct LookupIcon<'a> {
    /// The bytes that are read as an icon directory.
    pub data: &'a [u8],
    /// Whether an icon is looked for, rather than a cursor.
    pub icon: bool,
    /// The width asked for.
    pub width: i32,
    /// The height asked for.
    pub height: i32,
    /// How the image is chosen.
    pub flags: u32,
}

/// One request to make an icon from the bits of an image.
#[derive(Clone, Copy, Debug, PartialEq, Eq)]
pub struct CreateIcon<'a> {
    /// The operation that the request belongs to.
    pub operation: Operation,
    /// The bits of the image.
    pub data: &'a [u8],
    /// The size that is declared for the bits.
    pub size: u32,
    /// Whether an icon is made, rather than a cursor.
    pub icon: bool,
    /// The version of the format.
    pub version: u32,
    /// The width asked for.
    pub width: i32,
    /// The height asked for.
    pub height: i32,
    /// How the icon is made.
    pub flags: u32,
}

impl LoadImage {
    /// The request for the icon named `name` among the resources of `hinstance`.
    pub open spec fn is_resource(self, hinstance: isize, name: Seq<char>) -> bool {
        &&& self.operation == Operation::IconFromResource
        &&& self.hinstance == hinstance
        &&& self.name@ == wide(name)
        &&& self.kind == IMAGE_ICON
        &&& self.width == ICON_SIZE
        &&& self.height == ICON_SIZE
        &&& self.flags == 0
    }

    /// The request for the icon in the file at `path`.
    pub open spec fn is_file(self, path: Seq<char>) -> bool {
        &&& self.operation == Operation::IconFromFile
        &&& self.hinstance == 0
        &&& self.name@ == wide(path)
        &&& self.kind == IMAGE_ICON
        &&& self.width == ICON_SIZE
        &&& self.height == ICON_SIZE
        &&& self.flags == LR_LOADFROMFILE
    }
}

impl<'a> LookupIcon<'a> {
    /// The request for the icon of the given size in `buffer`. The platform
    /// takes the sizes as signed numbers of 32 bits.
    pub open spec fn is_for(self, buffer: Seq<u8>, width: u32, height: u32) -> bool {
        &&& self.data@ == buffer
        &&& self.icon
        &&& self.width == width as i32
        &&& self.height == height as i32
        &&& self.flags == LR_DEFAULTCOLOR
    }
}

impl<'a> CreateIcon<'a> {
    /// The request that follows the lookup `lookup`, for an icon from the
    /// image that starts at `offset` in the lookup's bytes.
    pub open spec fn follows(self, lookup: LookupIcon, offset: int) -> bool {
        &&& self.operation == Operation::LoadIconFromBuffer
        &&& self.data@ == lookup.data@.subrange(offset, lookup.data@.len() as int)
        &&& self.size == 0
        &&& self.icon
        &&& self.version == ICON_VERSION
        &&& self.width == lookup.width
        &&& self.height == lookup.height
        &&& self.flags == LR_DEFAULTCOLOR
    }
}

/// An offset that the platform may have found an image at: past the start of
/// the buffer and not past its end. Zero is the platform's answer when the
/// buffer holds no icon directory with a fitting image.
pub open spec fn offset_is_valid(buffer: Seq<u8>, offset: i32) -> bool {
    0 < offset <= buffer.len()
}

} // verus!
