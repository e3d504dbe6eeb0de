//! The accent-tinted `.ico` written beside the executable: where it goes,
//! the square canvas its frames are cut from, and the frames themselves.

use vstd::prelude::*;
use crate::icon_tint::{recolor_rgba, recolored};

verus! {

/// The file name of the accent-tinted icon beside the executable.
pub const SIDECAR_ICO_NAME: &'static str = "handy-accent.ico";

/// Whether `dir` begins with the verbatim prefix `\\?\` of Windows paths,
/// after which std normalizes a path that something is pushed onto.
pub open spec fn has_verbatim_prefix(dir: Seq<char>) -> bool {
    dir.len() >= 4 && dir.subrange(0, 4) == seq!['\\', '\\', '?', '\\']
}

/// `path` is `dir` followed by `name`, with at most one separator (`/` or
/// `\`) between them.
pub open spec fn joined_path(dir: Seq<char>, name: Seq<char>, path: Seq<char>) -> bool {
    ||| path == dir + name
    ||| path == dir + seq!['/'] + name
    ||| path == dir + seq!['\\'] + name
}

/// `Path::new(dir).join(name)` of std, as text (`to_string_lossy` loses
/// nothing on a path built from two `&str`). The separator that `join`
/// inserts depends on the platform, so the result gets no name. For the
/// relative file name used here the contract states: the result ends with
/// `name`; it is `name` itself when `dir` is empty; and, unless `dir` has a
/// verbatim prefix (which std normalizes), it is `dir` and `name` with at
/// most one separator between them. Nothing is said of the result for a
/// verbatim `dir` beyond its ending.
#[verifier::external_body]
fn path_join(dir: &str, name: &str) -> (res: String)
    requires
        name@ == SIDECAR_ICO_NAME@,
    ensures
        res@.len() >= name@.len(),
        res@.subrange(res@.len() - name@.len(), res@.len() as int) == name@,
        dir@.len() == 0 ==> res@ == name@,
        !has_verbatim_prefix(dir@) ==> joined_path(dir@, name@, res@),
{
    std::path::Path::new(dir).join(name).to_string_lossy().into_owned()
}

/// The path of the sidecar icon, given the directory of the executable (or
/// the error met while locating it, which is handed back).
pub fn sidecar_ico_path(exe_dir: Result<String, String>) -> (res: Result<String, String>)
    ensures
        exe_dir is Err ==> res == exe_dir,
        exe_dir matches Ok(dir) ==> res matches Ok(p) && {
            &&& p@.len() >= SIDECAR_ICO_NAME@.len()
            &&& p@.subrange(p@.len() - SIDECAR_ICO_NAME@.len(), p@.len() as int) == SIDECAR_ICO_NAME@
            &&& dir@.len() == 0 ==> p@ == SIDECAR_ICO_NAME@
            &&& !has_verbatim_prefix(dir@) ==> joined_path(dir@, SIDECAR_ICO_NAME@, p@)
        },
{
    match exe_dir {
        Ok(dir) => Ok(path_join(dir.as_str(), SIDECAR_ICO_NAME)),
        Err(e) => Err(e),
    }
}

/// The bytes of the `side` x `side` RGBA image `bottom` after
/// `image::imageops::overlay` has drawn the `width` x `height` RGBA image
/// `top` onto it with its corner at `(x, y)` (pixels are alpha-blended by the
/// `image` crate).
pub uninterp spec fn overlay_result(bottom: Seq<u8>, side: u32, top: Seq<u8>, width: u32, height: u32, x: i64, y: i64) -> Seq<u8>;

/// Whether an RGBA buffer of `len` bytes holds a `width` x `height` image,
/// the size computed without overflowing `usize`
/// (`ImageBuffer::from_raw` accepts exactly these).
pub open spec fn rgba_fits(width: u32, height: u32, len: nat) -> bool {
    4 * width * height <= usize::MAX && 4 * width * height <= len
}

/// Runs `image::imageops::overlay` on two raw RGBA buffers (converted to and
/// from `RgbaImage` through `ImageBuffer::from_raw` and `into_raw`). The
/// contract names the resulting bytes and states that their length is the
/// bottom buffer's.
#[verifier::external_body]
fn overlay_rgba(bottom: Vec<u8>, side: u32, top: Vec<u8>, width: u32, height: u32, x: i64, y: i64) -> (res: Vec<u8>)
    requires
        rgba_fits(side, side, bottom@.len()),
        rgba_fits(width, height, top@.len()),
    ensures
        res@ == overlay_result(bottom@, side, top@, width, height, x, y),
        res@.len() == bottom@.len(),
{
    let bottom_len = bottom.len();
    match (
        image::RgbaImage::from_raw(side, side, bottom),
        image::RgbaImage::from_raw(width, height, top),
    ) {
        (Some(mut canvas), Some(src)) => {
            image::imageops::overlay(&mut canvas, &src, x, y);
            canvas.into_raw()
        },
        _ => vec![0u8; bottom_len],
    }
}

/// A square RGBA image: `pixels` holds (at least) `side` x `side` pixels.
pub struct SquareCanvas {
    pub pixels: Vec<u8>,
    pub side: u32,
}

pub open spec fn zeros(n: nat) -> Seq<u8> {
    Seq::new(n, |i: int| 0u8)
}

pub open spec fn max_u32(a: u32, b: u32) -> u32 {
    if a >= b {
        a
    } else {
        b
    }
}

/// An image already square is kept as it is; otherwise it is centred on a
/// transparent square canvas whose side is the larger dimension.
pub open spec fn squared(rgba: Seq<u8>, width: u32, height: u32) -> (Seq<u8>, u32) {
    if width == height {
        (rgba, width)
    } else {
        let side = max_u32(width, height);
        (
            overlay_result(
                zeros((4 * side * side) as nat),
                side,
                rgba,
                width,
                height,
                ((side - width) / 2) as i64,
                ((side - height) / 2) as i64,
            ),
            side,
        )
    }
}

/// The canvas that the icon frames are resized from. `rgba` must hold the
/// `width` x `height` image, and a non-square image's canvas must have a
/// size that `usize` can count.
pub fn square_canvas(rgba: Vec<u8>, width: u32, height: u32) -> (res: SquareCanvas)
    requires
        rgba_fits(width, height, rgba@.len()),
        width != height ==> 4 * max_u32(width, height) * max_u32(width, height) <= usize::MAX,
    ensures
        (res.pixels@, res.side) == squared(rgba@, width, height),
        res.pixels@.len() == (if width == height {
            rgba@.len() as int
        } else {
            4 * res.side * res.side
        }),
        rgba_fits(res.side, res.side, res.pixels@.len()),
{
    if width == height {
        return SquareCanvas { pixels: rgba, side: width };
    }
    let side = if width >= height {
        width
    } else {
        height
    };
    let ox = (side - width) / 2;
    let oy = (side - height) / 2;
    let s = side as usize;
    assert(s >= 1);
    assert(4 * s <= 4 * s * s) by (nonlinear_arith)
        requires
            s >= 1,
    ;
    let n: usize = 4 * s * s;
    let mut blank: Vec<u8> = Vec::new();
    let mut i: usize = 0;
    while i < n
        invariant
            0 <= i <= n,
            blank@ == zeros(i as nat),
        decreases n - i,
    {
        blank.push(0u8);
        i = i + 1;
        assert(blank@ =~= zeros(i as nat));
    }
    let pixels = overlay_rgba(blank, side, rgba, width, height, ox as i64, oy as i64);
    SquareCanvas { pixels, side }
}

/// The side, in pixels, of each frame of the sidecar icon, largest first.
pub open spec fn ico_sizes() -> Seq<u32> {
    seq![256u32, 128, 64, 48, 32, 24, 16]
}

fn ico_frame_sizes() -> (res: Vec<u32>)
    ensures
        res@ == ico_sizes(),
{
    let res: Vec<u32> = vec![256, 128, 64, 48, 32, 24, 16];
    assert(res@ =~= ico_sizes());
    res
}

/// Whether `output` is a Lanczos3 resampling, by `image::imageops::resize`,
/// of the `side` x `side` RGBA image `input` to `size` x `size`. This is a
/// relation, not a name for one result: the filter's weights come from
/// `f32::sin`, whose precision std leaves to the platform, so two runs may
/// give different bytes, each of them a resampling of the input.
pub uninterp spec fn resampled(input: Seq<u8>, side: u32, size: u32, output: Seq<u8>) -> bool;

/// Runs `image::imageops::resize` (Lanczos3) on a square raw RGBA buffer,
/// converted to and from `RgbaImage` through `ImageBuffer::from_raw` and
/// `into_raw`. The filter's weights come from `f32::sin`, whose precision std
/// leaves to the platform, so the resulting bytes get no name. The contract
/// states what holds on every platform: the result is a resampling of the
/// image (`resampled`, the crate reading only the image's first
/// `4 * side * side` bytes); its length is that of a `size` x
/// `size` RGBA buffer (the crate allocates the result with
/// `ImageBuffer::new(size, size)`); a copy of the image when the size does
/// not change (the crate copies instead of resampling); and an all-zero
/// image (a fully transparent one, or an empty one) giving all zeros, each
/// output sample being a weighted sum of input samples. The
/// `requires` keeps the crate's intermediate `side` x `size` buffer of `f32`
/// samples (16 bytes a pixel) within what a `Vec` can allocate.
#[verifier::external_body]
fn resize_square(rgba: &Vec<u8>, side: u32, size: u32) -> (res: Vec<u8>)
    requires
        rgba_fits(side, side, rgba@.len()),
        16 * side * size <= isize::MAX,
        4 * size * size <= isize::MAX,
    ensures
        resampled(rgba@.subrange(0, 4 * side * side), side, size, res@),
        res@.len() == 4 * size * size,
        side == size ==> res@ == rgba@.subrange(0, 4 * side * side),
        rgba@.subrange(0, 4 * side * side) == zeros((4 * side * side) as nat) ==> res@ == zeros(
            (4 * size * size) as nat,
        ),
{
    match image::RgbaImage::from_raw(side, side, rgba.clone()) {
        Some(img) => image::imageops::resize(&img, size, size, image::imageops::FilterType::Lanczos3).into_raw(),
        None => Vec::new(),
    }
}

/// A frame of the sidecar icon: its side in pixels and its RGBA bytes.
pub struct IcoFrame {
    pub size: u32,
    pub rgba: Vec<u8>,
}

/// The frame of side `size` made of the canvas resized to that side
/// (`resized`): recoloured to `accent` with `tint` (see `recolored`).
pub fn accent_ico_frame<F: Fn(u8, u8, u8) -> (u8, u8, u8)>(
    resized: Vec<u8>,
    size: u32,
    accent: (u8, u8, u8),
    tint: &F,
) -> (res: IcoFrame)
    requires
        forall|r: u8, g: u8, b: u8| tint.requires((r, g, b)),
    ensures
        res.size == size,
        recolored(resized@, res.rgba@, accent, tint),
{
    let mut rgba = resized;
    recolor_rgba(&mut rgba, accent, tint);
    IcoFrame { size, rgba }
}

/// The frames of the sidecar icon, one for each of `ico_sizes`, in that
/// order: each a resampling of the canvas to the frame's side
/// (`4 * size * size` bytes, see `resampled`), recoloured to `accent` with
/// `tint` (see `recolored`).
pub fn accent_ico_frames<F: Fn(u8, u8, u8) -> (u8, u8, u8)>(
    canvas: &SquareCanvas,
    accent: (u8, u8, u8),
    tint: &F,
) -> (res: Vec<IcoFrame>)
    requires
        rgba_fits(canvas.side, canvas.side, canvas.pixels@.len()),
        16 * canvas.side * 256 <= isize::MAX,
        forall|r: u8, g: u8, b: u8| tint.requires((r, g, b)),
    ensures
        res@.len() == ico_sizes().len(),
        forall|i: int|
            0 <= i < res@.len() ==> {
                &&& (#[trigger] res@[i]).size == ico_sizes()[i]
                &&& res@[i].rgba@.len() == 4 * res@[i].size * res@[i].size
                &&& exists|resized: Seq<u8>|
                    resized.len() == 4 * res@[i].size * res@[i].size && resampled(
                        canvas.pixels@.subrange(0, 4 * canvas.side * canvas.side),
                        canvas.side,
                        res@[i].size,
                        resized,
                    ) && #[trigger] recolored(
                        resized,
                        res@[i].rgba@,
                        accent,
                        tint,
                    )
                &&& canvas.side == res@[i].size ==> recolored(
                    canvas.pixels@.subrange(0, 4 * canvas.side * canvas.side),
                    res@[i].rgba@,
                    accent,
                    tint,
                )
                &&& canvas.pixels@.subrange(0, 4 * canvas.side * canvas.side) == zeros(
                    (4 * canvas.side * canvas.side) as nat,
                ) ==> recolored(zeros((4 * res@[i].size * res@[i].size) as nat), res@[i].rgba@, accent, tint)
            },
{
    let sizes = ico_frame_sizes();
    let mut frames: Vec<IcoFrame> = Vec::new();
    let mut i: usize = 0;
    while i < sizes.len()
        invariant
            sizes@ == ico_sizes(),
            0 <= i <= sizes@.len(),
            frames@.len() == i,
            rgba_fits(canvas.side, canvas.side, canvas.pixels@.len()),
            16 * canvas.side * 256 <= isize::MAX,
            forall|r: u8, g: u8, b: u8| tint.requires((r, g, b)),
            forall|j: int|
                0 <= j < i ==> {
                    &&& (#[trigger] frames@[j]).size == ico_sizes()[j]
                    &&& frames@[j].rgba@.len() == 4 * frames@[j].size * frames@[j].size
                    &&& exists|resized: Seq<u8>|
                        resized.len() == 4 * frames@[j].size * frames@[j].size && resampled(
                            canvas.pixels@.subrange(0, 4 * canvas.side * canvas.side),
                            canvas.side,
                            frames@[j].size,
                            resized,
                        ) && #[trigger] recolored(
                            resized,
                            frames@[j].rgba@,
                            accent,
                            tint,
                        )
                    &&& canvas.side == frames@[j].size ==> recolored(
                        canvas.pixels@.subrange(0, 4 * canvas.side * canvas.side),
                        frames@[j].rgba@,
                        accent,
                        tint,
                    )
                    &&& canvas.pixels@.subrange(0, 4 * canvas.side * canvas.side) == zeros(
                        (4 * canvas.side * canvas.side) as nat,
                    ) ==> recolored(zeros((4 * frames@[j].size * frames@[j].size) as nat), frames@[j].rgba@, accent, tint)
                },
        decreases sizes@.len() - i,
    {
        let size = sizes[i];
        assert(size <= 256);
        assert(16 * canvas.side * size <= 16 * canvas.side * 256) by (nonlinear_arith)
            requires
                size <= 256,
        ;
        assert(4 * size * size <= 4 * 256 * 256) by (nonlinear_arith)
            requires
                size <= 256,
        ;
        let resized = resize_square(&canvas.pixels, canvas.side, size);
        let ghost before = resized@;
        let frame = accent_ico_frame(resized, size, accent, tint);
        assert(recolored(before, frame.rgba@, accent, tint));
        frames.push(frame);
        i = i + 1;
    }
    frames
}

#[verifier::external_type_specification]
#[verifier::external_body]
pub struct ExIconDirEntry(ico::IconDirEntry);

#[verifier::external_type_specification]
#[verifier::external_body]
pub struct ExIoError(std::io::Error);

/// The bytes of the entry that `IconDirEntry::encode` of the `ico` crate
/// makes of the `size` x `size` RGBA image `rgba` (built with
/// `IconImage::from_rgba_data`), or `None` when the encoder fails. The crate
/// chooses BMP or PNG from the image and writes to memory, so the outcome
/// depends on the two arguments alone.
pub uninterp spec fn ico_encoding(size: u32, rgba: Seq<u8>) -> Option<Seq<u8>>;

/// A frame encoded for the `.ico` file: the crate's entry, with its side
/// and its encoded bytes. The entry is opaque to the contracts (`ico`
/// declares it with private fields); the side and bytes are read from it by
/// `encode_ico_entry` when it is made, and the views speak of them.
pub struct EncodedIcoEntry {
    entry: ico::IconDirEntry,
    size: u32,
    data: Vec<u8>,
}

impl EncodedIcoEntry {
    pub closed spec fn view_size(&self) -> u32 {
        self.size
    }

    pub closed spec fn view_data(&self) -> Seq<u8> {
        self.data@
    }

    /// The side of the frame, in pixels.
    pub fn size(&self) -> (res: u32)
        ensures
            res == self.view_size(),
    {
        self.size
    }

    /// The encoded bytes of the frame.
    pub fn data(&self) -> (res: &Vec<u8>)
        ensures
            res@ == self.view_data(),
    {
        &self.data
    }

    /// The entry, to be added to the `.ico` directory. Nothing is stated of
    /// the opaque entry itself: that its bytes are `view_data` rests on
    /// `encode_ico_entry`, which copies them out of it.
    pub fn into_entry(self) -> ico::IconDirEntry {
        self.entry
    }
}

/// `IconDirEntry::encode` of the `ico` crate on
/// `IconImage::from_rgba_data(size, size, rgba)`. `from_rgba_data` panics
/// unless the side is at least 1 and `rgba` holds exactly the image, and
/// `encode` multiplies the sides as `u32`, which the bound of 256 keeps from
/// overflowing; the `requires` asks both. The contract names the outcome:
/// an entry exactly when the encoding succeeds, whose side (`width`) is
/// `size` and whose bytes (`data`) are the named ones.
#[verifier::external_body]
fn encode_ico_entry(size: u32, rgba: Vec<u8>) -> (res: Result<EncodedIcoEntry, std::io::Error>)
    requires
        1 <= size <= 256,
        rgba@.len() == 4 * size * size,
    ensures
        res is Ok <==> ico_encoding(size, rgba@) is Some,
        res matches Ok(e) ==> e.view_size() == size && Some(e.view_data()) == ico_encoding(size, rgba@),
{
    match ico::IconDirEntry::encode(&ico::IconImage::from_rgba_data(size, size, rgba)) {
        Ok(entry) => {
            let data = entry.data().to_vec();
            Ok(EncodedIcoEntry { size: entry.width(), data, entry })
        },
        Err(error) => Err(error),
    }
}

/// A frame that the `ico` crate could not encode: its side and the error.
pub struct EncodeFrameError {
    pub size: u32,
    pub error: std::io::Error,
}

/// Whether the `ico` crate encodes the frame.
pub open spec fn frame_encodes(frame: IcoFrame) -> bool {
    ico_encoding(frame.size, frame.rgba@) is Some
}

/// Encodes the frames, in order, as entries of an `.ico` file. It succeeds
/// exactly when every frame encodes, giving one entry per frame in the same
/// order; otherwise it reports the side of the first frame that fails.
pub fn encode_ico_frames(frames: Vec<IcoFrame>) -> (res: Result<Vec<EncodedIcoEntry>, EncodeFrameError>)
    requires
        forall|i: int|
            0 <= i < frames@.len() ==> 1 <= (#[trigger] frames@[i]).size <= 256 && frames@[i].rgba@.len() == 4
                * frames@[i].size * frames@[i].size,
    ensures
        res is Ok <==> forall|i: int| 0 <= i < frames@.len() ==> #[trigger] frame_encodes(frames@[i]),
        res matches Ok(entries) ==> {
            &&& entries@.len() == frames@.len()
            &&& forall|i: int|
                0 <= i < frames@.len() ==> (#[trigger] entries@[i]).view_size() == frames@[i].size && Some(
                    entries@[i].view_data(),
                ) == ico_encoding(frames@[i].size, frames@[i].rgba@)
        },
        res matches Err(e) ==> exists|i: int|
            0 <= i < frames@.len() && !#[trigger] frame_encodes(frames@[i]) && e.size == frames@[i].size
                && forall|j: int| 0 <= j < i ==> frame_encodes(frames@[j]),
{
    let ghost all = frames@;
    let mut entries: Vec<EncodedIcoEntry> = Vec::new();
    let mut rest = frames;
    while rest.len() > 0
        invariant
            all == frames@,
            entries@.len() <= all.len(),
            rest@ == all.subrange(entries@.len() as int, all.len() as int),
            forall|i: int|
                0 <= i < all.len() ==> 1 <= (#[trigger] all[i]).size <= 256 && all[i].rgba@.len() == 4
                    * all[i].size * all[i].size,
            forall|i: int| 0 <= i < entries@.len() ==> #[trigger] frame_encodes(all[i]),
            forall|i: int|
                0 <= i < entries@.len() ==> (#[trigger] entries@[i]).view_size() == all[i].size && Some(
                    entries@[i].view_data(),
                ) == ico_encoding(all[i].size, all[i].rgba@),
        decreases rest@.len(),
    {
        let frame = rest.remove(0);
        let ghost k = entries@.len() as int;
        assert(frame == all[k]);
        let size = frame.size;
        match encode_ico_entry(size, frame.rgba) {
            Ok(entry) => {
                entries.push(entry);
                assert(frame_encodes(all[k]));
            },
            Err(error) => {
                assert(!frame_encodes(all[k]));
                assert(forall|j: int| 0 <= j < k ==> frame_encodes(all[j]));
                return Err(EncodeFrameError { size, error });
            },
        }
    }
    assert(entries@.len() == all.len());
    Ok(entries)
}

} // verus!
