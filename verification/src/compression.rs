//! The adaptive compression engine: brings one picture file under a byte budget with the least
//! destructive transformation that suffices.
//!
//! A file of a format the engine does not know is refused. A file that already fits is left
//! alone. A JPEG is re-encoded at falling quality until it
//! fits, and resized once if no quality does. A PNG is optimised losslessly, and resized and
//! optimised again if that was not enough. Whatever strategy ran, its output passes one final
//! size check before it is accepted.

use vstd::prelude::*;
use vstd::string::*;

use crate::chunks::{check_chunks, chunks_sound, has_png_signature};
use crate::codec::{
    compress_jpeg_with_quality, decode, decoded, encode_png, jpeg_encoding, optimize_png,
    optimized_png, png_encoding, resize_lanczos3, resized, Picture, PngEffort,
};
use crate::format::{kind_of, kind_of_extension, ImageKind};
use crate::scale::{
    lemma_scaled_side_is_scaled, lemma_scaled_side_shrinks, scale_side, scaled_side,
};

verus! {

/// The quality the sweep starts at.
pub const HIGHEST_QUALITY: u8 = 95;

/// The quality the sweep ends at.
pub const LOWEST_QUALITY: u8 = 60;

/// The distance between two qualities of the sweep.
pub const QUALITY_STEP: u8 = 5;

/// The quality a resized JPEG is encoded at.
pub const FALLBACK_QUALITY: u8 = 85;

/// Why a file could not be brought under its budget.
#[derive(Clone, Copy, Debug, PartialEq, Eq, Structural)]
pub enum Reason {
    /// The extension declares no format the engine has a strategy for.
    UnsupportedFormat,
    /// The bytes could not be decoded as a picture, or a codec failed on the decoded picture.
    IoOrDecodeError,
    /// Every transformation was tried and the result is still over budget.
    ExceedsAfterCompression,
}

/// What became of one file.
#[derive(Debug, PartialEq, Eq)]
pub enum CompressionOutcome {
    /// The file fits as it is; nothing was decoded or produced.
    Unchanged,
    /// The replacement file, which fits the budget.
    Transformed(Vec<u8>),
    /// No file within budget could be produced.
    Unreachable(Reason),
}

/// The mathematical value of a [`CompressionOutcome`].
pub enum Outcome {
    Unchanged,
    Transformed(Seq<u8>),
    Unreachable(Reason),
}

impl View for CompressionOutcome {
    type V = Outcome;

    open spec fn view(&self) -> Outcome {
        match self {
            CompressionOutcome::Unchanged => Outcome::Unchanged,
            CompressionOutcome::Transformed(bytes) => Outcome::Transformed(bytes@),
            CompressionOutcome::Unreachable(reason) => Outcome::Unreachable(*reason),
        }
    }
}

/// How the quality sweep ends.
#[derive(Clone, Copy, Debug, PartialEq, Eq, Structural)]
pub enum Sweep {
    /// The encoding at this quality is the first that fits.
    Accepted(u8),
    /// The encoder failed before any quality fitted.
    Failed,
    /// Every quality was encoded and none fits.
    NoneFits,
}

/// What [`quality_sweep`] hands back: how the sweep ended, with the accepted encoding.
#[derive(Debug, PartialEq, Eq)]
pub enum SweepOutcome {
    Accepted { quality: u8, bytes: Vec<u8> },
    Failed,
    NoneFits,
}

/// `quality` is one of the qualities the sweep tries: 95, 90, ..., 60.
pub open spec fn is_sweep_quality(quality: int) -> bool {
    &&& LOWEST_QUALITY <= quality <= HIGHEST_QUALITY
    &&& (HIGHEST_QUALITY - quality) % (QUALITY_STEP as int) == 0
}

/// The encoding of `picture` at `quality` exists and is within `budget`.
pub open spec fn fits(picture: Picture, quality: u8, budget: usize) -> bool {
    jpeg_encoding(picture, quality) matches Some(bytes) && bytes.len() <= budget
}

/// The encoding of `picture` at `quality` exists and is over `budget`.
pub open spec fn overshoots(picture: Picture, quality: u8, budget: usize) -> bool {
    jpeg_encoding(picture, quality) matches Some(bytes) && bytes.len() > budget
}

/// The sweep from `quality` downwards: stop at the first encoding that fits or fails.
pub open spec fn sweep_from(picture: Picture, budget: usize, quality: int) -> Sweep
    decreases quality,
{
    if quality < LOWEST_QUALITY || quality > HIGHEST_QUALITY {
        Sweep::NoneFits
    } else {
        match jpeg_encoding(picture, quality as u8) {
            None => Sweep::Failed,
            Some(bytes) => if bytes.len() <= budget {
                Sweep::Accepted(quality as u8)
            } else {
                sweep_from(picture, budget, quality - QUALITY_STEP)
            },
        }
    }
}

/// The whole sweep, from the highest quality down.
pub open spec fn sweep(picture: Picture, budget: usize) -> Sweep {
    sweep_from(picture, budget, HIGHEST_QUALITY as int)
}

/// A side scaled by `sqrt(budget / source_len)`, and left as it is where that would make it
/// longer: shrinking never enlarges. For a file over budget the scaled side is the shorter
/// one, see [`lemma_shrunk_side_is_scaled`].
pub open spec fn shrunk_side(side: u32, budget: usize, source_len: usize) -> u32 {
    let scaled = scaled_side(side, budget, source_len);
    if scaled <= side {
        scaled
    } else {
        side
    }
}

/// `picture` with both sides scaled by `sqrt(budget / source_len)`.
pub open spec fn shrunk(picture: Picture, source_len: usize, budget: usize) -> Picture {
    resized(
        picture,
        shrunk_side(picture.spec_width(), budget, source_len),
        shrunk_side(picture.spec_height(), budget, source_len),
    )
}

/// What a codec call gave, with its failure classified.
pub open spec fn codec_result(bytes: Option<Seq<u8>>) -> Result<Seq<u8>, Reason> {
    match bytes {
        Some(bytes) => Ok(bytes),
        None => Err(Reason::IoOrDecodeError),
    }
}

/// The JPEG strategy: the first encoding of the sweep that fits; if none fits, the picture
/// shrunk and encoded at the fallback quality, whatever its size.
pub open spec fn jpeg_strategy(picture: Picture, source_len: usize, budget: usize) -> Result<
    Seq<u8>,
    Reason,
> {
    match sweep(picture, budget) {
        Sweep::Accepted(quality) => codec_result(jpeg_encoding(picture, quality)),
        Sweep::Failed => Err(Reason::IoOrDecodeError),
        Sweep::NoneFits => codec_result(
            jpeg_encoding(shrunk(picture, source_len, budget), FALLBACK_QUALITY),
        ),
    }
}

/// The optimiser settings of the PNG strategy: the strongest preset, every reduction on.
pub open spec fn full_effort() -> PngEffort {
    PngEffort {
        preset: 6,
        optimize_alpha: true,
        bit_depth_reduction: true,
        color_type_reduction: true,
        palette_reduction: true,
        grayscale_reduction: true,
    }
}

/// What the optimiser makes of a PNG file under the settings of the strategy. A file that
/// does not decode, or whose chunks are not sound, is not handed to the optimiser and counts
/// as one it failed on.
pub open spec fn optimizer_result(data: Seq<u8>) -> Option<Seq<u8>> {
    if decoded(data) is Some && chunks_sound(data) {
        optimized_png(data, full_effort())
    } else {
        None
    }
}

/// The PNG strategy: the optimised file if it fits; otherwise the picture shrunk (by the ratio
/// of the budget to the size of the file as it was given), written as PNG and optimised,
/// whatever its size.
pub open spec fn png_strategy(data: Seq<u8>, picture: Picture, budget: usize) -> Result<
    Seq<u8>,
    Reason,
> {
    match optimizer_result(data) {
        None => Err(Reason::IoOrDecodeError),
        Some(optimized) => if optimized.len() <= budget {
            Ok(optimized)
        } else {
            match png_encoding(shrunk(picture, data.len() as usize, budget)) {
                None => Err(Reason::IoOrDecodeError),
                Some(plain) => codec_result(optimizer_result(plain)),
            }
        },
    }
}

/// The final size check, the same after every strategy.
pub open spec fn settled(candidate: Seq<u8>, budget: usize) -> Outcome {
    if candidate.len() <= budget {
        Outcome::Transformed(candidate)
    } else {
        Outcome::Unreachable(Reason::ExceedsAfterCompression)
    }
}

/// The strategy for `kind`, followed by the final size check.
pub open spec fn compressed(kind: ImageKind, data: Seq<u8>, budget: usize) -> Outcome {
    match decoded(data) {
        None => Outcome::Unreachable(Reason::IoOrDecodeError),
        Some(picture) => {
            let produced = match kind {
                ImageKind::Jpeg => jpeg_strategy(picture, data.len() as usize, budget),
                ImageKind::Png => png_strategy(data, picture, budget),
            };
            match produced {
                Ok(candidate) => settled(candidate, budget),
                Err(reason) => Outcome::Unreachable(reason),
            }
        },
    }
}

/// What to do with a file, decided from its extension and its length alone: nothing is read
/// or decoded to tell.
#[derive(Clone, Copy, Debug, PartialEq, Eq, Structural)]
pub enum Plan {
    /// The file is of a known format and fits as it is.
    Keep,
    /// The file is not taken, for this reason.
    Refuse(Reason),
    /// The file is over budget and the strategy for this format is to be run on it.
    Compress(ImageKind),
}

/// The plan for a file of `length` bytes: an extension that declares no known format is
/// refused, whatever the length; a known format is kept within budget and compressed over it.
pub open spec fn planned(extension: Seq<char>, length: int, budget: usize) -> Plan {
    match kind_of(extension) {
        None => Plan::Refuse(Reason::UnsupportedFormat),
        Some(kind) => if length <= budget {
            Plan::Keep
        } else {
            Plan::Compress(kind)
        },
    }
}

/// What the engine makes of a file with the given extension and content.
pub open spec fn processed(extension: Seq<char>, data: Seq<u8>, budget: usize) -> Outcome {
    match planned(extension, data.len() as int, budget) {
        Plan::Keep => Outcome::Unchanged,
        Plan::Refuse(reason) => Outcome::Unreachable(reason),
        Plan::Compress(kind) => compressed(kind, data, budget),
    }
}

/// The directory, under the system's temporary directory, that replacement files go to.
pub open spec fn scratch_directory_name() -> Seq<char> {
    "senddisimages"@
}

/// The name of the replacement of a file: the file's own name behind a fixed prefix, so that
/// compressing a file again overwrites its earlier replacement.
pub open spec fn scratch_name_of(file_name: Seq<char>) -> Seq<char> {
    "compressed_"@ + file_name
}

/// The sweep from any of its qualities down ends in exactly one of three ways, and each says
/// what every quality from there down to the end gave.
pub proof fn lemma_sweep_from(picture: Picture, budget: usize, start: int)
    requires
        is_sweep_quality(start) || start == LOWEST_QUALITY - QUALITY_STEP,
    ensures
        match sweep_from(picture, budget, start) {
            Sweep::Accepted(quality) => {
                &&& is_sweep_quality(quality as int)
                &&& quality <= start
                &&& fits(picture, quality, budget)
                &&& forall|higher: u8|
                    is_sweep_quality(higher as int) && quality < higher <= start ==> overshoots(
                        picture,
                        higher,
                        budget,
                    )
            },
            Sweep::Failed => exists|quality: u8|
                {
                    &&& is_sweep_quality(quality as int)
                    &&& quality <= start
                    &&& #[trigger] jpeg_encoding(picture, quality) is None
                    &&& forall|higher: u8|
                        is_sweep_quality(higher as int) && quality < higher <= start
                            ==> overshoots(picture, higher, budget)
                },
            Sweep::NoneFits => forall|quality: u8|
                is_sweep_quality(quality as int) && quality <= start ==> overshoots(
                    picture,
                    quality,
                    budget,
                ),
        },
    decreases start,
{
    if start >= LOWEST_QUALITY {
        let next = start - QUALITY_STEP;
        match jpeg_encoding(picture, start as u8) {
            None => {
                assert(jpeg_encoding(picture, start as u8) is None);
            },
            Some(bytes) => {
                if bytes.len() > budget {
                    lemma_sweep_from(picture, budget, next);
                    assert(overshoots(picture, start as u8, budget));
                    assert forall|higher: u8|
                        is_sweep_quality(higher as int) && next < higher <= start implies higher
                        == start by {}
                    match sweep_from(picture, budget, next) {
                        Sweep::Failed => {
                            let quality = choose|quality: u8|
                                {
                                    &&& is_sweep_quality(quality as int)
                                    &&& quality <= next
                                    &&& #[trigger] jpeg_encoding(picture, quality) is None
                                    &&& forall|higher: u8|
                                        is_sweep_quality(higher as int) && quality < higher <= next
                                            ==> overshoots(picture, higher, budget)
                                };
                            assert(jpeg_encoding(picture, quality) is None);
                        },
                        _ => {},
                    }
                }
            },
        }
    }
}

/// Quality-sweep monotonicity: the quality the sweep accepts is the highest of 95, 90, ..., 60
/// whose encoding fits the budget. Every higher quality of the sweep was encoded and is over
/// budget, so no lower quality is chosen while a higher one fits.
pub proof fn lemma_sweep_accepts_highest_fit(picture: Picture, budget: usize, quality: u8)
    requires
        sweep(picture, budget) == Sweep::Accepted(quality),
    ensures
        is_sweep_quality(quality as int),
        fits(picture, quality, budget),
        forall|higher: u8|
            is_sweep_quality(higher as int) && higher > quality ==> overshoots(
                picture,
                higher,
                budget,
            ),
{
    lemma_sweep_from(picture, budget, HIGHEST_QUALITY as int);
}

/// The sweep reports that nothing fits only when every one of its qualities was encoded and is
/// over budget.
pub proof fn lemma_sweep_none_fits(picture: Picture, budget: usize)
    requires
        sweep(picture, budget) == Sweep::NoneFits,
    ensures
        forall|quality: u8|
            is_sweep_quality(quality as int) ==> overshoots(picture, quality, budget),
{
    lemma_sweep_from(picture, budget, HIGHEST_QUALITY as int);
}

/// Budget satisfaction: a transformed file is never over budget, whatever the extension and
/// the content were.
pub proof fn lemma_transformed_fits(extension: Seq<char>, data: Seq<u8>, budget: usize)
    ensures
        processed(extension, data, budget) matches Outcome::Transformed(bytes) ==> bytes.len()
            <= budget,
{
}

/// The cheap path: a file of a known format comes back unchanged exactly when it is within
/// budget, whatever its content is.
pub proof fn lemma_unchanged_iff_within_budget(extension: Seq<char>, data: Seq<u8>, budget: usize)
    requires
        kind_of(extension) is Some,
    ensures
        data.len() <= budget <==> processed(extension, data, budget) == Outcome::Unchanged,
{
}

/// A file whose extension declares no known format is refused, whatever its length and
/// content are.
pub proof fn lemma_unknown_extension_is_refused(
    extension: Seq<char>,
    data: Seq<u8>,
    budget: usize,
)
    requires
        kind_of(extension) is None,
    ensures
        processed(extension, data, budget) == Outcome::Unreachable(Reason::UnsupportedFormat),
{
}

/// For a file that is over its budget, the sides of the shrunk picture are the scaled sides,
/// `floor(side * sqrt(budget / source_len))`, with nothing cut off.
pub proof fn lemma_shrunk_side_is_scaled(side: u32, budget: usize, source_len: usize)
    requires
        budget < source_len,
    ensures
        shrunk_side(side, budget, source_len) == scaled_side(side, budget, source_len),
{
    lemma_scaled_side_is_scaled(side, budget, source_len);
    lemma_scaled_side_shrinks(
        scaled_side(side, budget, source_len) as int,
        side as int,
        budget as int,
        source_len as int,
    );
}

/// The sweep accepts a quality exactly when that quality fits and every higher quality of
/// the sweep was encoded and is over budget.
pub proof fn lemma_sweep_is_highest_fit(picture: Picture, budget: usize, best: u8)
    requires
        is_sweep_quality(best as int),
        fits(picture, best, budget),
        forall|higher: u8|
            is_sweep_quality(higher as int) && higher > best ==> overshoots(
                picture,
                higher,
                budget,
            ),
    ensures
        sweep(picture, budget) == Sweep::Accepted(best),
{
    lemma_sweep_from(picture, budget, HIGHEST_QUALITY as int);
    match sweep(picture, budget) {
        Sweep::Accepted(quality) => {
            if quality > best {
                assert(overshoots(picture, quality, budget));
            } else if quality < best {
                assert(overshoots(picture, best, budget));
            }
        },
        Sweep::Failed => {
            let quality = choose|quality: u8|
                {
                    &&& is_sweep_quality(quality as int)
                    &&& quality <= HIGHEST_QUALITY
                    &&& #[trigger] jpeg_encoding(picture, quality) is None
                    &&& forall|higher: u8|
                        is_sweep_quality(higher as int) && quality < higher <= HIGHEST_QUALITY
                            ==> overshoots(picture, higher, budget)
                };
            if quality > best {
                assert(overshoots(picture, quality, budget));
            } else if quality < best {
                assert(overshoots(picture, best, budget));
            }
        },
        Sweep::NoneFits => {
            assert(overshoots(picture, best, budget));
        },
    }
}

/// Quality-sweep monotonicity, at the strategy: where some quality of the sweep fits and the
/// encoder succeeded on every higher one, the JPEG strategy gives the encoding at the highest
/// quality that fits, at full resolution, and nothing else.
pub proof fn lemma_jpeg_strategy_takes_highest_fit(
    picture: Picture,
    source_len: usize,
    budget: usize,
    best: u8,
)
    requires
        is_sweep_quality(best as int),
        fits(picture, best, budget),
        forall|higher: u8|
            is_sweep_quality(higher as int) && higher > best ==> overshoots(
                picture,
                higher,
                budget,
            ),
    ensures
        jpeg_strategy(picture, source_len, budget) == Ok::<Seq<u8>, Reason>(
            jpeg_encoding(picture, best)->Some_0,
        ),
{
    lemma_sweep_is_highest_fit(picture, budget, best);
}

/// Where the encoding at the highest quality fits, the JPEG strategy gives that encoding:
/// no lower quality is chosen, although every lower one may fit too.
pub proof fn lemma_jpeg_strategy_prefers_first_quality(
    picture: Picture,
    source_len: usize,
    budget: usize,
)
    requires
        fits(picture, HIGHEST_QUALITY, budget),
    ensures
        jpeg_strategy(picture, source_len, budget) == Ok::<Seq<u8>, Reason>(
            jpeg_encoding(picture, HIGHEST_QUALITY)->Some_0,
        ),
{
    lemma_jpeg_strategy_takes_highest_fit(picture, source_len, budget, HIGHEST_QUALITY);
}

/// Raising the budget never lowers the quality the sweep accepts.
pub proof fn lemma_accepted_quality_grows_with_budget(
    picture: Picture,
    smaller: usize,
    larger: usize,
    low: u8,
    high: u8,
)
    requires
        smaller <= larger,
        sweep(picture, smaller) == Sweep::Accepted(low),
        sweep(picture, larger) == Sweep::Accepted(high),
    ensures
        low <= high,
{
    lemma_sweep_accepts_highest_fit(picture, smaller, low);
    lemma_sweep_accepts_highest_fit(picture, larger, high);
    if low > high {
        assert(overshoots(picture, low, larger));
        assert(fits(picture, low, smaller));
    }
}

/// The name of the directory that replacement files go to.
pub fn scratch_directory() -> (name: String)
    ensures
        name@ == scratch_directory_name(),
{
    String::from_str("senddisimages")
}

/// The name under which the replacement of the file named `file_name` is kept.
pub fn scratch_name(file_name: &str) -> (name: String)
    ensures
        name@ == scratch_name_of(file_name@),
{
    let mut name = String::from_str("compressed_");
    name.append(file_name);
    name
}

/// Decodes a picture file held in memory. The container format is guessed from the content.
pub fn load_picture(data: &[u8]) -> (picture: Option<Picture>)
    ensures
        picture == decoded(data@),
{
    match decode(data) {
        Ok(picture) => Some(picture),
        Err(_) => None,
    }
}

/// Encodes `picture` as JPEG at 95, 90, ..., 60 and stops at the first encoding that is
/// within `budget`, or at the first that the encoder fails on.
pub fn quality_sweep(picture: &Picture, budget: usize) -> (outcome: SweepOutcome)
    ensures
        match sweep(*picture, budget) {
            Sweep::Accepted(accepted) => outcome matches SweepOutcome::Accepted { quality, bytes }
                && quality == accepted && jpeg_encoding(*picture, accepted) == Some(bytes@),
            Sweep::Failed => outcome is Failed,
            Sweep::NoneFits => outcome is NoneFits,
        },
        outcome is Failed <==> !picture.jpeg_encodable(),
{
    let mut quality: u8 = HIGHEST_QUALITY;
    while quality >= LOWEST_QUALITY
        invariant
            quality <= HIGHEST_QUALITY,
            sweep(*picture, budget) == sweep_from(*picture, budget, quality as int),
            quality < HIGHEST_QUALITY ==> picture.jpeg_encodable(),
        decreases quality,
    {
        match compress_jpeg_with_quality(picture, quality) {
            Err(_) => {
                return SweepOutcome::Failed;
            },
            Ok(bytes) => {
                if bytes.len() <= budget {
                    return SweepOutcome::Accepted { quality, bytes };
                }
            },
        }
        quality = quality - QUALITY_STEP;
    }
    SweepOutcome::NoneFits
}

/// Scales a side by `sqrt(budget / source_len)`, unless that would make it longer.
pub fn shrink_side(side: u32, budget: usize, source_len: usize) -> (target: u32)
    ensures
        target == shrunk_side(side, budget, source_len),
        target <= side,
{
    let scaled = scale_side(side, budget, source_len);
    if scaled <= side {
        scaled
    } else {
        side
    }
}

/// Scales both sides of `picture` by `sqrt(budget / source_len)` and resamples it. A picture
/// is never enlarged.
pub fn shrink(picture: &Picture, source_len: usize, budget: usize) -> (small: Picture)
    ensures
        small == shrunk(*picture, source_len, budget),
        picture.jpeg_encodable() ==> small.jpeg_encodable(),
{
    let width = shrink_side(picture.width(), budget, source_len);
    let height = shrink_side(picture.height(), budget, source_len);
    resize_lanczos3(picture, width, height)
}

/// The JPEG strategy on a decoded picture whose file had `source_len` bytes. It fails on the
/// pictures that a JPEG file cannot hold, those with a side above 65535, and on no other.
pub fn compress_jpeg(picture: &Picture, source_len: usize, budget: usize) -> (produced: Result<
    Vec<u8>,
    Reason,
>)
    ensures
        produced is Ok <==> picture.jpeg_encodable(),
        produced is Ok <==> jpeg_strategy(*picture, source_len, budget) is Ok,
        produced matches Ok(bytes) ==> jpeg_strategy(*picture, source_len, budget) == Ok::<
            Seq<u8>,
            Reason,
        >(bytes@),
        produced matches Err(reason) ==> jpeg_strategy(*picture, source_len, budget) == Err::<
            Seq<u8>,
            Reason,
        >(reason),
{
    match quality_sweep(picture, budget) {
        SweepOutcome::Accepted { bytes, .. } => Ok(bytes),
        SweepOutcome::Failed => Err(Reason::IoOrDecodeError),
        SweepOutcome::NoneFits => {
            let small = shrink(picture, source_len, budget);
            match compress_jpeg_with_quality(&small, FALLBACK_QUALITY) {
                Ok(bytes) => Ok(bytes),
                Err(_) => Err(Reason::IoOrDecodeError),
            }
        },
    }
}

/// The optimiser settings of the PNG strategy.
pub fn effort() -> (settings: PngEffort)
    ensures
        settings == full_effort(),
{
    PngEffort {
        preset: 6,
        optimize_alpha: true,
        bit_depth_reduction: true,
        color_type_reduction: true,
        palette_reduction: true,
        grayscale_reduction: true,
    }
}

/// A picture file that decodes, with the picture decoded from it.
pub struct PictureFile<'a> {
    data: &'a [u8],
    picture: Picture,
}

impl<'a> PictureFile<'a> {
    #[verifier::type_invariant]
    spec fn well_formed(&self) -> bool {
        decoded(self.data@) == Some(self.picture)
    }

    /// The bytes of the file.
    pub closed spec fn bytes(&self) -> Seq<u8> {
        self.data@
    }

    /// The picture the file holds.
    pub closed spec fn spec_picture(&self) -> Picture {
        self.picture
    }

    /// Decodes `data`; there is a picture file exactly where the bytes decode.
    pub fn load(data: &'a [u8]) -> (file: Option<PictureFile<'a>>)
        ensures
            file is Some <==> decoded(data@) is Some,
            file matches Some(loaded) ==> loaded.bytes() == data@ && decoded(data@) == Some(
                loaded.spec_picture(),
            ),
    {
        match decode(data) {
            Ok(picture) => Some(PictureFile { data, picture }),
            Err(_) => None,
        }
    }

    /// The bytes of the file.
    pub fn data(&self) -> (data: &[u8])
        ensures
            data@ == self.bytes(),
            decoded(data@) == Some(self.spec_picture()),
    {
        proof {
            use_type_invariant(self);
        }
        self.data
    }

    /// The picture the file holds.
    pub fn picture(&self) -> (picture: &Picture)
        ensures
            *picture == self.spec_picture(),
    {
        &self.picture
    }
}

/// Hands a PNG file to the optimiser, unless its chunks are not sound.
fn optimize(file: &PictureFile) -> (produced: Option<Vec<u8>>)
    ensures
        produced is Some <==> optimizer_result(file.bytes()) is Some,
        produced matches Some(bytes) ==> optimizer_result(file.bytes()) == Some(bytes@)
            && bytes@.len() <= file.bytes().len() && has_png_signature(bytes@),
{
    let data = file.data();
    if !check_chunks(data) {
        return None;
    }
    let settings = effort();
    match optimize_png(data, &settings) {
        Ok(bytes) => Some(bytes),
        Err(_) => None,
    }
}

/// The PNG strategy on a picture file.
pub fn compress_png(file: &PictureFile, budget: usize) -> (produced: Result<Vec<u8>, Reason>)
    ensures
        produced is Ok <==> png_strategy(file.bytes(), file.spec_picture(), budget) is Ok,
        produced matches Ok(bytes) ==> png_strategy(file.bytes(), file.spec_picture(), budget)
            == Ok::<Seq<u8>, Reason>(bytes@),
        produced matches Err(reason) ==> png_strategy(
            file.bytes(),
            file.spec_picture(),
            budget,
        ) == Err::<Seq<u8>, Reason>(reason),
        produced matches Ok(bytes) ==> has_png_signature(bytes@),
{
    match optimize(file) {
        None => Err(Reason::IoOrDecodeError),
        Some(optimized) => {
            if optimized.len() <= budget {
                return Ok(optimized);
            }
            let small = shrink(file.picture(), file.data().len(), budget);
            match encode_png(&small) {
                Err(_) => Err(Reason::IoOrDecodeError),
                Ok(plain) => match PictureFile::load(plain.as_slice()) {
                    None => Err(Reason::IoOrDecodeError),
                    Some(written) => match optimize(&written) {
                        Some(bytes) => Ok(bytes),
                        None => Err(Reason::IoOrDecodeError),
                    },
                },
            }
        },
    }
}

/// The final size check: a candidate within budget is the transformed file, one over budget
/// is given up.
pub fn settle(candidate: Vec<u8>, budget: usize) -> (outcome: CompressionOutcome)
    ensures
        outcome@ == settled(candidate@, budget),
{
    if candidate.len() <= budget {
        CompressionOutcome::Transformed(candidate)
    } else {
        CompressionOutcome::Unreachable(Reason::ExceedsAfterCompression)
    }
}

/// Decodes a file, runs the strategy for `kind` and checks the size of what it produced.
pub fn compress(kind: ImageKind, data: &[u8], budget: usize) -> (outcome: CompressionOutcome)
    ensures
        outcome@ == compressed(kind, data@, budget),
        outcome@ != Outcome::Unchanged,
        outcome@ matches Outcome::Transformed(bytes) ==> bytes.len() <= budget,
{
    match PictureFile::load(data) {
        None => CompressionOutcome::Unreachable(Reason::IoOrDecodeError),
        Some(file) => {
            let produced = match kind {
                ImageKind::Jpeg => compress_jpeg(file.picture(), data.len(), budget),
                ImageKind::Png => compress_png(&file, budget),
            };
            match produced {
                Ok(candidate) => settle(candidate, budget),
                Err(reason) => CompressionOutcome::Unreachable(reason),
            }
        },
    }
}

/// Decides what to do with a file from its extension (without the dot, in any letter case)
/// and its length. A caller that knows the length of a file can ask before it reads the file.
pub fn plan(extension: &str, length: usize, max_size: usize) -> (plan: Plan)
    ensures
        plan == planned(extension@, length as int, max_size),
        plan is Refuse <==> kind_of(extension@) is None,
        plan is Keep <==> kind_of(extension@) is Some && length <= max_size,
{
    match kind_of_extension(extension) {
        None => Plan::Refuse(Reason::UnsupportedFormat),
        Some(kind) => if length <= max_size {
            Plan::Keep
        } else {
            Plan::Compress(kind)
        },
    }
}

/// Brings one file under `max_size` bytes.
///
/// `extension` is the file's extension without the dot, in any letter case, and `data` is the
/// file's content. A file with an extension other than `jpg`, `jpeg` or `png` is refused,
/// whatever its length. A file that is within `max_size` is reported unchanged; nothing is
/// decoded for it. A larger file is decoded and compressed, and the result is accepted only
/// if it is within `max_size`.
pub fn process_image(extension: &str, data: &[u8], max_size: usize) -> (outcome:
    CompressionOutcome)
    ensures
        outcome@ == processed(extension@, data@, max_size),
        kind_of(extension@) is None ==> outcome@ == Outcome::Unreachable(
            Reason::UnsupportedFormat,
        ),
        kind_of(extension@) is Some ==> (data@.len() <= max_size <==> outcome@
            == Outcome::Unchanged),
        outcome@ matches Outcome::Transformed(bytes) ==> bytes.len() <= max_size,
{
    match plan(extension, data.len(), max_size) {
        Plan::Keep => CompressionOutcome::Unchanged,
        Plan::Refuse(reason) => CompressionOutcome::Unreachable(reason),
        Plan::Compress(kind) => compress(kind, data, max_size),
    }
}

} // verus!
