//! Loader dispatch: the per-format transform applied to a matched source
//! file, producing one or more rendered assets.
//!
//! - `Default` passes the bytes through unchanged.
//! - `Css` minifies the stylesheet text (safe syntactic minification).
//! - `Image` decodes a raster image and re-encodes it once per target
//!   format, in a fixed order.
//!
//! Every produced asset carries the fingerprint of (source path, produced
//! bytes) and an output filename derived from the fingerprint and/or the
//! source file's base name.

use vstd::prelude::*;
use vstd::utf8::valid_utf8;
use vstd::utf8::decode_utf8;
use crate::error::BuildError;
use crate::hashing::hash_spec;
use crate::hashing::hash_content;
use crate::paths::file_name_spec;
use crate::paths::has_extension;
use crate::paths::extension_spec;
use crate::paths::with_extension_spec;
use crate::paths::file_name;
use crate::paths::extension_of;
use crate::paths::with_extension;
use vstd::string::StrSliceExecFns;
use vstd::string::StringExecFns;

verus! {

/// One rendered output: the transformed bytes, their fingerprint, and the
/// filename they will be written under.
pub struct Asset {
    pub content: Vec<u8>,
    pub hash: String,
    pub output_filename: String,
}

/// The mathematical value of an `Asset`.
pub ghost struct AssetView {
    pub content: Seq<u8>,
    pub hash: Seq<char>,
    pub output_filename: Seq<char>,
}

impl View for Asset {
    type V = AssetView;

    open spec fn view(&self) -> AssetView {
        AssetView {
            content: self.content@,
            hash: self.hash@,
            output_filename: self.output_filename@,
        }
    }
}

/// The values of a sequence of assets.
pub open spec fn assets_view(v: Seq<Asset>) -> Seq<AssetView> {
    Seq::new(v.len(), |i: int| v[i]@)
}

/// The view of an optional extension override.
pub open spec fn opt_view(o: Option<&str>) -> Option<Seq<char>> {
    match o {
        Some(s) => Some(s@),
        None => None,
    }
}

/// The output filename scheme. With hashing skipped the source file keeps
/// its base name (with the loader's target extension substituted when one is
/// given); otherwise the name is the first 16 hex digits of the fingerprint
/// followed by the effective extension, when there is one.
pub open spec fn output_filename_spec(
    path: Seq<char>,
    hash: Seq<char>,
    hashed: bool,
    override_ext: Option<Seq<char>>,
) -> Seq<char> {
    let name = file_name_spec(path);
    if !hashed {
        match override_ext {
            Some(e) => with_extension_spec(name, e),
            None => name,
        }
    } else {
        let prefix = hash.take(16);
        match override_ext {
            Some(e) => prefix + seq!['.'] + e,
            None => if has_extension(name) {
                prefix + seq!['.'] + extension_spec(name)
            } else {
                prefix
            },
        }
    }
}

/// The asset produced for a source path from the given (already
/// transformed) bytes.
pub open spec fn asset_spec(
    path: Seq<char>,
    content: Seq<u8>,
    hashed: bool,
    override_ext: Option<Seq<char>>,
) -> AssetView {
    AssetView {
        content: content,
        hash: hash_spec(path, content),
        output_filename: output_filename_spec(path, hash_spec(path, content), hashed, override_ext),
    }
}

/// Package transformed bytes as an asset: fingerprint them and derive the
/// output filename.
pub fn create_asset(
    input_path: &str,
    content: Vec<u8>,
    hashed_name: bool,
    override_ext: Option<&str>,
) -> (r: Asset)
    requires
        !hashed_name ==> file_name_spec(input_path@).len() > 0,
    ensures
        r@ == asset_spec(input_path@, content@, hashed_name, opt_view(override_ext)),
{
    let hash = hash_content(input_path, content.as_slice());
    let output_filename: String = if !hashed_name {
        let name = file_name(input_path);
        match override_ext {
            Some(e) => with_extension(name.as_str(), e),
            None => name,
        }
    } else {
        let prefix = String::from_str(hash.as_str().substring_char(0, 16));
        proof {
            assert(prefix@ =~= hash@.take(16));
        }
        match override_ext {
            Some(e) => {
                let r = prefix.concat(".").concat(e);
                proof {
                    reveal_strlit(".");
                    assert(r@ =~= hash@.take(16) + seq!['.'] + e@);
                }
                r
            },
            None => {
                let name = file_name(input_path);
                match extension_of(name.as_str()) {
                    Some(ext) => {
                        let r = prefix.concat(".").concat(ext.as_str());
                        proof {
                            reveal_strlit(".");
                            assert(r@ =~= hash@.take(16) + seq!['.']
                                + extension_spec(file_name_spec(input_path@)));
                        }
                        r
                    },
                    None => prefix,
                }
            },
        }
    };
    Asset { content, hash, output_filename }
}

/// What minifying a stylesheet yields, named but not defined here: the
/// lightningcss parse/minify/serialize chain is deterministic in the source
/// text alone; None stands for a source it rejects.
pub uninterp spec fn css_minified(source: Seq<char>) -> Option<Seq<u8>>;

/// Relies on lightningcss (StyleSheet::parse, StyleSheet::minify and
/// StyleSheet::to_css with minify set): the chain succeeds or fails, and on
/// success produces output, as a function of the source text alone.
#[verifier::external_body]
fn minify_css(source: &str) -> (r: Result<Vec<u8>, BuildError>)
    ensures
        r is Ok <==> css_minified(source@) is Some,
        r is Ok ==> r->Ok_0@ == css_minified(source@)->Some_0,
        r is Err ==> r->Err_0 == BuildError::CssMinify,
{
    let opts = lightningcss::stylesheet::ParserOptions::default();
    let mut sheet = lightningcss::stylesheet::StyleSheet::parse(source, opts).map_err(
        |_| BuildError::CssMinify,
    )?;
    sheet.minify(lightningcss::stylesheet::MinifyOptions::default()).map_err(
        |_| BuildError::CssMinify,
    )?;
    let popts = lightningcss::stylesheet::PrinterOptions { minify: true, ..Default::default() };
    let out = sheet.to_css(popts).map_err(|_| BuildError::CssMinify)?;
    Ok(out.code.into_bytes())
}

/// What transcoding an image to AVIF yields, named but not defined here:
/// decoding and re-encoding is deterministic in the input bytes alone; None
/// stands for input the codec rejects. In this build the image crate
/// carries no AVIF encoder backend (rav1e needs the nasm assembler, which
/// this toolchain lacks), so it rejects every input and the loader stays
/// fail-fast rather than emit a partial format set.
pub uninterp spec fn avif_transcoded(content: Seq<u8>) -> Option<Seq<u8>>;

/// Relies on image::load_from_memory and DynamicImage::write_to with the
/// AVIF output format: the decode/encode chain is a function of the input
/// bytes alone. Without the avif-encoder feature the crate reports the
/// format as unsupported and every call returns Err (see avif_transcoded).
#[verifier::external_body]
fn transcode_avif(content: &[u8]) -> (r: Result<Vec<u8>, BuildError>)
    ensures
        r is Ok <==> avif_transcoded(content@) is Some,
        r is Ok ==> r->Ok_0@ == avif_transcoded(content@)->Some_0,
        r is Err ==> r->Err_0 == BuildError::ImageTranscode,
{
    let img = match image::load_from_memory(content) {
        Ok(img) => img,
        Err(_) => return Err(BuildError::ImageTranscode),
    };
    let mut out = std::io::Cursor::new(Vec::new());
    match img.write_to(&mut out, image::ImageFormat::Avif) {
        Ok(()) => Ok(out.into_inner()),
        Err(_) => Err(BuildError::ImageTranscode),
    }
}

/// What transcoding an image to lossless WebP yields, named but not defined
/// here: decoding and re-encoding is deterministic in the input bytes alone;
/// None stands for input the codec rejects.
pub uninterp spec fn webp_transcoded(content: Seq<u8>) -> Option<Seq<u8>>;

/// What transcoding an image to PNG yields, named but not defined here:
/// decoding and re-encoding is deterministic in the input bytes alone; None
/// stands for input the codec rejects.
pub uninterp spec fn png_transcoded(content: Seq<u8>) -> Option<Seq<u8>>;

/// Relies on image::load_from_memory and DynamicImage::write_to with the
/// WebP output format: the decode/encode chain is a function of the input
/// bytes alone.
#[verifier::external_body]
fn transcode_webp(content: &[u8]) -> (r: Result<Vec<u8>, BuildError>)
    ensures
        r is Ok <==> webp_transcoded(content@) is Some,
        r is Ok ==> r->Ok_0@ == webp_transcoded(content@)->Some_0,
        r is Err ==> r->Err_0 == BuildError::ImageTranscode,
{
    let img = match image::load_from_memory(content) {
        Ok(img) => img,
        Err(_) => return Err(BuildError::ImageTranscode),
    };
    let mut out = std::io::Cursor::new(Vec::new());
    match img.write_to(&mut out, image::ImageOutputFormat::WebP) {
        Ok(()) => Ok(out.into_inner()),
        Err(_) => Err(BuildError::ImageTranscode),
    }
}

/// Relies on image::load_from_memory and DynamicImage::write_to with the
/// PNG output format: the decode/encode chain is a function of the input
/// bytes alone.
#[verifier::external_body]
fn transcode_png(content: &[u8]) -> (r: Result<Vec<u8>, BuildError>)
    ensures
        r is Ok <==> png_transcoded(content@) is Some,
        r is Ok ==> r->Ok_0@ == png_transcoded(content@)->Some_0,
        r is Err ==> r->Err_0 == BuildError::ImageTranscode,
{
    let img = match image::load_from_memory(content) {
        Ok(img) => img,
        Err(_) => return Err(BuildError::ImageTranscode),
    };
    let mut out = std::io::Cursor::new(Vec::new());
    match img.write_to(&mut out, image::ImageOutputFormat::Png) {
        Ok(()) => Ok(out.into_inner()),
        Err(_) => Err(BuildError::ImageTranscode),
    }
}

/// Relies on String::from_utf8: it returns Ok exactly on valid UTF-8 input,
/// decoding the bytes to their character sequence.
#[verifier::external_body]
fn bytes_to_string(bytes: Vec<u8>) -> (r: Result<String, BuildError>)
    ensures
        r is Ok <==> valid_utf8(bytes@),
        r is Ok ==> r->Ok_0@ == decode_utf8(bytes@),
        r is Err ==> r->Err_0 == BuildError::InvalidUtf8,
{
    match String::from_utf8(bytes) {
        Ok(s) => Ok(s),
        Err(_) => Err(BuildError::InvalidUtf8),
    }
}

/// The transform applied to every file matched by a rule. A closed tag set:
/// new formats are added by extending it and its dispatch arm.
#[derive(Clone, Copy, Debug, PartialEq, Eq, Structural)]
pub enum Loader {
    Default,
    Css,
    Image,
}

impl Default for Loader {
    /// A rule that names no loader copies bytes through unchanged.
    fn default() -> (r: Self)
        ensures
            r is Default,
    {
        Loader::Default
    }
}

/// What processing one source file yields: the assets of the matching
/// loader, or the error that aborts that file.
pub open spec fn process_spec(
    kind: Loader,
    path: Seq<char>,
    content: Seq<u8>,
    hashed: bool,
) -> Result<Seq<AssetView>, BuildError> {
    match kind {
        Loader::Default => Ok(seq![asset_spec(path, content, hashed, None)]),
        Loader::Css => {
            if !valid_utf8(content) {
                Err(BuildError::InvalidUtf8)
            } else {
                match css_minified(decode_utf8(content)) {
                    Some(min) => Ok(seq![asset_spec(path, min, hashed, None)]),
                    None => Err(BuildError::CssMinify),
                }
            }
        },
        Loader::Image => {
            match (avif_transcoded(content), webp_transcoded(content), png_transcoded(content)) {
                (Some(a), Some(w), Some(p)) => Ok(
                    seq![
                        asset_spec(path, a, hashed, Some("avif"@)),
                        asset_spec(path, w, hashed, Some("webp"@)),
                        asset_spec(path, p, hashed, Some("png"@)),
                    ],
                ),
                _ => Err(BuildError::ImageTranscode),
            }
        },
    }
}

impl Loader {
    /// Transform one source file's bytes into its rendered assets.
    pub fn process(&self, input_path: &str, content: Vec<u8>, hashed_name: bool) -> (r: Result<
        Vec<Asset>,
        BuildError,
    >)
        requires
            file_name_spec(input_path@).len() > 0,
        ensures
            r is Ok <==> process_spec(*self, input_path@, content@, hashed_name) is Ok,
            r is Ok ==> assets_view(r->Ok_0@) == process_spec(
                *self,
                input_path@,
                content@,
                hashed_name,
            )->Ok_0,
            r is Err ==> r->Err_0 == process_spec(
                *self,
                input_path@,
                content@,
                hashed_name,
            )->Err_0,
    {
        match self {
            Loader::Default => {
                let asset = create_asset(input_path, content, hashed_name, None);
                let mut out: Vec<Asset> = Vec::new();
                out.push(asset);
                proof {
                    assert(assets_view(out@) =~= process_spec(
                        *self,
                        input_path@,
                        content@,
                        hashed_name,
                    )->Ok_0);
                }
                Ok(out)
            },
            Loader::Css => {
                let source = match bytes_to_string(content) {
                    Ok(s) => s,
                    Err(e) => return Err(e),
                };
                let min = match minify_css(source.as_str()) {
                    Ok(m) => m,
                    Err(e) => return Err(e),
                };
                let asset = create_asset(input_path, min, hashed_name, None);
                let mut out: Vec<Asset> = Vec::new();
                out.push(asset);
                proof {
                    assert(assets_view(out@) =~= process_spec(
                        *self,
                        input_path@,
                        content@,
                        hashed_name,
                    )->Ok_0);
                }
                Ok(out)
            },
            Loader::Image => {
                let avif = match transcode_avif(content.as_slice()) {
                    Ok(a) => a,
                    Err(e) => return Err(e),
                };
                let webp = match transcode_webp(content.as_slice()) {
                    Ok(w) => w,
                    Err(e) => return Err(e),
                };
                let png = match transcode_png(content.as_slice()) {
                    Ok(p) => p,
                    Err(e) => return Err(e),
                };
                let a1 = create_asset(input_path, avif, hashed_name, Some("avif"));
                let a2 = create_asset(input_path, webp, hashed_name, Some("webp"));
                let a3 = create_asset(input_path, png, hashed_name, Some("png"));
                let mut out: Vec<Asset> = Vec::new();
                out.push(a1);
                out.push(a2);
                out.push(a3);
                proof {
                    assert(assets_view(out@) =~= process_spec(
                        *self,
                        input_path@,
                        content@,
                        hashed_name,
                    )->Ok_0);
                }
                Ok(out)
            },
        }
    }
}

/// Produce the assets for one source file: the rule's loader transforms the
/// bytes, and names are hashed unless the rule (or an exception match)
/// opted out.
pub fn generate_assets(path: &str, content: Vec<u8>, loader: Loader, no_hash: bool) -> (r: Result<
    Vec<Asset>,
    BuildError,
>)
    requires
        file_name_spec(path@).len() > 0,
    ensures
        r is Ok <==> process_spec(loader, path@, content@, !no_hash) is Ok,
        r is Ok ==> assets_view(r->Ok_0@) == process_spec(loader, path@, content@, !no_hash)->Ok_0,
        r is Err ==> r->Err_0 == process_spec(loader, path@, content@, !no_hash)->Err_0,
{
    loader.process(path, content, !no_hash)
}

/// A sequence ends with a suffix.
pub open spec fn ends_with(s: Seq<char>, suffix: Seq<char>) -> bool {
    s.len() >= suffix.len() && s.skip(s.len() - suffix.len()) == suffix
}

/// With hashing skipped, the output filename depends on the source path and
/// the loader's extension override alone: any two contents (hence any two
/// fingerprints) yield the same name, which only ever changes its bytes.
pub proof fn lemma_no_hash_filename_stable(
    path: Seq<char>,
    content1: Seq<u8>,
    content2: Seq<u8>,
    ext: Option<Seq<char>>,
)
    ensures
        asset_spec(path, content1, false, ext).output_filename == asset_spec(
            path,
            content2,
            false,
            ext,
        ).output_filename,
{
}

/// The image loader, when it succeeds, produces exactly one asset per
/// target format — three in all — in a fixed, stable order, each named
/// with that format's extension, the next-gen format first as the primary.
pub proof fn lemma_image_loader_shape(path: Seq<char>, content: Seq<u8>, hashed: bool)
    requires
        process_spec(Loader::Image, path, content, hashed) is Ok,
        file_name_spec(path).len() > 0,
    ensures
        process_spec(Loader::Image, path, content, hashed)->Ok_0.len() == 3,
        ends_with(process_spec(Loader::Image, path, content, hashed)->Ok_0[0].output_filename, ".avif"@),
        ends_with(process_spec(Loader::Image, path, content, hashed)->Ok_0[1].output_filename, ".webp"@),
        ends_with(process_spec(Loader::Image, path, content, hashed)->Ok_0[2].output_filename, ".png"@),
{
    reveal_strlit(".avif");
    reveal_strlit(".webp");
    reveal_strlit(".png");
    reveal_strlit("avif");
    reveal_strlit("webp");
    reveal_strlit("png");
    let out = process_spec(Loader::Image, path, content, hashed)->Ok_0;
    let f0 = out[0].output_filename;
    let f1 = out[1].output_filename;
    let f2 = out[2].output_filename;
    assert(f0.skip(f0.len() - 5) =~= ".avif"@);
    assert(f1.skip(f1.len() - 5) =~= ".webp"@);
    assert(f2.skip(f2.len() - 4) =~= ".png"@);
}

} // verus!
